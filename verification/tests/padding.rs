use egui_wgpu::padding::BufferPadding;

fn lengths(width: u32) -> (u32, u32) {
    let padding = BufferPadding::new(width);
    (padding.unpadded_bytes_per_row, padding.padded_bytes_per_row)
}

#[test]
fn rows_are_padded_to_the_next_multiple() {
    assert_eq!(lengths(0), (0, 0));
    assert_eq!(lengths(1), (4, 256));
    assert_eq!(lengths(63), (252, 256));
    assert_eq!(lengths(64), (256, 256));
    assert_eq!(lengths(65), (260, 512));
    assert_eq!(lengths(1920), (7680, 7680));
    assert_eq!(lengths(1366), (5464, 5632));
}

#[test]
fn padded_rows_meet_the_alignment_of_wgpu() {
    for width in 0..2000 {
        let (unpadded, padded) = lengths(width);
        assert_eq!(unpadded, 4 * width);
        assert_eq!(padded % wgpu::COPY_BYTES_PER_ROW_ALIGNMENT, 0);
        assert!(unpadded <= padded);
        assert!(padded < unpadded + wgpu::COPY_BYTES_PER_ROW_ALIGNMENT);
    }
}

#[test]
fn the_longest_row_that_can_be_counted() {
    assert_eq!(lengths(0x3fff_ffc0), (0xffff_ff00, 0xffff_ff00));
    assert!(BufferPadding::fits(0x3fff_ffc0, 1));
    assert!(!BufferPadding::fits(0x3fff_ffc0, 2));
    assert!(!BufferPadding::fits(0x3fff_ffc1, 1));
    assert!(!BufferPadding::fits(0x3fff_ffc1, 0));
    assert!(!BufferPadding::fits(u32::MAX, u32::MAX));
}

#[test]
fn the_highest_texture_that_can_be_counted() {
    assert!(BufferPadding::fits(1, 0x00ff_ffff));
    assert!(!BufferPadding::fits(1, 0x0100_0000));
    assert!(BufferPadding::fits(0, u32::MAX));
    assert!(BufferPadding::fits(1920, 1080));
}

#[test]
fn padding_is_removed_from_every_row() {
    let padding = BufferPadding { unpadded_bytes_per_row: 3, padded_bytes_per_row: 5 };
    let bytes: Vec<u8> = (0..15).collect();
    assert_eq!(padding.remove(&bytes), vec![0, 1, 2, 5, 6, 7, 10, 11, 12]);
}

#[test]
fn the_last_row_may_lack_padding() {
    let padding = BufferPadding { unpadded_bytes_per_row: 3, padded_bytes_per_row: 5 };
    let bytes: Vec<u8> = (0..13).collect();
    assert_eq!(padding.remove(&bytes), vec![0, 1, 2, 5, 6, 7, 10, 11, 12]);
    let bytes: Vec<u8> = (0..14).collect();
    assert_eq!(padding.remove(&bytes), vec![0, 1, 2, 5, 6, 7, 10, 11, 12]);
}

#[test]
fn rows_without_padding_are_kept_whole() {
    let padding = BufferPadding::new(64);
    let bytes: Vec<u8> = (0..1024).map(|i| (i % 251) as u8).collect();
    assert_eq!(padding.remove(&bytes), bytes);
}

#[test]
fn no_bytes_have_no_rows() {
    assert_eq!(BufferPadding::new(7).remove(&[]), Vec::<u8>::new());
}

#[test]
fn a_pixel_is_found_at_its_place() {
    let (width, height) = (70usize, 3usize);
    let padding = BufferPadding::new(width as u32);
    let padded = padding.padded_bytes_per_row as usize;
    let bytes: Vec<u8> = (0..padded * height).map(|i| (i * 7 % 253) as u8).collect();
    let pixels = padding.remove(&bytes);
    assert_eq!(pixels.len(), 4 * width * height);
    for y in 0..height {
        for x in 0..width {
            for c in 0..4 {
                assert_eq!(pixels[(y * width + x) * 4 + c], bytes[y * padded + 4 * x + c]);
            }
        }
    }
}

#[test]
fn removing_the_padding_gives_back_the_pixels() {
    let (width, height) = (5usize, 4usize);
    let pixels: Vec<u8> = (0..4 * width * height).map(|i| i as u8).collect();
    let padding = BufferPadding::new(width as u32);
    let mut bytes = Vec::new();
    for row in pixels.chunks(4 * width) {
        bytes.extend_from_slice(row);
        bytes.resize(bytes.len() + 256 - 4 * width, 0xee);
    }
    assert_eq!(padding.remove(&bytes), pixels);
}
