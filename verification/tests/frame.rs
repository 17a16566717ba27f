use egui_wgpu::frame::{frame_result, submission_order, FramePlan, FrameStep};

#[test]
fn a_frame_uploads_draws_frees_submits_and_presents() {
    let plan = FramePlan::new(640, 480, true, 2, 1, false);
    assert_eq!((plan.width, plan.height), (640, 480));
    assert!(plan.depth_attachment);
    assert_eq!(
        plan.steps,
        vec![
            FrameStep::CreateEncoder,
            FrameStep::UpdateTexture(0),
            FrameStep::UpdateTexture(1),
            FrameStep::UpdateBuffers,
            FrameStep::Render,
            FrameStep::FreeTexture(0),
            FrameStep::Submit,
            FrameStep::Present,
        ]
    );
}

#[test]
fn a_captured_frame_is_read_before_it_is_presented() {
    let plan = FramePlan::new(1, 1, false, 0, 0, true);
    assert!(!plan.depth_attachment);
    assert_eq!(
        plan.steps,
        vec![
            FrameStep::CreateEncoder,
            FrameStep::UpdateBuffers,
            FrameStep::Render,
            FrameStep::Submit,
            FrameStep::Capture,
            FrameStep::Present,
        ]
    );
}

#[test]
fn no_step_is_taken_twice() {
    let steps = FramePlan::new(1, 1, false, 5, 7, true).steps;
    assert_eq!(steps.len(), 5 + 7 + 6);
    for (i, step) in steps.iter().enumerate() {
        assert!(!steps[..i].contains(step));
    }
}

#[test]
fn commands_of_the_frame_are_submitted_last() {
    assert_eq!(submission_order(vec!["a", "b"], "frame"), vec!["a", "b", "frame"]);
    assert_eq!(submission_order(Vec::new(), "frame"), vec!["frame"]);
}

#[test]
fn only_a_plan_with_a_capture_has_a_result() {
    let captured = FramePlan::new(1, 1, false, 3, 2, true);
    assert_eq!(frame_result(&captured, Some(vec![7])), Some(vec![7]));
    assert_eq!(frame_result(&captured, None), None);
    let plain = FramePlan::new(1, 1, false, 3, 2, false);
    assert_eq!(frame_result(&plain, Some(vec![7])), None);
}
