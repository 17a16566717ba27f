//! What painting one frame consists of, and in what order.

use vstd::prelude::*;

verus! {

/// One step of painting a frame.
#[derive(Clone, Copy, Debug, PartialEq, Eq)]
pub enum FrameStep {
    /// Create the command encoder that the frame is recorded with.
    CreateEncoder,
    /// Upload the texture at this place in the list of those that have changed.
    UpdateTexture(usize),
    /// Upload the meshes. This may give rise to further commands.
    UpdateBuffers,
    /// Clear the frame and draw the meshes.
    Render,
    /// Free the texture at this place in the list of those that are no longer needed.
    FreeTexture(usize),
    /// Finish the encoder and submit all commands in the order of [`submission_order`].
    Submit,
    /// Read the frame back.
    Capture,
    /// Put the frame on the screen.
    Present,
}

/// The steps of a frame for which `set` textures have changed and `free` are no longer needed.
pub open spec fn frame_steps(set: nat, free: nat, capture: bool) -> Seq<FrameStep> {
    seq![FrameStep::CreateEncoder]
        + Seq::new(set, |i: int| FrameStep::UpdateTexture(i as usize))
        + seq![FrameStep::UpdateBuffers, FrameStep::Render]
        + Seq::new(free, |i: int| FrameStep::FreeTexture(i as usize))
        + seq![FrameStep::Submit]
        + (if capture { seq![FrameStep::Capture] } else { seq![] })
        + seq![FrameStep::Present]
}

/// How one frame is painted.
#[derive(Debug, PartialEq, Eq)]
pub struct FramePlan {
    /// The size of the surface in pixels.
    pub width: u32,
    pub height: u32,
    /// Whether the render pass has a depth attachment.
    pub depth_attachment: bool,
    /// What is done, from first to last.
    pub steps: Vec<FrameStep>,
}

impl FramePlan {
    /// The plan of a frame on a surface of this size.
    pub fn new(
        width: u32,
        height: u32,
        depth_attachment: bool,
        set: usize,
        free: usize,
        capture: bool,
    ) -> (plan: Self)
        ensures
            plan.width == width,
            plan.height == height,
            plan.depth_attachment == depth_attachment,
            plan.steps@ == frame_steps(set as nat, free as nat, capture),
    {
        let mut steps: Vec<FrameStep> = Vec::new();
        steps.push(FrameStep::CreateEncoder);
        let mut i: usize = 0;
        while i < set
            invariant
                i <= set,
                steps@ == seq![FrameStep::CreateEncoder] + Seq::new(
                    i as nat,
                    |k: int| FrameStep::UpdateTexture(k as usize),
                ),
            decreases set - i,
        {
            steps.push(FrameStep::UpdateTexture(i));
            i = i + 1;
        }
        steps.push(FrameStep::UpdateBuffers);
        steps.push(FrameStep::Render);
        let ghost drawn = steps@;
        let mut j: usize = 0;
        while j < free
            invariant
                j <= free,
                steps@ == drawn + Seq::new(
                    j as nat,
                    |k: int| FrameStep::FreeTexture(k as usize),
                ),
            decreases free - j,
        {
            steps.push(FrameStep::FreeTexture(j));
            j = j + 1;
        }
        steps.push(FrameStep::Submit);
        if capture {
            steps.push(FrameStep::Capture);
        }
        steps.push(FrameStep::Present);
        assert(steps@ =~= frame_steps(set as nat, free as nat, capture));
        FramePlan { width, height, depth_attachment, steps }
    }
}

/// All commands of a frame in the order in which they are submitted: those that arose from
/// uploading the meshes, as they are, and then those of the frame itself.
pub fn submission_order<C>(user: Vec<C>, frame: C) -> (commands: Vec<C>)
    ensures
        commands@ == user@.push(frame),
{
    let mut commands: Vec<C> = user;
    commands.push(frame);
    commands
}

/// The bytes that were captured if the plan has a capture in it, and nothing otherwise.
pub open spec fn frame_outcome(plan: FramePlan, captured: Option<Vec<u8>>) -> Option<Vec<u8>> {
    if plan.steps@.contains(FrameStep::Capture) {
        captured
    } else {
        None
    }
}

/// What painting a frame comes to.
pub fn frame_result(plan: &FramePlan, captured: Option<Vec<u8>>) -> (out: Option<Vec<u8>>)
    ensures
        out == frame_outcome(*plan, captured),
{
    let mut i: usize = 0;
    while i < plan.steps.len()
        invariant
            i <= plan.steps@.len(),
            forall|k: int| 0 <= k < i ==> plan.steps@[k] != FrameStep::Capture,
        decreases plan.steps@.len() - i,
    {
        if matches!(plan.steps[i], FrameStep::Capture) {
            return captured;
        }
        i = i + 1;
    }
    None
}

/// A frame comes to the bytes that were captured if a capture was wanted, and to nothing otherwise.
pub proof fn law_frame_result(
    plan: FramePlan,
    set: usize,
    free: usize,
    capture: bool,
    captured: Option<Vec<u8>>,
)
    requires
        plan.steps@ == frame_steps(set as nat, free as nat, capture),
    ensures
        frame_outcome(plan, captured) == if capture { captured } else { None },
{
    law_frame_order(set, free, capture);
}

/// What a plan comes to depends on nothing but whether there is a capture among its steps.
pub proof fn law_frame_outcome(plan: FramePlan, captured: Option<Vec<u8>>, k: int)
    ensures
        0 <= k < plan.steps@.len() && plan.steps@[k] is Capture ==> frame_outcome(plan, captured)
            == captured,
        (forall|j: int| 0 <= j < plan.steps@.len() ==> !(#[trigger] plan.steps@[j] is Capture))
            ==> frame_outcome(plan, captured) is None,
{
}

/// Where each step of a frame stands: the encoder is created, the textures are uploaded in the order
/// of their list, the meshes are uploaded, the frame is drawn, the textures are freed in the order of
/// their list, the commands are submitted, the frame is captured if that is wanted, and presented.
/// There are no other steps.
pub proof fn law_frame_positions(set: usize, free: usize, capture: bool, t: usize)
    ensures
        ({
            let steps = frame_steps(set as nat, free as nat, capture);
            let end = set + free + 3;
            &&& steps.len() == end + if capture { 3int } else { 2int }
            &&& steps[0] == FrameStep::CreateEncoder
            &&& t < set ==> steps[1 + t as int] == FrameStep::UpdateTexture(t)
            &&& steps[set + 1] == FrameStep::UpdateBuffers
            &&& steps[set + 2] == FrameStep::Render
            &&& t < free ==> steps[set + 3 + t as int] == FrameStep::FreeTexture(t)
            &&& steps[end] == FrameStep::Submit
            &&& capture ==> steps[end + 1] == FrameStep::Capture
            &&& steps.last() == FrameStep::Present
        }),
{
}

/// Every step of a frame is taken once. A texture is uploaded before anything is drawn, and freed
/// after everything was drawn but before the commands are submitted. Commands are submitted only
/// after everything was drawn, whether or not a texture is freed. A capture comes after the
/// commands were submitted and before the frame is presented, which is the last step of all.
pub proof fn law_frame_order(set: usize, free: usize, capture: bool)
    ensures
        ({
            let steps = frame_steps(set as nat, free as nat, capture);
            &&& steps.no_duplicates()
            &&& steps.first() == FrameStep::CreateEncoder
            &&& steps.last() == FrameStep::Present
            &&& steps.contains(FrameStep::UpdateBuffers)
            &&& steps.contains(FrameStep::Render)
            &&& steps.contains(FrameStep::Submit)
            &&& steps.contains(FrameStep::Capture) == capture
            &&& forall|t: usize| #[trigger]
                steps.contains(FrameStep::UpdateTexture(t)) <==> t < set
            &&& forall|t: usize| #[trigger] steps.contains(FrameStep::FreeTexture(t)) <==> t < free
            &&& forall|p: int, q: int|
                0 <= p < steps.len() && 0 <= q < steps.len() && (#[trigger] steps[p]) is UpdateTexture
                    && (#[trigger] steps[q]) is UpdateBuffers ==> p < q
            &&& forall|p: int, q: int|
                0 <= p < steps.len() && 0 <= q < steps.len() && (#[trigger] steps[p])
                    is UpdateBuffers && (#[trigger] steps[q]) is Render ==> p < q
            &&& forall|p: int, q: int|
                0 <= p < steps.len() && 0 <= q < steps.len() && (#[trigger] steps[p]) is Render && (
                #[trigger] steps[q]) is FreeTexture ==> p < q
            &&& forall|p: int, q: int|
                0 <= p < steps.len() && 0 <= q < steps.len() && (#[trigger] steps[p]) is Render && (
                #[trigger] steps[q]) is Submit ==> p < q
            &&& forall|p: int, q: int|
                0 <= p < steps.len() && 0 <= q < steps.len() && (#[trigger] steps[p]) is FreeTexture
                    && (#[trigger] steps[q]) is Submit ==> p < q
            &&& forall|p: int, q: int|
                0 <= p < steps.len() && 0 <= q < steps.len() && (#[trigger] steps[p]) is Submit && (
                #[trigger] steps[q]) is Capture ==> p < q
        }),
{
    let steps = frame_steps(set as nat, free as nat, capture);
    let end = set + free;
    assert(steps[set + 1] == FrameStep::UpdateBuffers);
    assert(steps[set + 2] == FrameStep::Render);
    assert(steps[end + 3] == FrameStep::Submit);
    if capture {
        assert(steps[end + 4] == FrameStep::Capture);
    }
    assert forall|t: usize| #[trigger]
        steps.contains(FrameStep::UpdateTexture(t)) <==> t < set by {
        if t < set {
            assert(steps[1 + t as int] == FrameStep::UpdateTexture(t));
        }
    }
    assert forall|t: usize| #[trigger]
        steps.contains(FrameStep::FreeTexture(t)) <==> t < free by {
        if t < free {
            assert(steps[set + 3 + t as int] == FrameStep::FreeTexture(t));
        }
    }
}

} // verus!
