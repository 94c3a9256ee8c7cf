//! The per-frame call sequence. Each loop iteration that reaches the
//! renderer waits for display timing, learns whether this frame should be
//! rendered at all, and then performs a fixed sequence of runtime and GPU
//! calls. The sequence is planned here; the driver only dispatches it.

use vstd::prelude::*;

verus! {

/// One runtime or GPU call of the per-frame sequence, after the wait for
/// display timing has returned.
#[derive(Clone, Copy, PartialEq, Eq, Structural, Debug)]
pub enum FrameAction {
    /// Mark frame begin with the runtime; must precede any GPU work.
    BeginFrame,
    /// Ask the runtime which swapchain image to render into.
    AcquireImage,
    /// Refresh the controller pose snapshot.
    SyncActions,
    /// Query head and eye poses for the predicted display time.
    LocateViews,
    /// Build the two view-projection matrices and upload them.
    WriteUniforms,
    /// Block until the compositor is done reading the acquired image.
    WaitImage,
    /// Submit the recorded command buffer to the GPU queue.
    Submit,
    /// Hand the acquired image back to the runtime.
    ReleaseImage,
    /// Submit frame end, with the composited layer or empty.
    EndFrame,
}

/// The calls one frame makes, in order, given the should-render flag the
/// wait for display timing returned. A frame that should not be rendered
/// acquires no image and submits nothing, but still pairs its frame begin
/// with an (empty) frame end.
pub open spec fn frame_plan(should_render: bool) -> Seq<FrameAction> {
    if should_render {
        seq![
            FrameAction::BeginFrame,
            FrameAction::AcquireImage,
            FrameAction::SyncActions,
            FrameAction::LocateViews,
            FrameAction::WriteUniforms,
            FrameAction::WaitImage,
            FrameAction::Submit,
            FrameAction::ReleaseImage,
            FrameAction::EndFrame,
        ]
    } else {
        seq![FrameAction::BeginFrame, FrameAction::EndFrame]
    }
}

/// How many times `action` occurs in `s`.
pub open spec fn action_count(s: Seq<FrameAction>, action: FrameAction) -> nat
    decreases s.len(),
{
    if s.len() == 0 {
        0
    } else {
        action_count(s.drop_last(), action) + if s.last() == action {
            1nat
        } else {
            0nat
        }
    }
}

/// Occurrence counts distribute over concatenation.
pub proof fn lemma_action_count_concat(s1: Seq<FrameAction>, s2: Seq<FrameAction>, action: FrameAction)
    ensures
        action_count(s1 + s2, action) == action_count(s1, action) + action_count(s2, action),
    decreases s2.len(),
{
    if s2.len() == 0 {
        assert(s1 + s2 =~= s1);
    } else {
        assert((s1 + s2).drop_last() =~= s1 + s2.drop_last());
        assert((s1 + s2).last() == s2.last());
        lemma_action_count_concat(s1, s2.drop_last(), action);
    }
}

/// A frame that should not be rendered acquires no swapchain image and
/// submits no command buffer, yet frame begin and frame end are still
/// issued exactly once each; a rendered frame acquires, submits and
/// releases exactly once. Begin and end pair one to one either way.
pub proof fn lemma_frame_plan_counts(should_render: bool)
    ensures
        action_count(frame_plan(should_render), FrameAction::BeginFrame) == 1,
        action_count(frame_plan(should_render), FrameAction::EndFrame) == 1,
        action_count(frame_plan(should_render), FrameAction::AcquireImage)
            == if should_render { 1nat } else { 0nat },
        action_count(frame_plan(should_render), FrameAction::Submit)
            == if should_render { 1nat } else { 0nat },
        action_count(frame_plan(should_render), FrameAction::ReleaseImage)
            == if should_render { 1nat } else { 0nat },
{
    reveal_with_fuel(action_count, 11);
}

/// The actions of a run of consecutive frames, one plan per frame, given
/// each frame's should-render flag.
pub open spec fn frames_log(flags: Seq<bool>) -> Seq<FrameAction>
    decreases flags.len(),
{
    if flags.len() == 0 {
        Seq::empty()
    } else {
        frames_log(flags.drop_last()) + frame_plan(flags.last())
    }
}

/// How many frames of a run carry a true should-render flag.
pub open spec fn count_rendered(flags: Seq<bool>) -> nat
    decreases flags.len(),
{
    if flags.len() == 0 {
        0
    } else {
        count_rendered(flags.drop_last()) + if flags.last() {
            1nat
        } else {
            0nat
        }
    }
}

/// Over any run of frames, frame begins and frame ends both come once per
/// frame, and images are acquired, submitted and released exactly once per
/// frame whose should-render flag was true.
pub proof fn lemma_frames_log_counts(flags: Seq<bool>)
    ensures
        action_count(frames_log(flags), FrameAction::BeginFrame) == flags.len(),
        action_count(frames_log(flags), FrameAction::EndFrame) == flags.len(),
        action_count(frames_log(flags), FrameAction::AcquireImage) == count_rendered(flags),
        action_count(frames_log(flags), FrameAction::Submit) == count_rendered(flags),
        action_count(frames_log(flags), FrameAction::ReleaseImage) == count_rendered(flags),
    decreases flags.len(),
{
    if flags.len() == 0 {
    } else {
        lemma_frames_log_counts(flags.drop_last());
        lemma_frame_plan_counts(flags.last());
        lemma_action_count_concat(
            frames_log(flags.drop_last()),
            frame_plan(flags.last()),
            FrameAction::BeginFrame,
        );
        lemma_action_count_concat(
            frames_log(flags.drop_last()),
            frame_plan(flags.last()),
            FrameAction::EndFrame,
        );
        lemma_action_count_concat(
            frames_log(flags.drop_last()),
            frame_plan(flags.last()),
            FrameAction::AcquireImage,
        );
        lemma_action_count_concat(
            frames_log(flags.drop_last()),
            frame_plan(flags.last()),
            FrameAction::Submit,
        );
        lemma_action_count_concat(
            frames_log(flags.drop_last()),
            frame_plan(flags.last()),
            FrameAction::ReleaseImage,
        );
    }
}

/// Plans one frame: the exact sequence of calls the driver must make for
/// the given should-render flag.
pub fn frame_actions(should_render: bool) -> (plan: Vec<FrameAction>)
    ensures
        plan@ == frame_plan(should_render),
{
    if should_render {
        let plan = vec![
            FrameAction::BeginFrame,
            FrameAction::AcquireImage,
            FrameAction::SyncActions,
            FrameAction::LocateViews,
            FrameAction::WriteUniforms,
            FrameAction::WaitImage,
            FrameAction::Submit,
            FrameAction::ReleaseImage,
            FrameAction::EndFrame,
        ];
        assert(plan@ =~= frame_plan(true));
        plan
    } else {
        let plan = vec![FrameAction::BeginFrame, FrameAction::EndFrame];
        assert(plan@ =~= frame_plan(false));
        plan
    }
}

/// Counts how often `action` occurs in `plan`.
pub fn count_action(plan: &Vec<FrameAction>, action: FrameAction) -> (n: usize)
    ensures
        n == action_count(plan@, action),
{
    let mut n: usize = 0;
    let mut i: usize = 0;
    while i < plan.len()
        invariant
            i <= plan@.len(),
            n <= i,
            n == action_count(plan@.take(i as int), action),
        decreases plan@.len() - i,
    {
        assert(plan@.take(i as int + 1).drop_last() =~= plan@.take(i as int));
        assert(plan@.take(i as int + 1).last() == plan@[i as int]);
        if plan[i] == action {
            n = n + 1;
        }
        i = i + 1;
    }
    assert(plan@.take(plan@.len() as int) =~= plan@);
    n
}

/// Simulates a run of consecutive frames, returning every call the run
/// makes, in order.
pub fn run_frames(flags: &Vec<bool>) -> (log: Vec<FrameAction>)
    ensures
        log@ == frames_log(flags@),
{
    let mut log: Vec<FrameAction> = Vec::new();
    let mut i: usize = 0;
    while i < flags.len()
        invariant
            i <= flags@.len(),
            log@ == frames_log(flags@.take(i as int)),
        decreases flags@.len() - i,
    {
        let mut plan = frame_actions(flags[i]);
        log.append(&mut plan);
        assert(flags@.take(i as int + 1).drop_last() =~= flags@.take(i as int));
        assert(flags@.take(i as int + 1).last() == flags@[i as int]);
        i = i + 1;
    }
    assert(flags@.take(flags@.len() as int) =~= flags@);
    log
}

} // verus!
