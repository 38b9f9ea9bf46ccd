use vstd::prelude::*;

verus! {

/// Where a window capture stands in its ordered chain of techniques.
#[derive(Debug, Clone, Copy, PartialEq, Eq, Structural)]
pub enum CaptureStep {
    /// Ask the window to render itself with the full-content flag.
    RenderFullContent,
    /// Ask whether desktop composition is active.
    QueryComposition,
    /// Ask the window to render itself as a composited window.
    RenderComposited,
    /// Ask the window to render only its own content.
    RenderOwnContent,
    /// Copy the window's pixels from the screen.
    ScreenCopy,
    /// A technique filled the surface.
    Captured,
    /// Every technique failed.
    Exhausted,
}

/// The OS major version from which the full-content render request is tried.
pub const FULL_CONTENT_MIN_OS_MAJOR: u32 = 8;

/// Render-request flag for a full-content render.
pub const RENDER_FULL_CONTENT_FLAG: u32 = 2;
/// Render-request flag for a plain render of a composited window.
pub const RENDER_COMPOSITED_FLAG: u32 = 0;
/// Render-request flag for a render of the window's own content.
pub const RENDER_OWN_CONTENT_FLAG: u32 = 4;

pub open spec fn first_step_spec(os_major: u32) -> CaptureStep {
    if os_major >= FULL_CONTENT_MIN_OS_MAJOR {
        CaptureStep::RenderFullContent
    } else {
        CaptureStep::QueryComposition
    }
}

/// The step after `step` when it succeeded (`ok`) or failed; for the
/// composition query, `ok` means that composition is active.
pub open spec fn next_step_spec(step: CaptureStep, ok: bool) -> CaptureStep {
    match step {
        CaptureStep::RenderFullContent => if ok {
            CaptureStep::Captured
        } else {
            CaptureStep::QueryComposition
        },
        CaptureStep::QueryComposition => if ok {
            CaptureStep::RenderComposited
        } else {
            CaptureStep::RenderOwnContent
        },
        CaptureStep::RenderComposited => if ok {
            CaptureStep::Captured
        } else {
            CaptureStep::RenderOwnContent
        },
        CaptureStep::RenderOwnContent => if ok {
            CaptureStep::Captured
        } else {
            CaptureStep::ScreenCopy
        },
        CaptureStep::ScreenCopy => if ok {
            CaptureStep::Captured
        } else {
            CaptureStep::Exhausted
        },
        CaptureStep::Captured => CaptureStep::Captured,
        CaptureStep::Exhausted => CaptureStep::Exhausted,
    }
}

/// The chain has ended, in success or in failure.
pub open spec fn is_final(step: CaptureStep) -> bool {
    step == CaptureStep::Captured || step == CaptureStep::Exhausted
}

/// The step tries to fill the surface (every step but the query and the two ends).
pub open spec fn is_technique(step: CaptureStep) -> bool {
    !is_final(step) && step != CaptureStep::QueryComposition
}

/// The position of a step in the chain.
pub open spec fn rank(step: CaptureStep) -> nat {
    match step {
        CaptureStep::RenderFullContent => 0,
        CaptureStep::QueryComposition => 1,
        CaptureStep::RenderComposited => 2,
        CaptureStep::RenderOwnContent => 3,
        CaptureStep::ScreenCopy => 4,
        CaptureStep::Captured => 5,
        CaptureStep::Exhausted => 5,
    }
}

/// The render-request flag of a render step, `None` for the other steps.
pub open spec fn render_flag_spec(step: CaptureStep) -> Option<u32> {
    match step {
        CaptureStep::RenderFullContent => Some(RENDER_FULL_CONTENT_FLAG),
        CaptureStep::RenderComposited => Some(RENDER_COMPOSITED_FLAG),
        CaptureStep::RenderOwnContent => Some(RENDER_OWN_CONTENT_FLAG),
        _ => None,
    }
}

/// The step a capture starts with on an OS of major version `os_major`.
pub fn first_step(os_major: u32) -> (r: CaptureStep)
    ensures
        r == first_step_spec(os_major),
{
    if os_major >= FULL_CONTENT_MIN_OS_MAJOR {
        CaptureStep::RenderFullContent
    } else {
        CaptureStep::QueryComposition
    }
}

/// The step that follows `step` given its outcome.
pub fn next_step(step: CaptureStep, ok: bool) -> (r: CaptureStep)
    ensures
        r == next_step_spec(step, ok),
        is_technique(step) && ok ==> r == CaptureStep::Captured,
        !is_final(step) ==> rank(r) > rank(step),
{
    match step {
        CaptureStep::RenderFullContent => if ok {
            CaptureStep::Captured
        } else {
            CaptureStep::QueryComposition
        },
        CaptureStep::QueryComposition => if ok {
            CaptureStep::RenderComposited
        } else {
            CaptureStep::RenderOwnContent
        },
        CaptureStep::RenderComposited => if ok {
            CaptureStep::Captured
        } else {
            CaptureStep::RenderOwnContent
        },
        CaptureStep::RenderOwnContent => if ok {
            CaptureStep::Captured
        } else {
            CaptureStep::ScreenCopy
        },
        CaptureStep::ScreenCopy => if ok {
            CaptureStep::Captured
        } else {
            CaptureStep::Exhausted
        },
        CaptureStep::Captured => CaptureStep::Captured,
        CaptureStep::Exhausted => CaptureStep::Exhausted,
    }
}

/// The render-request flag to use at `step`, if it is a render step.
pub fn render_flag(step: CaptureStep) -> (r: Option<u32>)
    ensures
        r == render_flag_spec(step),
{
    match step {
        CaptureStep::RenderFullContent => Some(RENDER_FULL_CONTENT_FLAG),
        CaptureStep::RenderComposited => Some(RENDER_COMPOSITED_FLAG),
        CaptureStep::RenderOwnContent => Some(RENDER_OWN_CONTENT_FLAG),
        _ => None,
    }
}

/// The step reached from `step` after `n` steps when every technique fails
/// and the composition query answers `composited`.
pub open spec fn after_failures(step: CaptureStep, composited: bool, n: nat) -> CaptureStep
    decreases n,
{
    if n == 0 {
        step
    } else {
        let ok = step == CaptureStep::QueryComposition && composited;
        after_failures(next_step_spec(step, ok), composited, (n - 1) as nat)
    }
}

/// When every technique fails, the chain ends in `Exhausted` after at most
/// five steps, whatever the OS version and the composition state.
pub proof fn lemma_all_failures_exhaust(os_major: u32, composited: bool)
    ensures
        after_failures(first_step_spec(os_major), composited, 5) == CaptureStep::Exhausted,
{
    reveal_with_fuel(after_failures, 6);
}

/// Every step before the end moves forward in the chain, so a capture tries
/// each technique at most once and stops.
pub proof fn lemma_chain_advances(step: CaptureStep, ok: bool)
    ensures
        !is_final(step) ==> rank(next_step_spec(step, ok)) > rank(step),
        is_final(step) ==> next_step_spec(step, ok) == step,
{
}

} // verus!
