//! One selection→publish→archive cycle as a state machine: the caller
//! performs the outside work of each state and feeds the outcome back;
//! the machine decides what follows. Archiving is reachable only after
//! a confirmed successful post, so a failed attempt leaves the pool as
//! it was and the candidate selectable on the next trigger.

use vstd::prelude::*;
use crate::images::Image;

verus! {

/// How a finished run ended. `NoCandidate` is a normal outcome, not a
/// failure; `Published` records whether the archive move also went
/// through (a failed move is logged, never reversed).
#[derive(Clone, Copy, Debug, PartialEq, Eq, Structural)]
pub enum RunOutcome {
    NoCandidate,
    UploadFailed,
    PostFailed,
    Published { archived: bool },
}

/// Where one run stands. Each non-terminal state names the outside work
/// the caller owes next: scan and select, read and upload, create the
/// post, or perform the archive moves.
#[derive(Clone, Debug)]
pub enum RunState {
    Selecting,
    Uploading { image: Image },
    Posting { image: Image, caption: String },
    Archiving { image: Image },
    Done { outcome: RunOutcome },
}

/// The result of the outside work one state asked for.
#[derive(Clone, Debug)]
pub enum RunEvent {
    Selected { image: Option<Image> },
    Uploaded { ok: bool },
    Posted { ok: bool },
    Archived { ok: bool },
}

/// The caption of a post: the fixed topical tags, followed for an
/// attributed candidate by a credit line naming the attribution.
pub open spec fn caption_text(credit: Option<String>) -> Seq<char> {
    match credit {
        Some(c) => "#azumanga #azumangadaioh\n\nCredit: "@ + c@,
        None => "#azumanga #azumangadaioh"@,
    }
}

/// Builds the caption for a candidate with the given attribution.
pub fn compose_caption(credit: &Option<String>) -> (r: String)
    ensures
        r@ == caption_text(*credit),
{
    match credit {
        Some(c) => {
            let mut s = String::from_str("#azumanga #azumangadaioh\n\nCredit: ");
            s.append(c.as_str());
            s
        },
        None => String::from_str("#azumanga #azumangadaioh"),
    }
}

/// The event kind that fits each state: what the caller's outside work
/// for that state reports. No event fits `Done`.
pub open spec fn expects(s: RunState, e: RunEvent) -> bool {
    match (s, e) {
        (RunState::Selecting, RunEvent::Selected { .. }) => true,
        (RunState::Uploading { .. }, RunEvent::Uploaded { .. }) => true,
        (RunState::Posting { .. }, RunEvent::Posted { .. }) => true,
        (RunState::Archiving { .. }, RunEvent::Archived { .. }) => true,
        _ => false,
    }
}

/// The transition relation of the run: `post` is what follows `pre` on
/// event `e`.
pub open spec fn transition_ok(pre: RunState, e: RunEvent, post: RunState) -> bool {
    match (pre, e) {
        (RunState::Selecting, RunEvent::Selected { image: None }) => post == (RunState::Done {
            outcome: RunOutcome::NoCandidate,
        }),
        (RunState::Selecting, RunEvent::Selected { image: Some(img) }) => post
            == (RunState::Uploading { image: img }),
        (RunState::Uploading { image: _ }, RunEvent::Uploaded { ok: false }) => post
            == (RunState::Done { outcome: RunOutcome::UploadFailed }),
        (RunState::Uploading { image }, RunEvent::Uploaded { ok: true }) => post matches
            RunState::Posting { image: i2, caption } && i2 == image && caption@ == caption_text(
            image.credit,
        ),
        (RunState::Posting { image: _, caption: _ }, RunEvent::Posted { ok: false }) => post
            == (RunState::Done { outcome: RunOutcome::PostFailed }),
        (RunState::Posting { image, caption: _ }, RunEvent::Posted { ok: true }) => post
            == (RunState::Archiving { image }),
        (RunState::Archiving { image: _ }, RunEvent::Archived { ok }) => post == (RunState::Done {
            outcome: RunOutcome::Published { archived: ok },
        }),
        _ => false,
    }
}

impl RunState {
    /// Advances the run by one decision, consuming the outcome of the
    /// outside work the current state asked for.
    pub fn step(self, e: RunEvent) -> (r: RunState)
        requires
            expects(self, e),
        ensures
            transition_ok(self, e, r),
    {
        match (self, e) {
            (RunState::Selecting, RunEvent::Selected { image }) => match image {
                None => RunState::Done { outcome: RunOutcome::NoCandidate },
                Some(img) => RunState::Uploading { image: img },
            },
            (RunState::Uploading { image }, RunEvent::Uploaded { ok }) => {
                if ok {
                    let caption = compose_caption(&image.credit);
                    RunState::Posting { image, caption }
                } else {
                    RunState::Done { outcome: RunOutcome::UploadFailed }
                }
            },
            (RunState::Posting { image, caption: _ }, RunEvent::Posted { ok }) => {
                if ok {
                    RunState::Archiving { image }
                } else {
                    RunState::Done { outcome: RunOutcome::PostFailed }
                }
            },
            (RunState::Archiving { image: _ }, RunEvent::Archived { ok }) => RunState::Done {
                outcome: RunOutcome::Published { archived: ok },
            },
            _ => {
                proof {
                    assert(false);
                }
                RunState::Done { outcome: RunOutcome::NoCandidate }
            },
        }
    }
}

/// Law: `Done` is terminal; no event fits it, so a finished run stays
/// finished.
pub proof fn done_is_terminal(outcome: RunOutcome, e: RunEvent)
    ensures
        !expects(RunState::Done { outcome }, e),
{
}

/// Law: the machine reaches `Archiving` — the only state whose outside
/// work mutates the pool — solely from `Posting` on a success report.
/// A run whose upload or post fails therefore never asks for an archive
/// move, and the candidate stays in the source root, selectable again.
pub proof fn archive_only_after_posted(pre: RunState, e: RunEvent, post: RunState)
    requires
        transition_ok(pre, e, post),
        post matches RunState::Archiving { .. },
    ensures
        pre matches RunState::Posting { .. },
        e == (RunEvent::Posted { ok: true }),
{
}

/// Law: a failed upload or a failed post ends the run at once with the
/// matching outcome; no later state follows in that run.
pub proof fn failure_ends_run(pre: RunState, e: RunEvent, post: RunState)
    requires
        transition_ok(pre, e, post),
        (e matches RunEvent::Uploaded { ok: false }) || (e matches RunEvent::Posted { ok: false }),
    ensures
        post matches RunState::Done { outcome } && (outcome == RunOutcome::UploadFailed || outcome
            == RunOutcome::PostFailed),
{
}

/// Law: a run over an empty pool is a no-op. Its first event finishes
/// it with the normal `NoCandidate` outcome, so no uploading, posting
/// or archiving state — and with them no publish call and no pool
/// mutation — is ever reached.
pub proof fn empty_pool_run_is_noop(e: RunEvent, post: RunState)
    requires
        transition_ok(RunState::Selecting, e, post),
        e matches RunEvent::Selected { image: None },
    ensures
        post == (RunState::Done { outcome: RunOutcome::NoCandidate }),
{
}

} // verus!
