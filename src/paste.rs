use vstd::prelude::*;
use crate::inject::{
    InjectKey, InjectionError, InputAction, InputSession, KeyDirection, calls_since,
    connected_by, follows_plan, reports,
};

verus! {

/// Milliseconds to wait before injecting, so that the window that had focus
/// before the overlay gets it back.
pub const SETTLE_DELAY_MS: u64 = 500;

/// Milliseconds to wait between two key events of the paste combination.
pub const KEY_GAP_MS: u64 = 100;

/// The paste in order: settle, acquire a handle, Control down, `v` click,
/// Control up, with a short gap between the key events.
pub open spec fn paste_plan() -> Seq<InputAction> {
    seq![
        InputAction::Wait(SETTLE_DELAY_MS),
        InputAction::Connect,
        InputAction::Key(InjectKey::Control, KeyDirection::Press),
        InputAction::Wait(KEY_GAP_MS),
        InputAction::Key(InjectKey::Letter('v'), KeyDirection::Click),
        InputAction::Wait(KEY_GAP_MS),
        InputAction::Key(InjectKey::Control, KeyDirection::Release),
    ]
}

/// Pastes the clipboard into the window that holds focus: carries out the
/// paste plan through `session`, calling `wait` for each pause, and stops at
/// the first call that fails, with no rollback. The result is `Ok` when every
/// call succeeded, else the error of the failing call.
pub fn simulate_paste<F: Fn(u64)>(session: &mut InputSession, wait: &F) -> (r: Result<(), InjectionError>)
    requires
        forall|ms: u64| wait.requires((ms,)),
    ensures
        old(session)@.is_prefix_of(final(session)@),
        follows_plan(paste_plan(), calls_since(old(session)@, final(session)@)),
        reports(calls_since(old(session)@, final(session)@), r),
{
    let plan: Vec<InputAction> = vec![
        InputAction::Wait(SETTLE_DELAY_MS),
        InputAction::Connect,
        InputAction::Key(InjectKey::Control, KeyDirection::Press),
        InputAction::Wait(KEY_GAP_MS),
        InputAction::Key(InjectKey::Letter('v'), KeyDirection::Click),
        InputAction::Wait(KEY_GAP_MS),
        InputAction::Key(InjectKey::Control, KeyDirection::Release),
    ];
    assert(plan@ =~= paste_plan());
    assert(connected_by(plan@, 2));
    assert(connected_by(plan@, 3));
    assert(connected_by(plan@, 4));
    assert(connected_by(plan@, 5));
    assert(connected_by(plan@, 6));
    session.run_plan(&plan, wait)
}

/// When every call succeeds, a paste makes all the calls of the plan: the
/// settle wait, the connect, Control down, `v` click and Control up, in that
/// order, with the gaps between them.
pub proof fn lemma_paste_success_sends_combination(calls: Seq<(InputAction, bool)>)
    requires
        follows_plan(paste_plan(), calls),
        reports(calls, Ok(())),
    ensures
        calls.len() == paste_plan().len(),
        forall|j: int| 0 <= j < calls.len() ==> (#[trigger] calls[j]).0 == paste_plan()[j] && calls[j].1,
{
    if calls.len() < paste_plan().len() {
        assert(calls[calls.len() - 1].1);
    }
}

/// A failed connect ends a paste before any key event is sent.
pub proof fn lemma_paste_connect_failure_sends_nothing(calls: Seq<(InputAction, bool)>, e: InjectionError)
    requires
        follows_plan(paste_plan(), calls),
        reports(calls, Err(e)),
        e is Connection,
    ensures
        calls.len() == 2,
        calls[0] == (InputAction::Wait(SETTLE_DELAY_MS), true),
        calls[1] == (InputAction::Connect, false),
{
    let n = calls.len();
    assert(!calls[n - 1].1);
    if n >= 3 {
        assert(calls[1].1);
        assert(calls[n - 1].0 is Key);
    }
    if n == 1 {
        assert(calls[0].0 is Wait);
    }
}

} // verus!
