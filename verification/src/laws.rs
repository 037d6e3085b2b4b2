//! Laws of the interactive state machine, proved once and for all over the
//! transition relation [`step`]: the state invariant is preserved by every
//! event sequence, cursor and highlight never leave their bounds, boundary
//! moves are no-ops, an empty submission asks for the trending listing, and
//! region cycling behaves as documented.

use vstd::prelude::*;

use crate::state::{next_mode, state_wf, step, Action, InputEvent, Mode, StateModel};

verus! {

/// The state after a whole sequence of keyboard events, first event first.
pub open spec fn run(s: StateModel, evs: Seq<InputEvent>) -> StateModel
    decreases evs.len(),
{
    if evs.len() == 0 {
        s
    } else {
        run(step(s, evs[0]).0, evs.skip(1))
    }
}

/// One event preserves the state invariant.
pub proof fn lemma_step_preserves_wf(s: StateModel, ev: InputEvent)
    requires
        state_wf(s),
    ensures
        state_wf(step(s, ev).0),
{
}

/// Law: any sequence of keyboard events preserves the state invariant, so
/// the cursor and the highlight never leave their bounds.
pub proof fn lemma_run_preserves_wf(s: StateModel, evs: Seq<InputEvent>)
    requires
        state_wf(s),
    ensures
        state_wf(run(s, evs)),
    decreases evs.len(),
{
    if evs.len() > 0 {
        lemma_step_preserves_wf(s, evs[0]);
        lemma_run_preserves_wf(step(s, evs[0]).0, evs.skip(1));
    }
}

/// Law: under any sequence of cursor-left and cursor-right events the
/// buffer is untouched and the cursor stays within `[0, buffer length]`.
/// The buffer is a sequence of characters and the cursor an index into it,
/// so every position the cursor can take is a character boundary.
pub proof fn lemma_cursor_moves_stay_in_bounds(s: StateModel, evs: Seq<InputEvent>)
    requires
        state_wf(s),
        forall|i: int|
            0 <= i < evs.len() ==> evs[i] == InputEvent::Left || evs[i] == InputEvent::Right,
    ensures
        run(s, evs).query_buffer == s.query_buffer,
        0 <= run(s, evs).query_cursor <= run(s, evs).query_buffer.len(),
    decreases evs.len(),
{
    lemma_run_preserves_wf(s, evs);
    if evs.len() > 0 {
        lemma_step_preserves_wf(s, evs[0]);
        assert(forall|i: int|
            0 <= i < evs.skip(1).len() ==> evs.skip(1)[i] == evs[i + 1]);
        lemma_cursor_moves_stay_in_bounds(step(s, evs[0]).0, evs.skip(1));
    }
}

/// Law: with a non-empty result list, any sequence of up and down events
/// keeps the list untouched and the highlight within `[0, length - 1]`.
pub proof fn lemma_highlight_stays_in_bounds(s: StateModel, evs: Seq<InputEvent>)
    requires
        state_wf(s),
        s.results.len() > 0,
        forall|i: int|
            0 <= i < evs.len() ==> evs[i] == InputEvent::Up || evs[i] == InputEvent::Down,
    ensures
        run(s, evs).results == s.results,
        0 <= run(s, evs).highlight < s.results.len(),
    decreases evs.len(),
{
    lemma_run_preserves_wf(s, evs);
    if evs.len() > 0 {
        lemma_step_preserves_wf(s, evs[0]);
        assert(forall|i: int|
            0 <= i < evs.skip(1).len() ==> evs.skip(1)[i] == evs[i + 1]);
        lemma_highlight_stays_in_bounds(step(s, evs[0]).0, evs.skip(1));
    }
}

/// Law: moving up while the highlight rests at the top changes nothing and
/// requests nothing.
pub proof fn lemma_up_at_top_is_noop(s: StateModel)
    requires
        s.highlight == 0,
    ensures
        step(s, InputEvent::Up) == (s, Action::Idle),
{
}

/// Law: moving down while the highlight rests on the last result changes
/// nothing and requests nothing.
pub proof fn lemma_down_at_bottom_is_noop(s: StateModel)
    requires
        s.results.len() > 0,
        s.highlight == s.results.len() - 1,
    ensures
        step(s, InputEvent::Down) == (s, Action::Idle),
{
}

/// Law: submitting with an empty buffer requests the trending listing, the
/// same fetch the client starts with, and changes nothing else.
pub proof fn lemma_empty_submit_fetches_trending(s: StateModel)
    requires
        s.mode == Mode::InputMode,
        s.query_buffer.len() == 0,
    ensures
        step(s, InputEvent::Confirm) == (s, Action::FetchTrending),
{
}

/// Law: three region switches return focus to the region they started
/// from, whatever it was.
pub proof fn lemma_region_cycle_returns(s: StateModel)
    ensures
        run(
            s,
            seq![InputEvent::RegionSwitch, InputEvent::RegionSwitch, InputEvent::RegionSwitch],
        ).mode == s.mode,
{
    let e = InputEvent::RegionSwitch;
    let evs = seq![e, e, e];
    let s1 = step(s, e).0;
    let s2 = step(s1, e).0;
    let s3 = step(s2, e).0;
    assert(evs.skip(1) =~= seq![e, e]);
    assert(seq![e, e].skip(1) =~= seq![e]);
    assert(seq![e].skip(1) =~= Seq::<InputEvent>::empty());
    assert(evs[0] == e);
    assert(run(s, evs) == run(s1, seq![e, e]));
    assert(run(s1, seq![e, e]) == run(s2, seq![e]));
    assert(run(s2, seq![e]) == run(s3, Seq::<InputEvent>::empty()));
    assert(run(s3, Seq::<InputEvent>::empty()) == s3);
    assert(next_mode(next_mode(next_mode(s.mode))) == s.mode);
}

/// Law: a region switch that lands on the list region resets the highlight
/// to the top, whatever its value was before leaving.
pub proof fn lemma_reenter_list_resets_highlight(s: StateModel)
    ensures
        step(s, InputEvent::RegionSwitch).0.mode is ListMode ==> step(
            s,
            InputEvent::RegionSwitch,
        ).0.highlight == 0,
{
}

} // verus!
