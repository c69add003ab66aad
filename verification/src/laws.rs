//! Session-wide laws of the state machine, proved against the transition
//! function [`crate::router::route_state`].

use crate::app::{AppView, ActiveTab, CurrentScreen, CurrentlyEditing, next_field, next_tab};
use crate::router::{route_dispatches, route_state, route_terminates, KeyEvent};
use vstd::prelude::*;

verus! {

/// Cycling the tab walks through four pairwise distinct tabs and is back
/// at the start after four steps.
pub proof fn lemma_tab_cycle(t: ActiveTab)
    ensures
        next_tab(next_tab(next_tab(next_tab(t)))) == t,
        next_tab(t) != t,
        next_tab(next_tab(t)) != t,
        next_tab(next_tab(t)) != next_tab(t),
        next_tab(next_tab(next_tab(t))) != t,
        next_tab(next_tab(next_tab(t))) != next_tab(t),
        next_tab(next_tab(next_tab(t))) != next_tab(next_tab(t)),
{
}

/// On the main screen, the cycle-tab key only moves the tab along the
/// cycle, and four presses bring the whole session back to where it was.
pub proof fn lemma_cycle_tab_returns(s: AppView)
    requires
        s.screen == CurrentScreen::Main,
    ensures
        route_state(s, KeyEvent::CycleTab) == (AppView { tab: next_tab(s.tab), ..s }),
        route_state(
            route_state(
                route_state(route_state(s, KeyEvent::CycleTab), KeyEvent::CycleTab),
                KeyEvent::CycleTab,
            ),
            KeyEvent::CycleTab,
        ) == s,
{
    let s4 = route_state(
        route_state(
            route_state(route_state(s, KeyEvent::CycleTab), KeyEvent::CycleTab),
            KeyEvent::CycleTab,
        ),
        KeyEvent::CycleTab,
    );
    assert(s4 =~= s);
}

/// Cycling the editing field walks through four pairwise distinct fields
/// and is back at the start after four steps.
pub proof fn lemma_field_cycle(f: CurrentlyEditing)
    ensures
        next_field(next_field(next_field(next_field(f)))) == f,
        next_field(f) != f,
        next_field(next_field(f)) != f,
        next_field(next_field(f)) != next_field(f),
        next_field(next_field(next_field(f))) != f,
        next_field(next_field(next_field(f))) != next_field(f),
        next_field(next_field(next_field(f))) != next_field(next_field(f)),
{
}

/// While editing, the cycle-field key stays on the editing screen, only
/// moves the field along the cycle, and four presses bring the whole
/// session back to where it was.
pub proof fn lemma_cycle_field_wraps(s: AppView, f: CurrentlyEditing)
    requires
        s.screen == CurrentScreen::Editing,
        s.editing == Some(f),
    ensures
        route_state(s, KeyEvent::CycleField) == (AppView { editing: Some(next_field(f)), ..s }),
        route_state(
            route_state(
                route_state(route_state(s, KeyEvent::CycleField), KeyEvent::CycleField),
                KeyEvent::CycleField,
            ),
            KeyEvent::CycleField,
        ) == s,
{
    let s4 = route_state(
        route_state(
            route_state(route_state(s, KeyEvent::CycleField), KeyEvent::CycleField),
            KeyEvent::CycleField,
        ),
        KeyEvent::CycleField,
    );
    assert(s4 =~= s);
}

/// Confirming on the SOL amount always returns the session to the main
/// screen with no field being edited, whatever the amount holds.
pub proof fn lemma_confirm_sol_amount_returns_main(s: AppView)
    requires
        s.screen == CurrentScreen::Editing,
        s.editing == Some(CurrentlyEditing::SolAmount),
    ensures
        route_state(s, KeyEvent::Confirm).screen == CurrentScreen::Main,
        route_state(s, KeyEvent::Confirm).editing is None,
        route_dispatches(s, KeyEvent::Confirm),
{
}

/// An erase on an empty text field changes nothing.
pub proof fn lemma_erase_empty_is_noop(s: AppView, f: CurrentlyEditing)
    requires
        s.screen == CurrentScreen::Editing,
        s.editing == Some(f),
        f != CurrentlyEditing::SolAmount,
        f == CurrentlyEditing::PublicKey ==> s.command_input.len() == 0,
        f == CurrentlyEditing::KeypairFile ==> s.keypair_file.len() == 0,
        f == CurrentlyEditing::Config ==> s.config_value.len() == 0,
    ensures
        route_state(s, KeyEvent::Erase) == s,
{
}

/// Cancelling an edit returns to the main screen with no field being
/// edited, preserves every composed field value, and invokes no action.
pub proof fn lemma_cancel_editing(s: AppView)
    requires
        s.screen == CurrentScreen::Editing,
    ensures
        route_state(s, KeyEvent::Cancel) == (AppView {
            screen: CurrentScreen::Main,
            editing: None,
            ..s
        }),
        !route_dispatches(s, KeyEvent::Cancel),
        !route_terminates(s, KeyEvent::Cancel),
{
}

} // verus!
