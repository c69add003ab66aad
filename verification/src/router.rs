//! The input router: one total, deterministic step function from the
//! current session and a key event to the next session, together with the
//! external action the step requests, if any. [`route_state`] is the
//! transition function of the state machine; [`handle_key`] is its
//! executable form.

use crate::app::{
    ActionType, App, AppView, CurrentScreen, CurrentlyEditing, next_field, next_tab,
};
use vstd::prelude::*;

verus! {

/// A discrete key event, as handed in by the input source.
#[derive(Clone, Copy, Debug, PartialEq, Eq, Structural)]
pub enum KeyEvent {
    /// A printable character key.
    Char(char),
    Confirm,
    Cancel,
    Erase,
    CycleTab,
    CycleField,
    Quit,
    EnterEdit,
    ShowLog,
}

/// The accumulated field values handed to the action dispatcher when an
/// edit completes.
pub struct DispatchRequest {
    pub action: ActionType,
    pub command_input: String,
    pub keypair_file: String,
    pub config_value: String,
    pub sol_amount: u64,
}

/// The mathematical value of a dispatch request.
#[verifier::ext_equal]
pub ghost struct DispatchRequestView {
    pub action: ActionType,
    pub command_input: Seq<char>,
    pub keypair_file: Seq<char>,
    pub config_value: Seq<char>,
    pub sol_amount: u64,
}

impl View for DispatchRequest {
    type V = DispatchRequestView;

    open spec fn view(&self) -> DispatchRequestView {
        DispatchRequestView {
            action: self.action,
            command_input: self.command_input@,
            keypair_file: self.keypair_file@,
            config_value: self.config_value@,
            sol_amount: self.sol_amount,
        }
    }
}

/// What one routed key asks of the surrounding loop.
pub enum RouterOutcome {
    /// The session continues; no external action is requested.
    Continue,
    /// The user confirmed the exit prompt; the session ends.
    Terminate,
    /// The accumulated fields are to be run against the wallet client.
    Dispatch(DispatchRequest),
}

/// The numeric value of a decimal digit character; any other character
/// has none.
pub open spec fn digit_of(c: char) -> Option<u64> {
    if c == '0' {
        Some(0u64)
    } else if c == '1' {
        Some(1u64)
    } else if c == '2' {
        Some(2u64)
    } else if c == '3' {
        Some(3u64)
    } else if c == '4' {
        Some(4u64)
    } else if c == '5' {
        Some(5u64)
    } else if c == '6' {
        Some(6u64)
    } else if c == '7' {
        Some(7u64)
    } else if c == '8' {
        Some(8u64)
    } else if c == '9' {
        Some(9u64)
    } else {
        None
    }
}

/// The session after a printable character while editing: appended to the
/// targeted text field; folded as one more decimal digit into the SOL
/// amount, where a non-digit, or a digit that would overflow the amount,
/// is ignored.
pub open spec fn edited(s: AppView, c: char) -> AppView {
    match s.editing {
        Some(CurrentlyEditing::PublicKey) => AppView {
            command_input: s.command_input.push(c),
            ..s
        },
        Some(CurrentlyEditing::KeypairFile) => AppView { keypair_file: s.keypair_file.push(c), ..s },
        Some(CurrentlyEditing::Config) => AppView { config_value: s.config_value.push(c), ..s },
        Some(CurrentlyEditing::SolAmount) => match digit_of(c) {
            Some(d) => if (s.sol_amount as int) * 10 + d <= u64::MAX {
                AppView { sol_amount: ((s.sol_amount as int) * 10 + d) as u64, ..s }
            } else {
                s
            },
            None => s,
        },
        None => s,
    }
}

/// The session after an erase while editing: the last character leaves
/// the targeted text field, or the last decimal digit leaves the SOL
/// amount; an empty field stays empty.
pub open spec fn erased(s: AppView) -> AppView {
    match s.editing {
        Some(CurrentlyEditing::PublicKey) => if s.command_input.len() == 0 {
            s
        } else {
            AppView { command_input: s.command_input.drop_last(), ..s }
        },
        Some(CurrentlyEditing::KeypairFile) => if s.keypair_file.len() == 0 {
            s
        } else {
            AppView { keypair_file: s.keypair_file.drop_last(), ..s }
        },
        Some(CurrentlyEditing::Config) => if s.config_value.len() == 0 {
            s
        } else {
            AppView { config_value: s.config_value.drop_last(), ..s }
        },
        Some(CurrentlyEditing::SolAmount) => AppView {
            sol_amount: (s.sol_amount / 10) as u64,
            ..s
        },
        None => s,
    }
}

/// The transition function of the session state machine: the session
/// after one key event. Keys without a meaning in the current screen
/// leave the session unchanged.
pub open spec fn route_state(s: AppView, k: KeyEvent) -> AppView {
    match s.screen {
        CurrentScreen::Main => match k {
            KeyEvent::EnterEdit => AppView {
                screen: CurrentScreen::Editing,
                editing: Some(CurrentlyEditing::PublicKey),
                command_input: Seq::<char>::empty(),
                ..s
            },
            KeyEvent::Quit => AppView { screen: CurrentScreen::Exiting, ..s },
            KeyEvent::ShowLog => AppView { screen: CurrentScreen::CommandLog, ..s },
            KeyEvent::CycleTab => AppView { tab: next_tab(s.tab), ..s },
            _ => s,
        },
        CurrentScreen::Editing => match k {
            KeyEvent::Confirm => match s.editing {
                Some(CurrentlyEditing::SolAmount) => AppView {
                    screen: CurrentScreen::Main,
                    editing: None,
                    command_input: Seq::<char>::empty(),
                    keypair_file: Seq::<char>::empty(),
                    config_value: Seq::<char>::empty(),
                    sol_amount: 0,
                    command_log: s.command_input,
                    ..s
                },
                Some(f) => AppView { editing: Some(next_field(f)), ..s },
                None => s,
            },
            KeyEvent::Cancel => AppView { screen: CurrentScreen::Main, editing: None, ..s },
            KeyEvent::CycleField => match s.editing {
                Some(f) => AppView { editing: Some(next_field(f)), ..s },
                None => s,
            },
            KeyEvent::Char(c) => edited(s, c),
            KeyEvent::Erase => erased(s),
            _ => s,
        },
        CurrentScreen::CommandLog => match k {
            KeyEvent::Cancel => AppView { screen: CurrentScreen::Main, ..s },
            _ => s,
        },
        CurrentScreen::Exiting => match k {
            KeyEvent::Cancel => AppView { screen: CurrentScreen::Main, editing: None, ..s },
            _ => s,
        },
    }
}

/// The key ends the session: confirming while the exit prompt is shown.
pub open spec fn route_terminates(s: AppView, k: KeyEvent) -> bool {
    s.screen == CurrentScreen::Exiting && k == KeyEvent::Confirm
}

/// The key completes an edit and invokes the action dispatcher:
/// confirming on the last field of the cycle.
pub open spec fn route_dispatches(s: AppView, k: KeyEvent) -> bool {
    s.screen == CurrentScreen::Editing && s.editing == Some(CurrentlyEditing::SolAmount)
        && k == KeyEvent::Confirm
}

/// The request a completing edit hands to the action dispatcher: the
/// accumulated field values, to be run as a transfer.
pub open spec fn route_request(s: AppView) -> DispatchRequestView {
    DispatchRequestView {
        action: ActionType::Transfer,
        command_input: s.command_input,
        keypair_file: s.keypair_file,
        config_value: s.config_value,
        sol_amount: s.sol_amount,
    }
}

/// Relies on String::push: appends the given character to the end of the
/// string.
pub assume_specification[ String::push ](s: &mut String, ch: char)
    ensures
        final(s)@ == old(s)@.push(ch),
;

/// Relies on String::pop: removes and returns the last character, or
/// returns nothing and leaves the string unchanged when it is empty.
pub assume_specification[ String::pop ](s: &mut String) -> (r: Option<char>)
    ensures
        old(s)@.len() == 0 ==> r is None && final(s)@ == old(s)@,
        old(s)@.len() > 0 ==> r == Some(old(s)@.last()) && final(s)@ == old(s)@.drop_last(),
;

/// The numeric value of a decimal digit character, executably.
fn digit_value(c: char) -> (r: Option<u64>)
    ensures
        r == digit_of(c),
{
    match c {
        '0' => Some(0u64),
        '1' => Some(1u64),
        '2' => Some(2u64),
        '3' => Some(3u64),
        '4' => Some(4u64),
        '5' => Some(5u64),
        '6' => Some(6u64),
        '7' => Some(7u64),
        '8' => Some(8u64),
        '9' => Some(9u64),
        _ => None,
    }
}

/// The editing field after `f` in the cycle, executably.
fn advance_field(f: CurrentlyEditing) -> (r: CurrentlyEditing)
    ensures
        r == next_field(f),
{
    match f {
        CurrentlyEditing::PublicKey => CurrentlyEditing::KeypairFile,
        CurrentlyEditing::KeypairFile => CurrentlyEditing::Config,
        CurrentlyEditing::Config => CurrentlyEditing::SolAmount,
        CurrentlyEditing::SolAmount => CurrentlyEditing::PublicKey,
    }
}

/// Routes one key event: the session steps to `route_state` of the old
/// session, and the outcome says whether the session ends or which
/// request goes to the action dispatcher.
pub fn handle_key(app: &mut App, key: KeyEvent) -> (outcome: RouterOutcome)
    requires
        old(app).wf(),
    ensures
        final(app).wf(),
        final(app)@ == route_state(old(app)@, key),
        (match outcome {
            RouterOutcome::Terminate => route_terminates(old(app)@, key),
            RouterOutcome::Dispatch(req) => route_dispatches(old(app)@, key) && req@
                == route_request(old(app)@),
            RouterOutcome::Continue => !route_terminates(old(app)@, key) && !route_dispatches(
                old(app)@,
                key,
            ),
        }),
{
    match app.current_screen {
        CurrentScreen::Main => {
            match key {
                KeyEvent::EnterEdit => {
                    app.current_screen = CurrentScreen::Editing;
                    app.currently_editing = Some(CurrentlyEditing::PublicKey);
                    app.command_input = String::new();
                }
                KeyEvent::Quit => {
                    app.current_screen = CurrentScreen::Exiting;
                }
                KeyEvent::ShowLog => {
                    app.current_screen = CurrentScreen::CommandLog;
                }
                KeyEvent::CycleTab => {
                    app.toggle_tab();
                }
                _ => {}
            }
            RouterOutcome::Continue
        }
        CurrentScreen::Editing => {
            match key {
                KeyEvent::Confirm => {
                    match app.currently_editing {
                        Some(CurrentlyEditing::SolAmount) => {
                            let request = DispatchRequest {
                                action: ActionType::Transfer,
                                command_input: app.command_input.clone(),
                                keypair_file: app.keypair_file.clone(),
                                config_value: app.config_value.clone(),
                                sol_amount: app.sol_amount,
                            };
                            app.command_log = app.command_input.clone();
                            app.command_input = String::new();
                            app.keypair_file = String::new();
                            app.config_value = String::new();
                            app.sol_amount = 0;
                            app.current_screen = CurrentScreen::Main;
                            app.currently_editing = None;
                            RouterOutcome::Dispatch(request)
                        }
                        Some(f) => {
                            app.currently_editing = Some(advance_field(f));
                            RouterOutcome::Continue
                        }
                        None => RouterOutcome::Continue,
                    }
                }
                KeyEvent::Cancel => {
                    app.current_screen = CurrentScreen::Main;
                    app.currently_editing = None;
                    RouterOutcome::Continue
                }
                KeyEvent::CycleField => {
                    match app.currently_editing {
                        Some(f) => {
                            app.currently_editing = Some(advance_field(f));
                        }
                        None => {}
                    }
                    RouterOutcome::Continue
                }
                KeyEvent::Char(c) => {
                    match app.currently_editing {
                        Some(CurrentlyEditing::PublicKey) => {
                            app.command_input.push(c);
                        }
                        Some(CurrentlyEditing::KeypairFile) => {
                            app.keypair_file.push(c);
                        }
                        Some(CurrentlyEditing::Config) => {
                            app.config_value.push(c);
                        }
                        Some(CurrentlyEditing::SolAmount) => {
                            match digit_value(c) {
                                Some(d) => {
                                    match app.sol_amount.checked_mul(10) {
                                        Some(shifted) => {
                                            match shifted.checked_add(d) {
                                                Some(total) => {
                                                    app.sol_amount = total;
                                                }
                                                None => {}
                                            }
                                        }
                                        None => {}
                                    }
                                }
                                None => {}
                            }
                        }
                        None => {}
                    }
                    RouterOutcome::Continue
                }
                KeyEvent::Erase => {
                    match app.currently_editing {
                        Some(CurrentlyEditing::PublicKey) => {
                            let _ = app.command_input.pop();
                        }
                        Some(CurrentlyEditing::KeypairFile) => {
                            let _ = app.keypair_file.pop();
                        }
                        Some(CurrentlyEditing::Config) => {
                            let _ = app.config_value.pop();
                        }
                        Some(CurrentlyEditing::SolAmount) => {
                            app.sol_amount = app.sol_amount / 10;
                        }
                        None => {}
                    }
                    RouterOutcome::Continue
                }
                _ => RouterOutcome::Continue,
            }
        }
        CurrentScreen::CommandLog => {
            match key {
                KeyEvent::Cancel => {
                    app.current_screen = CurrentScreen::Main;
                }
                _ => {}
            }
            RouterOutcome::Continue
        }
        CurrentScreen::Exiting => {
            match key {
                KeyEvent::Confirm => RouterOutcome::Terminate,
                KeyEvent::Cancel => {
                    app.current_screen = CurrentScreen::Main;
                    app.currently_editing = None;
                    RouterOutcome::Continue
                }
                _ => RouterOutcome::Continue,
            }
        }
    }
}

} // verus!
