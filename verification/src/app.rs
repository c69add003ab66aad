//! The session: screens, tabs, editing fields, the composed field values,
//! and the dispatcher methods that fold a wallet-client result back into
//! the session.

use crate::accounts::{keys_unique, map_of, upsert};
use vstd::prelude::*;

verus! {

/// The top-level screen the session is showing.
#[derive(Clone, Copy, Debug, PartialEq, Eq, Structural)]
pub enum CurrentScreen {
    /// The dashboard with the tabbed panels.
    Main,
    /// A field is receiving typed characters.
    Editing,
    /// The most recent submitted command is displayed.
    CommandLog,
    /// The session asks for confirmation before ending.
    Exiting,
}

/// The tab selected on the main screen.
#[derive(Clone, Copy, Debug, PartialEq, Eq, Structural)]
pub enum ActiveTab {
    NetworkConnect,
    Accounts,
    Transactions,
    Actions,
}

/// The field that currently receives typed characters, in cycle order.
#[derive(Clone, Copy, Debug, PartialEq, Eq, Structural)]
pub enum CurrentlyEditing {
    PublicKey,
    KeypairFile,
    Config,
    SolAmount,
}

/// The cluster the wallet client is pointed at.
#[derive(Clone, Copy, Debug, PartialEq, Eq, Structural)]
pub enum Network {
    Mainnet,
    Devnet,
    Testnet,
}

/// A logical action to run against the external wallet client.
#[derive(Clone, Copy, Debug, PartialEq, Eq, Structural)]
pub enum ActionType {
    ViewBalance,
    ViewAccount,
    GenerateKeypair,
    SetConfig,
    Airdrop,
    Transfer,
}

/// The tab after `t` in the fixed cycle of the four tabs.
pub open spec fn next_tab(t: ActiveTab) -> ActiveTab {
    match t {
        ActiveTab::NetworkConnect => ActiveTab::Accounts,
        ActiveTab::Accounts => ActiveTab::Transactions,
        ActiveTab::Transactions => ActiveTab::Actions,
        ActiveTab::Actions => ActiveTab::NetworkConnect,
    }
}

/// The editing field after `f` in the fixed cycle of the four fields.
pub open spec fn next_field(f: CurrentlyEditing) -> CurrentlyEditing {
    match f {
        CurrentlyEditing::PublicKey => CurrentlyEditing::KeypairFile,
        CurrentlyEditing::KeypairFile => CurrentlyEditing::Config,
        CurrentlyEditing::Config => CurrentlyEditing::SolAmount,
        CurrentlyEditing::SolAmount => CurrentlyEditing::PublicKey,
    }
}

/// The session state, owned by value and mutated only by the input router
/// and the dispatcher methods.
pub struct App {
    /// Public-key / command text the user is composing.
    pub command_input: String,
    /// Path of the keypair file, passed through as an opaque string.
    pub keypair_file: String,
    /// The configuration value being composed.
    pub config_value: String,
    /// Whole SOL amount for a transfer, accumulated digit by digit.
    pub sol_amount: u64,
    pub current_screen: CurrentScreen,
    /// Set exactly while `current_screen` is `Editing`.
    pub currently_editing: Option<CurrentlyEditing>,
    pub network: Network,
    pub active_tab: ActiveTab,
    /// Balances last fetched, one row per address.
    pub accounts: Vec<(String, u64)>,
    /// The most recent submitted command input, kept for display.
    pub command_log: String,
}

/// The mathematical value of a session: text fields as character
/// sequences and the account table as a mapping.
#[verifier::ext_equal]
pub ghost struct AppView {
    pub screen: CurrentScreen,
    pub tab: ActiveTab,
    pub editing: Option<CurrentlyEditing>,
    pub network: Network,
    pub command_input: Seq<char>,
    pub keypair_file: Seq<char>,
    pub config_value: Seq<char>,
    pub sol_amount: u64,
    pub accounts: Map<Seq<char>, u64>,
    pub command_log: Seq<char>,
}

impl View for App {
    type V = AppView;

    open spec fn view(&self) -> AppView {
        AppView {
            screen: self.current_screen,
            tab: self.active_tab,
            editing: self.currently_editing,
            network: self.network,
            command_input: self.command_input@,
            keypair_file: self.keypair_file@,
            config_value: self.config_value@,
            sol_amount: self.sol_amount,
            accounts: map_of(self.accounts@),
            command_log: self.command_log@,
        }
    }
}

/// The state a session starts in.
pub open spec fn initial_view() -> AppView {
    AppView {
        screen: CurrentScreen::Main,
        tab: ActiveTab::NetworkConnect,
        editing: None,
        network: Network::Devnet,
        command_input: Seq::<char>::empty(),
        keypair_file: Seq::<char>::empty(),
        config_value: Seq::<char>::empty(),
        sol_amount: 0,
        accounts: Map::<Seq<char>, u64>::empty(),
        command_log: Seq::<char>::empty(),
    }
}

impl App {
    /// A field is being edited exactly while the editing screen is shown,
    /// and account rows never repeat an address.
    pub open spec fn wf(&self) -> bool {
        &&& (self.current_screen == CurrentScreen::Editing) <==> (self.currently_editing is Some)
        &&& keys_unique(self.accounts@)
    }

    /// A fresh session: main screen, first tab, nothing being edited,
    /// every field empty and no account known.
    pub fn new() -> (app: App)
        ensures
            app.wf(),
            app@ == initial_view(),
    {
        App {
            command_input: String::new(),
            keypair_file: String::new(),
            config_value: String::new(),
            sol_amount: 0,
            current_screen: CurrentScreen::Main,
            currently_editing: None,
            network: Network::Devnet,
            active_tab: ActiveTab::NetworkConnect,
            accounts: Vec::new(),
            command_log: String::new(),
        }
    }

    /// Selects the next tab in the fixed four-tab cycle; nothing else
    /// changes.
    pub fn toggle_tab(&mut self)
        ensures
            *final(self) == (App { active_tab: next_tab(old(self).active_tab), ..*old(self) }),
    {
        self.active_tab = match self.active_tab {
            ActiveTab::NetworkConnect => ActiveTab::Accounts,
            ActiveTab::Accounts => ActiveTab::Transactions,
            ActiveTab::Transactions => ActiveTab::Actions,
            ActiveTab::Actions => ActiveTab::NetworkConnect,
        };
    }

    /// Folds the wallet client's answer to a balance lookup into the
    /// session: a fetched balance is recorded for the address, an error is
    /// shown in the command log and changes nothing else. The screen never
    /// changes.
    pub fn get_balance(&mut self, address: String, balance: Result<u64, String>)
        requires
            old(self).wf(),
        ensures
            final(self).wf(),
            (match balance {
                Ok(b) => final(self)@ == (AppView {
                    accounts: old(self)@.accounts.insert(address@, b),
                    ..old(self)@
                }),
                Err(e) => final(self)@ == (AppView { command_log: e@, ..old(self)@ }),
            }),
    {
        match balance {
            Ok(b) => {
                upsert(&mut self.accounts, address, b);
            }
            Err(e) => {
                self.command_log = e;
            }
        }
    }

    /// Folds the wallet client's answer to an account-details lookup into
    /// the session: the rendered details, or the error, are shown in the
    /// command log; nothing else changes.
    pub fn get_account_details(&mut self, details: Result<String, String>)
        requires
            old(self).wf(),
        ensures
            final(self).wf(),
            final(self)@ == (AppView {
                command_log: (match details {
                    Ok(d) => d@,
                    Err(e) => e@,
                }),
                ..old(self)@
            }),
    {
        match details {
            Ok(d) => {
                self.command_log = d;
            }
            Err(e) => {
                self.command_log = e;
            }
        }
    }

    /// Folds the wallet client's answer to a configuration lookup into the
    /// session: the fetched value, or the error, is shown in the command
    /// log; nothing else changes.
    pub fn get_config(&mut self, config: Result<String, String>)
        requires
            old(self).wf(),
        ensures
            final(self).wf(),
            final(self)@ == (AppView {
                command_log: (match config {
                    Ok(c) => c@,
                    Err(e) => e@,
                }),
                ..old(self)@
            }),
    {
        match config {
            Ok(c) => {
                self.command_log = c;
            }
            Err(e) => {
                self.command_log = e;
            }
        }
    }

    /// Folds the wallet client's answer to a transfer into the session: on
    /// success the composed amount is reset to zero, on failure it is left
    /// for resubmission and the error is shown in the command log.
    pub fn transfer_sol(&mut self, outcome: Result<String, String>)
        requires
            old(self).wf(),
        ensures
            final(self).wf(),
            (match outcome {
                Ok(_) => final(self)@ == (AppView { sol_amount: 0, ..old(self)@ }),
                Err(e) => final(self)@ == (AppView { command_log: e@, ..old(self)@ }),
            }),
    {
        match outcome {
            Ok(_signature) => {
                self.sol_amount = 0;
            }
            Err(e) => {
                self.command_log = e;
            }
        }
    }

    /// Folds the wallet client's answer to a reconfiguration into the
    /// session: on success the composed configuration value is cleared, on
    /// failure it is left for correction and the error is shown in the
    /// command log.
    pub fn set_config(&mut self, outcome: Result<(), String>)
        requires
            old(self).wf(),
        ensures
            final(self).wf(),
            (match outcome {
                Ok(_) => final(self)@ == (AppView {
                    config_value: Seq::<char>::empty(),
                    ..old(self)@
                }),
                Err(e) => final(self)@ == (AppView { command_log: e@, ..old(self)@ }),
            }),
    {
        match outcome {
            Ok(_) => {
                self.config_value = String::new();
            }
            Err(e) => {
                self.command_log = e;
            }
        }
    }
}

} // verus!
