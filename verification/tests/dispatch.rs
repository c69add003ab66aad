use wallet_tui::accounts::upsert;
use wallet_tui::app::{App, CurrentScreen};

#[test]
fn balance_error_leaves_accounts_unchanged() {
    let mut app = App::new();
    app.get_balance(String::from("X"), Err(String::from("node unreachable")));
    assert!(app.accounts.is_empty());
    assert_eq!(app.current_screen, CurrentScreen::Main);
    assert_eq!(app.command_log, "node unreachable");
}

#[test]
fn balance_success_records_the_address() {
    let mut app = App::new();
    app.get_balance(String::from("addr1"), Ok(250));
    assert_eq!(app.accounts, vec![(String::from("addr1"), 250)]);
    assert_eq!(app.current_screen, CurrentScreen::Main);
}

#[test]
fn balance_refresh_updates_in_place() {
    let mut app = App::new();
    app.get_balance(String::from("addr1"), Ok(250));
    app.get_balance(String::from("addr2"), Ok(7));
    app.get_balance(String::from("addr1"), Ok(300));
    assert_eq!(
        app.accounts,
        vec![(String::from("addr1"), 300), (String::from("addr2"), 7)]
    );
}

#[test]
fn balance_error_keeps_earlier_entries() {
    let mut app = App::new();
    app.get_balance(String::from("addr1"), Ok(250));
    app.get_balance(String::from("addr1"), Err(String::from("timeout")));
    assert_eq!(app.accounts, vec![(String::from("addr1"), 250)]);
    assert_eq!(app.command_log, "timeout");
}

#[test]
fn upsert_adds_and_replaces_rows() {
    let mut table: Vec<(String, u64)> = Vec::new();
    upsert(&mut table, String::from("a"), 1);
    upsert(&mut table, String::from("b"), 2);
    upsert(&mut table, String::from("a"), 9);
    assert_eq!(table, vec![(String::from("a"), 9), (String::from("b"), 2)]);
}

#[test]
fn transfer_success_resets_the_amount() {
    let mut app = App::new();
    app.sol_amount = 55;
    app.transfer_sol(Ok(String::from("sig0001")));
    assert_eq!(app.sol_amount, 0);
    assert_eq!(app.current_screen, CurrentScreen::Main);
}

#[test]
fn transfer_failure_keeps_the_amount_and_surfaces_the_error() {
    let mut app = App::new();
    app.sol_amount = 55;
    app.transfer_sol(Err(String::from("insufficient funds")));
    assert_eq!(app.sol_amount, 55);
    assert_eq!(app.command_log, "insufficient funds");
    assert_eq!(app.current_screen, CurrentScreen::Main);
}

#[test]
fn set_config_success_clears_the_value() {
    let mut app = App::new();
    app.config_value = String::from("https://api.devnet.example");
    app.set_config(Ok(()));
    assert_eq!(app.config_value, "");
}

#[test]
fn set_config_failure_keeps_the_value_for_correction() {
    let mut app = App::new();
    app.config_value = String::from("not-a-url");
    app.set_config(Err(String::from("invalid endpoint")));
    assert_eq!(app.config_value, "not-a-url");
    assert_eq!(app.command_log, "invalid endpoint");
}

#[test]
fn get_config_shows_value_or_error_in_the_log() {
    let mut app = App::new();
    app.get_config(Ok(String::from("devnet")));
    assert_eq!(app.command_log, "devnet");
    app.get_config(Err(String::from("no config")));
    assert_eq!(app.command_log, "no config");
}

#[test]
fn get_account_details_shows_details_or_error_in_the_log() {
    let mut app = App::new();
    app.get_account_details(Ok(String::from("owner: system, lamports: 5")));
    assert_eq!(app.command_log, "owner: system, lamports: 5");
    app.get_account_details(Err(String::from("account not found")));
    assert_eq!(app.command_log, "account not found");
}

#[test]
fn dispatcher_failures_never_change_the_screen() {
    let mut app = App::new();
    app.get_balance(String::from("X"), Err(String::from("e1")));
    app.transfer_sol(Err(String::from("e2")));
    app.set_config(Err(String::from("e3")));
    app.get_config(Err(String::from("e4")));
    app.get_account_details(Err(String::from("e5")));
    assert_eq!(app.current_screen, CurrentScreen::Main);
    assert_eq!(app.currently_editing, None);
}
