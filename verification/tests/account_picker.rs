use ghx::gh::GitHubAccount;
use ghx::ui::account_picker::{AccountPicker, PickerMsg};

fn account(login: &str, active: bool) -> GitHubAccount {
    GitHubAccount {
        host: "github.com".into(),
        login: login.into(),
        active,
        state: "Logged in".into(),
        token_source: "keyring".into(),
    }
}

#[test]
fn selection_stays_within_available_accounts() {
    let mut picker = AccountPicker::new();
    picker.accounts = vec![
        GitHubAccount {
            host: "github.com".into(),
            login: "active-example".into(),
            active: true,
            state: "Logged in".into(),
            token_source: "keyring".into(),
        },
        GitHubAccount {
            host: "github.com".into(),
            login: "other-example".into(),
            active: false,
            state: "Logged in".into(),
            token_source: "keyring".into(),
        },
    ];

    picker.move_to_last();
    picker.move_down();
    assert_eq!(picker.selected, 1);
    picker.move_to_first();
    picker.move_up();
    assert_eq!(picker.selected, 0);
}

#[test]
fn accounts_answer_selects_the_active_account() {
    let mut picker = AccountPicker::new();
    let generation = picker.open();
    assert!(picker.visible);
    assert!(picker.loading);
    let switched = picker.poll(vec![PickerMsg::Accounts {
        generation,
        result: Ok(vec![account("first-example", false), account("second-example", true)]),
    }]);
    assert!(!switched);
    assert!(!picker.loading);
    assert_eq!(picker.selected, 1);
}

#[test]
fn answers_of_an_older_picker_are_dropped() {
    let mut picker = AccountPicker::new();
    let first = picker.open();
    picker.close();
    let second = picker.open();
    assert_ne!(first, second);
    picker.poll(vec![PickerMsg::Accounts {
        generation: first,
        result: Ok(vec![account("stale-example", true)]),
    }]);
    assert!(picker.accounts.is_empty());
    assert!(picker.loading);
}

#[test]
fn confirming_another_account_asks_for_a_switch() {
    let mut picker = AccountPicker::new();
    let generation = picker.open();
    picker.poll(vec![PickerMsg::Accounts {
        generation,
        result: Ok(vec![account("active-example", true), account("other-example", false)]),
    }]);
    picker.move_down();
    let request = picker.confirm().unwrap();
    assert_eq!(request.login, "other-example");
    assert_eq!(request.host, "github.com");
    assert_eq!(request.generation, generation);
    assert!(picker.switching);
    let switched = picker.poll(vec![PickerMsg::Switched { generation, result: Ok(()) }]);
    assert!(switched);
    assert!(!picker.visible);
}

#[test]
fn failed_account_listing_keeps_the_error() {
    let mut picker = AccountPicker::new();
    let generation = picker.open();
    picker.poll(vec![PickerMsg::Accounts { generation, result: Err("not logged in".into()) }]);
    assert_eq!(picker.error, Some("not logged in".to_string()));
    assert!(!picker.loading);
}
