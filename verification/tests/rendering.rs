use wallet_tui::app::{App, Key};
use wallet_tui::render::{
    advance_hint, hint_message, hint_rotation_due, render, RenderModel, HINT_COUNT,
};

#[test]
fn select_screen_marks_the_cursor_line() {
    let mut app = App::new();
    let _ = app.handle_key(Key::Down);
    match render(&app, 0) {
        RenderModel::SelectScreen { title, lines, selected } => {
            assert_eq!(title, "Escolha sua rede blockchain:");
            assert_eq!(selected, 1);
            assert_eq!(lines, vec!["- Ethereum", ">> Polygon", "- Optimism"]);
        },
        _ => panic!("selection state must render the network list"),
    }
}

#[test]
fn address_screen_shows_input_hint_and_error() {
    let mut app = App::new();
    let _ = app.handle_key(Key::Char('e'));
    let _ = app.handle_key(Key::Char('a'));
    let _ = app.handle_key(Key::Char('b'));
    match render(&app, 2) {
        RenderModel::AddressScreen { title, input, hint, error } => {
            assert_eq!(title, "Digite o endereço da wallet:");
            assert_eq!(input, "ab");
            assert_eq!(hint, "Insira sua carteira Ethereum..");
            assert_eq!(error, "");
        },
        _ => panic!("address state must render the prompt"),
    }
    let _ = app.handle_key(Key::Enter);
    match render(&app, 0) {
        RenderModel::AddressScreen { error, .. } => {
            assert_eq!(error, "Invalid wallet address.");
        },
        _ => panic!("an invalid submission must stay on the prompt"),
    }
}

#[test]
fn balance_screen_shows_output() {
    let mut app = App::new();
    let _ = app.handle_key(Key::Char('e'));
    for c in "0x0000000000000000000000000000000000000000".chars() {
        let _ = app.handle_key(Key::Char(c));
    }
    let _ = app.handle_key(Key::Enter);
    app.show_balance("The wallet has 0 USDC.".to_string());
    match render(&app, 0) {
        RenderModel::BalanceScreen { title, balance } => {
            assert_eq!(title, "Saldo da Wallet");
            assert_eq!(balance, "The wallet has 0 USDC.");
        },
        _ => panic!("balance state must render the balance text"),
    }
}

#[test]
fn rendering_is_a_pure_description() {
    let app = App::new();
    let first = match render(&app, 0) {
        RenderModel::SelectScreen { lines, .. } => lines,
        _ => panic!("selection state must render the network list"),
    };
    let second = match render(&app, 0) {
        RenderModel::SelectScreen { lines, .. } => lines,
        _ => panic!("selection state must render the network list"),
    };
    assert_eq!(first, second);
}

#[test]
fn hint_messages_rotate_and_wrap() {
    assert_eq!(hint_message(0), "Insira sua carteira Ethereum...");
    assert_eq!(hint_message(1), "Insira sua carteira Ethereum.");
    assert_eq!(hint_message(2), "Insira sua carteira Ethereum..");
    assert_eq!(hint_message(3), "Insira sua carteira Ethereum...");
    let mut idx: usize = 0;
    for _ in 0..HINT_COUNT {
        idx = advance_hint(idx);
    }
    assert_eq!(idx, 0);
}

#[test]
fn hint_rotates_only_after_a_full_interval() {
    assert!(!hint_rotation_due(0, 250));
    assert!(!hint_rotation_due(249, 250));
    assert!(hint_rotation_due(250, 250));
    assert!(hint_rotation_due(1000, 250));
}
