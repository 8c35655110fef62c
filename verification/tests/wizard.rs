//! Setup-flow behavior: the linear step sequence, toggles and pairing
//! input.

use macula_console::controller::Key;
use macula_console::wizard::{
    checkbox, network_mode_label, paired_label, pairing_code_display, step_marker, App, Step,
};

#[test]
fn steps_are_fixed_and_ordered() {
    let all = Step::all();
    assert_eq!(
        all,
        [
            Step::Welcome,
            Step::Network,
            Step::Identity,
            Step::Realm,
            Step::Portal,
            Step::Summary,
        ]
    );
    assert_eq!(Step::Welcome.index(), 0);
    assert_eq!(Step::Summary.index(), 5);
    assert_eq!(Step::Network.title(), "Network");
    assert_eq!(Step::Portal.title(), "Portal");
}

#[test]
fn steps_clamp_at_both_ends() {
    let mut app = App::new("https://portal.example");
    assert_eq!(app.step, Step::Welcome);
    app.prev_step();
    assert_eq!(app.step, Step::Welcome);
    for _ in 0..10 {
        app.next_step();
    }
    assert_eq!(app.step, Step::Summary);
}

#[test]
fn enter_walks_forward_and_finishes_on_summary() {
    let mut app = App::new("https://portal.example");
    app.handle_key(Key::Enter);
    assert_eq!(app.step, Step::Network);
    app.handle_key(Key::Right);
    assert_eq!(app.step, Step::Identity);
    app.handle_key(Key::Left);
    assert_eq!(app.step, Step::Network);
    app.handle_key(Key::Backspace);
    assert_eq!(app.step, Step::Welcome);
    for _ in 0..5 {
        app.handle_key(Key::Enter);
    }
    assert_eq!(app.step, Step::Summary);
    assert!(!app.should_quit);
    app.handle_key(Key::Enter);
    assert!(app.should_quit);
    assert_eq!(app.step, Step::Summary);
}

#[test]
fn quit_keys_cancel_anywhere() {
    let mut app = App::new("https://portal.example");
    app.handle_key(Key::Enter);
    app.handle_key(Key::Char('q'));
    assert!(app.should_quit);
    let mut app2 = App::new("https://portal.example");
    app2.handle_key(Key::Esc);
    assert!(app2.should_quit);
}

#[test]
fn tab_toggles_network_mode_into_the_config() {
    let mut app = App::new("https://portal.example");
    assert!(app.dhcp);
    assert!(app.config.network.dhcp);
    app.handle_key(Key::Enter);
    assert_eq!(app.step, Step::Network);
    app.handle_key(Key::Tab);
    assert!(!app.dhcp);
    assert!(!app.config.network.dhcp);
    app.handle_key(Key::Tab);
    assert!(app.dhcp);
    assert!(app.config.network.dhcp);
}

#[test]
fn tab_elsewhere_changes_nothing() {
    let mut app = App::new("https://portal.example");
    app.handle_key(Key::Tab);
    assert!(app.dhcp);
    assert!(!app.skip_portal);
}

#[test]
fn portal_step_collects_an_uppercased_code() {
    let mut app = App::new("https://portal.example");
    for _ in 0..4 {
        app.handle_key(Key::Enter);
    }
    assert_eq!(app.step, Step::Portal);
    app.handle_key(Key::Char('a'));
    app.handle_key(Key::Char('B'));
    app.handle_key(Key::Char('7'));
    assert_eq!(app.pairing_code, "AB7");
    // Once skipping is selected, typing is ignored.
    app.handle_key(Key::Tab);
    assert!(app.skip_portal);
    app.handle_key(Key::Char('c'));
    assert_eq!(app.pairing_code, "AB7");
}

#[test]
fn typing_outside_the_portal_step_is_ignored() {
    let mut app = App::new("https://portal.example");
    app.handle_key(Key::Char('a'));
    assert_eq!(app.pairing_code, "");
}

#[test]
fn defaults_and_identity_are_set_up_front() {
    let app = App::new("https://portal.example");
    assert_eq!(app.config.realm, "io.macula");
    assert_eq!(app.config.bootstrap_peers, vec!["https://boot.macula.io:443".to_string()]);
    assert_eq!(app.config.network.dns, vec!["1.1.1.1".to_string(), "8.8.8.8".to_string()]);
    assert_eq!(app.config.node_id, None);
    assert_eq!(app.portal_url, "https://portal.example");
    assert!(app.identity.did.starts_with("did:macula:"));
    assert_eq!(app.portal_token, None);
}

#[test]
fn progress_markers_and_labels() {
    assert_eq!(step_marker(Step::Welcome, Step::Identity), "[x]");
    assert_eq!(step_marker(Step::Identity, Step::Identity), "[>]");
    assert_eq!(step_marker(Step::Summary, Step::Identity), "[ ]");
    assert_eq!(checkbox(true), "[x]");
    assert_eq!(checkbox(false), "[ ]");
    assert_eq!(network_mode_label(true), "DHCP");
    assert_eq!(network_mode_label(false), "Static");
    assert_eq!(paired_label(true), "Paired");
    assert_eq!(paired_label(false), "Not paired");
    assert_eq!(pairing_code_display(""), "___-___");
    assert_eq!(pairing_code_display("AB7"), "AB7");
}
