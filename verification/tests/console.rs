//! Controller behavior (tabs, key routing, commands) and the text
//! projections of the views.

use macula_console::apps::{run_state, status_icon, resources_label, app_row_head, app_row_detail, RunState};
use macula_console::controller::{App, Key, Tab};
use macula_console::dashboard::{connection_label, cpu_label, disk_label, gauge_level, memory_label, percent_of, GaugeLevel};
use macula_console::events::{AppStatus, Command, LogEntry, NatsEvent};
use macula_console::logs::{level_class, log_line, str_eq_ignore_case, LevelClass};
use macula_console::peers::{latency_class, latency_label, LatencyClass};
use macula_console::text::{format_timestamp, format_uptime, pad_right, str_eq, tenths_string, truncate_did, u64_string};

fn app_status(id: &str, status: &str) -> AppStatus {
    AppStatus {
        app_id: id.to_string(),
        name: "Name".to_string(),
        status: status.to_string(),
        cpu_tenths_percent: None,
        memory_mb: None,
    }
}

#[test]
fn tabs_are_fixed_and_ordered() {
    let all = Tab::all();
    assert_eq!(
        all,
        [Tab::Dashboard, Tab::Peers, Tab::Apps, Tab::Logs]
    );
    assert_eq!(Tab::Dashboard.index(), 0);
    assert_eq!(Tab::Logs.index(), 3);
    assert_eq!(Tab::Peers.title(), "Peers");
    assert_eq!(Tab::Apps.title(), "Apps");
}

#[test]
fn quit_keys_set_the_flag() {
    let mut app = App::new();
    assert!(!app.should_quit);
    assert_eq!(app.handle_key(Key::Char('q')), None);
    assert!(app.should_quit);
    let mut app2 = App::new();
    app2.handle_key(Key::Esc);
    assert!(app2.should_quit);
}

#[test]
fn tab_keys_cycle_and_jump() {
    let mut app = App::new();
    assert_eq!(app.tab, Tab::Dashboard);
    app.handle_key(Key::Tab);
    assert_eq!(app.tab, Tab::Peers);
    app.handle_key(Key::Tab);
    app.handle_key(Key::Tab);
    app.handle_key(Key::Tab);
    assert_eq!(app.tab, Tab::Dashboard);
    app.handle_key(Key::BackTab);
    assert_eq!(app.tab, Tab::Logs);
    app.handle_key(Key::Char('3'));
    assert_eq!(app.tab, Tab::Apps);
    app.handle_key(Key::Char('1'));
    assert_eq!(app.tab, Tab::Dashboard);
}

#[test]
fn switching_tabs_keeps_state() {
    let mut app = App::new();
    app.apply_event(NatsEvent::AppStatus(app_status("one", "running")));
    app.handle_key(Key::Char('4'));
    app.handle_key(Key::Char('3'));
    assert_eq!(app.apps.apps.len(), 1);
}

#[test]
fn action_keys_need_a_selection() {
    let mut app = App::new();
    app.handle_key(Key::Char('3'));
    // No selection: all action keys are no-ops producing no command.
    assert_eq!(app.handle_key(Key::Char('s')), None);
    assert_eq!(app.handle_key(Key::Char('x')), None);
    assert_eq!(app.handle_key(Key::Char('r')), None);
    app.apply_event(NatsEvent::AppStatus(app_status("one", "running")));
    app.handle_key(Key::Down);
    assert_eq!(
        app.handle_key(Key::Char('s')),
        Some(Command::StartApp { app_id: "one".to_string() })
    );
    assert_eq!(
        app.handle_key(Key::Char('x')),
        Some(Command::StopApp { app_id: "one".to_string() })
    );
    assert_eq!(
        app.handle_key(Key::Char('r')),
        Some(Command::RestartApp { app_id: "one".to_string() })
    );
}

#[test]
fn navigation_keys_route_to_the_active_tab() {
    let mut app = App::new();
    app.apply_event(NatsEvent::AppStatus(app_status("one", "running")));
    // On the dashboard, j/k do nothing.
    app.handle_key(Key::Char('j'));
    assert_eq!(app.apps.selected, None);
    app.handle_key(Key::Char('3'));
    app.handle_key(Key::Char('j'));
    assert_eq!(app.apps.selected, Some(0));
    // On the logs tab, j scrolls instead.
    app.handle_key(Key::Char('4'));
    app.handle_key(Key::Char('j'));
    assert_eq!(app.logs.scroll, 1);
    app.handle_key(Key::Char('k'));
    assert_eq!(app.logs.scroll, 0);
    app.handle_key(Key::Char('k'));
    assert_eq!(app.logs.scroll, 0);
}

#[test]
fn disconnected_console_still_navigates() {
    let mut app = App::new();
    assert_eq!(connection_label(app.dashboard.connected), "Disconnected");
    app.handle_key(Key::Char('3'));
    assert_eq!(app.tab, Tab::Apps);
    assert_eq!(app.handle_key(Key::Char('s')), None);
    assert!(!app.should_quit);
    assert_eq!(connection_label(true), "Connected");
}

#[test]
fn help_text_follows_the_tab() {
    let mut app = App::new();
    assert_eq!(app.help_text(), "q: Quit | Tab: Next tab | 1-4: Switch tab");
    app.handle_key(Key::Char('4'));
    assert_eq!(
        app.help_text(),
        "q: Quit | Tab: Next tab | j/k: Scroll | G: Bottom | c: Clear"
    );
}

#[test]
fn timestamps_render_time_of_day() {
    assert_eq!(format_timestamp(0), "00:00:00");
    assert_eq!(format_timestamp(3661), "01:01:01");
    assert_eq!(format_timestamp(86399), "23:59:59");
    assert_eq!(format_timestamp(86400 + 4 * 3600 + 5 * 60 + 6), "04:05:06");
}

#[test]
fn uptime_keeps_leading_units() {
    assert_eq!(format_uptime(59), "0m");
    assert_eq!(format_uptime(60), "1m");
    assert_eq!(format_uptime(3600 + 120), "1h 2m");
    assert_eq!(format_uptime(2 * 86400 + 3 * 3600 + 240), "2d 3h 4m");
}

#[test]
fn numbers_render_in_decimal() {
    assert_eq!(u64_string(0), "0");
    assert_eq!(u64_string(42), "42");
    assert_eq!(u64_string(987654321), "987654321");
    assert_eq!(tenths_string(125), "12.5");
    assert_eq!(tenths_string(7), "0.7");
}

#[test]
fn identifiers_truncate_with_ellipsis() {
    assert_eq!(truncate_did("short", 24), "short");
    assert_eq!(
        truncate_did("did:macula:AAAABBBBCCCCDDDDEEEE", 24),
        "did:macula:AAAABBBBCC..."
    );
    assert_eq!(truncate_did("abc", 3), "abc");
    assert_eq!(truncate_did("abcd", 3), "...");
}

#[test]
fn padding_and_string_equality() {
    assert_eq!(pad_right("info", 5), "info ");
    assert_eq!(pad_right("warning", 5), "warning");
    assert!(str_eq("same", "same"));
    assert!(!str_eq("same", "Same"));
}

#[test]
fn levels_classify_case_insensitively() {
    assert!(str_eq_ignore_case("ERROR", "error"));
    assert!(!str_eq_ignore_case("erro", "error"));
    assert_eq!(level_class("error"), LevelClass::Error);
    assert_eq!(level_class("ERR"), LevelClass::Error);
    assert_eq!(level_class("Warning"), LevelClass::Warn);
    assert_eq!(level_class("warn"), LevelClass::Warn);
    assert_eq!(level_class("INFO"), LevelClass::Info);
    assert_eq!(level_class("debug"), LevelClass::Debug);
    assert_eq!(level_class("TRACE"), LevelClass::Trace);
    assert_eq!(level_class("notice"), LevelClass::Other);
}

#[test]
fn log_lines_render_fixed_columns() {
    let e = LogEntry {
        timestamp: 3661,
        level: "info".to_string(),
        service: "mesh".to_string(),
        message: "peer seen".to_string(),
    };
    assert_eq!(log_line(&e), "01:01:01 info  [mesh] peer seen");
}

#[test]
fn run_states_and_icons() {
    assert_eq!(run_state("running"), RunState::Running);
    assert_eq!(run_state("stopped"), RunState::Stopped);
    assert_eq!(run_state("error"), RunState::Error);
    assert_eq!(run_state("Running"), RunState::Unknown);
    assert_eq!(status_icon(RunState::Running), "[R]");
    assert_eq!(status_icon(RunState::Stopped), "[S]");
    assert_eq!(status_icon(RunState::Error), "[E]");
    assert_eq!(status_icon(RunState::Unknown), "[?]");
}

#[test]
fn app_rows_render_name_status_and_resources() {
    let mut a = app_status("app-1", "running");
    a.name = "Web".to_string();
    assert_eq!(resources_label(&a), "");
    assert_eq!(app_row_head(&a), "[R] Web  running");
    assert_eq!(app_row_detail(&a), "   app-1");
    a.cpu_tenths_percent = Some(125);
    a.memory_mb = Some(64);
    assert_eq!(resources_label(&a), "CPU: 12.5% | Mem: 64 MB");
    assert_eq!(app_row_detail(&a), "   app-1  CPU: 12.5% | Mem: 64 MB");
}

#[test]
fn latency_ranks_and_labels() {
    assert_eq!(latency_class(Some(10)), LatencyClass::Good);
    assert_eq!(latency_class(Some(50)), LatencyClass::Fair);
    assert_eq!(latency_class(Some(149)), LatencyClass::Fair);
    assert_eq!(latency_class(Some(150)), LatencyClass::Poor);
    assert_eq!(latency_class(None), LatencyClass::Unmeasured);
    assert_eq!(latency_label(Some(42)), "42ms");
    assert_eq!(latency_label(None), "?");
}

#[test]
fn gauges_rank_and_label() {
    assert_eq!(percent_of(0, 0), 100);
    assert_eq!(percent_of(512, 1024), 50);
    assert_eq!(percent_of(2048, 1024), 100);
    assert_eq!(gauge_level(905), GaugeLevel::Critical);
    assert_eq!(gauge_level(900), GaugeLevel::High);
    assert_eq!(gauge_level(701), GaugeLevel::High);
    assert_eq!(gauge_level(700), GaugeLevel::Normal);
    assert_eq!(memory_label(512, 1024), "512/1024 MB");
    assert_eq!(disk_label(15, 1000), "1.5/100.0 GB");
    assert_eq!(cpu_label(333), "33.3%");
}

#[test]
fn view_titles_carry_counts() {
    let mut app = App::new();
    assert_eq!(app.peers.title(), "Peers (0)");
    assert_eq!(app.apps.title(), "Apps (0)");
    app.apply_event(NatsEvent::AppStatus(app_status("one", "running")));
    assert_eq!(app.apps.title(), "Apps (1)");
    assert_eq!(
        app.logs.title(),
        "Logs (0) - j/k: scroll | G: bottom | c: clear"
    );
}
