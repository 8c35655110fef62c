//! Replay behavior of the view models: peer membership, app upserts, the
//! bounded log ring, and cursor navigation.

use macula_console::controller::App;
use macula_console::events::{AppStatus, LogEntry, NatsEvent, PeerInfo};
use macula_console::peers::peer_line;

fn peer(id: &str, address: &str, latency: Option<u32>) -> PeerInfo {
    PeerInfo {
        node_id: id.to_string(),
        address: address.to_string(),
        latency_ms: latency,
        connected_at: None,
    }
}

fn log(n: u64) -> LogEntry {
    LogEntry {
        timestamp: n,
        level: "info".to_string(),
        service: "svc".to_string(),
        message: format!("line {}", n),
    }
}

fn app_status(id: &str, name: &str, status: &str) -> AppStatus {
    AppStatus {
        app_id: id.to_string(),
        name: name.to_string(),
        status: status.to_string(),
        cpu_tenths_percent: None,
        memory_mb: None,
    }
}

#[test]
fn peers_replay_keeps_joined_not_left() {
    let mut app = App::new();
    app.process_events(vec![
        NatsEvent::PeerDiscovered(peer("a", "10.0.0.1", None)),
        NatsEvent::PeerDiscovered(peer("b", "10.0.0.2", Some(7))),
        NatsEvent::PeerDiscovered(peer("c", "10.0.0.3", None)),
        NatsEvent::PeerDisconnected("a".to_string()),
        NatsEvent::PeerDiscovered(peer("b", "10.0.0.9", Some(9))),
    ]);
    let ids: Vec<&str> = app.peers.peers.iter().map(|p| p.node_id.as_str()).collect();
    assert_eq!(ids, vec!["b", "c"]);
    // The duplicate join updated b in place.
    assert_eq!(app.peers.peers[0].address, "10.0.0.9");
    assert_eq!(app.peers.peers[0].latency_ms, Some(9));
    assert_eq!(app.dashboard.peer_count, 2);
}

#[test]
fn peer_rejoin_after_leave_is_back() {
    let mut app = App::new();
    app.process_events(vec![
        NatsEvent::PeerDiscovered(peer("a", "10.0.0.1", None)),
        NatsEvent::PeerDisconnected("a".to_string()),
        NatsEvent::PeerDiscovered(peer("a", "10.0.0.4", None)),
    ]);
    assert_eq!(app.peers.peers.len(), 1);
    assert_eq!(app.peers.peers[0].address, "10.0.0.4");
}

#[test]
fn app_upsert_same_id_twice_keeps_latest_at_position() {
    let mut app = App::new();
    app.process_events(vec![
        NatsEvent::AppStatus(app_status("one", "One", "running")),
        NatsEvent::AppStatus(app_status("two", "Two", "running")),
        NatsEvent::AppStatus(app_status("one", "One", "stopped")),
    ]);
    assert_eq!(app.apps.apps.len(), 2);
    assert_eq!(app.apps.apps[0].app_id, "one");
    assert_eq!(app.apps.apps[0].status, "stopped");
    assert_eq!(app.apps.apps[1].app_id, "two");
}

#[test]
fn log_ring_retains_last_thousand() {
    let mut app = App::new();
    for n in 0..1050u64 {
        app.apply_event(NatsEvent::Log(log(n)));
    }
    assert_eq!(app.logs.entries.len(), 1000);
    // The oldest 50 lines were evicted, oldest first.
    assert_eq!(app.logs.entries[0].message, "line 50");
    assert_eq!(app.logs.entries[999].message, "line 1049");
    for e in &app.logs.entries {
        assert!(e.timestamp >= 50);
    }
}

#[test]
fn log_ring_never_exceeds_capacity() {
    let mut app = App::new();
    for n in 0..2500u64 {
        app.apply_event(NatsEvent::Log(log(n)));
        assert!(app.logs.entries.len() <= 1000);
    }
    assert_eq!(app.logs.entries.len(), 1000);
    assert_eq!(app.logs.entries[0].message, "line 1500");
}

#[test]
fn select_next_then_previous_restores_cursor() {
    let mut app = App::new();
    for i in 0..5 {
        app.apply_event(NatsEvent::PeerDiscovered(peer(
            &format!("p{}", i),
            "10.0.0.1",
            None,
        )));
    }
    for start in 0..5usize {
        app.peers.selected = Some(start);
        app.peers.select_next();
        app.peers.select_previous();
        assert_eq!(app.peers.selected, Some(start));
        app.peers.select_previous();
        app.peers.select_next();
        assert_eq!(app.peers.selected, Some(start));
    }
}

#[test]
fn selection_wraps_at_both_ends() {
    let mut app = App::new();
    for i in 0..3 {
        app.apply_event(NatsEvent::AppStatus(app_status(
            &format!("a{}", i),
            "App",
            "running",
        )));
    }
    app.apps.selected = Some(2);
    app.apps.select_next();
    assert_eq!(app.apps.selected, Some(0));
    app.apps.select_previous();
    assert_eq!(app.apps.selected, Some(2));
}

#[test]
fn selection_stays_absent_on_empty_collections() {
    let mut app = App::new();
    app.peers.select_next();
    assert_eq!(app.peers.selected, None);
    app.apps.select_previous();
    assert_eq!(app.apps.selected, None);
}

#[test]
fn navigation_clears_cursor_once_collection_empties() {
    let mut app = App::new();
    app.apply_event(NatsEvent::PeerDiscovered(peer("a", "10.0.0.1", None)));
    app.peers.select_next();
    assert_eq!(app.peers.selected, Some(0));
    app.apply_event(NatsEvent::PeerDisconnected("a".to_string()));
    // Removal leaves the cursor alone; the next navigation step clears it.
    assert_eq!(app.peers.selected, Some(0));
    app.peers.select_next();
    assert_eq!(app.peers.selected, None);
    // Same for the previous direction on the apps list.
    let mut app2 = App::new();
    app2.apps.selected = Some(3);
    app2.apps.select_previous();
    assert_eq!(app2.apps.selected, None);
}

#[test]
fn navigation_repairs_stale_cursor() {
    let mut app = App::new();
    for i in 0..3 {
        app.apply_event(NatsEvent::PeerDiscovered(peer(
            &format!("p{}", i),
            "10.0.0.1",
            None,
        )));
    }
    // Select the last peer, then shrink the list under the cursor.
    app.peers.selected = Some(2);
    app.apply_event(NatsEvent::PeerDisconnected("p1".to_string()));
    app.apply_event(NatsEvent::PeerDisconnected("p2".to_string()));
    assert_eq!(app.peers.peers.len(), 1);
    assert_eq!(app.peers.selected, Some(2));
    // Stepping back lands on the last valid index, not past the end.
    app.peers.select_previous();
    assert_eq!(app.peers.selected, Some(0));
    // Stepping forward from a stale index wraps to the front too.
    app.peers.selected = Some(5);
    app.peers.select_next();
    assert_eq!(app.peers.selected, Some(0));
}

#[test]
fn batch_and_single_replay_agree() {
    let events = || {
        vec![
            NatsEvent::Connected,
            NatsEvent::PeerDiscovered(peer("a", "10.0.0.1", Some(3))),
            NatsEvent::AppStatus(app_status("one", "One", "running")),
            NatsEvent::Log(log(1)),
            NatsEvent::PeerDisconnected("a".to_string()),
            NatsEvent::Log(log(2)),
        ]
    };
    let mut batched = App::new();
    batched.process_events(events());
    let mut stepped = App::new();
    for e in events() {
        stepped.process_events(vec![e]);
    }
    assert_eq!(batched.tab, stepped.tab);
    assert_eq!(batched.peers.peers, stepped.peers.peers);
    assert_eq!(batched.apps.apps, stepped.apps.apps);
    assert_eq!(batched.logs.entries, stepped.logs.entries);
    assert_eq!(batched.dashboard.peer_count, stepped.dashboard.peer_count);
    assert_eq!(batched.dashboard.connected, stepped.dashboard.connected);
}

#[test]
fn discovered_peer_shows_and_disconnect_removes() {
    let mut app = App::new();
    app.process_events(vec![NatsEvent::PeerDiscovered(peer(
        "p1",
        "10.0.0.2",
        Some(42),
    ))]);
    assert_eq!(app.peers.peers.len(), 1);
    assert_eq!(peer_line(&app.peers.peers[0]), "p1  10.0.0.2  42ms");
    app.process_events(vec![NatsEvent::PeerDisconnected("p1".to_string())]);
    assert!(app.peers.peers.is_empty());
    assert_eq!(app.dashboard.peer_count, 0);
}

#[test]
fn filtered_entries_respect_filters() {
    let mut app = App::new();
    app.apply_event(NatsEvent::Log(LogEntry {
        timestamp: 1,
        level: "info".to_string(),
        service: "alpha".to_string(),
        message: "one".to_string(),
    }));
    app.apply_event(NatsEvent::Log(LogEntry {
        timestamp: 2,
        level: "error".to_string(),
        service: "alpha".to_string(),
        message: "two".to_string(),
    }));
    app.apply_event(NatsEvent::Log(LogEntry {
        timestamp: 3,
        level: "error".to_string(),
        service: "beta".to_string(),
        message: "three".to_string(),
    }));
    assert_eq!(app.logs.filtered_entries().len(), 3);
    app.logs.filter_level = Some("error".to_string());
    let by_level = app.logs.filtered_entries();
    assert_eq!(by_level.len(), 2);
    assert_eq!(by_level[0].message, "two");
    app.logs.filter_service = Some("beta".to_string());
    let both = app.logs.filtered_entries();
    assert_eq!(both.len(), 1);
    assert_eq!(both[0].message, "three");
}

#[test]
fn clear_empties_history_and_resets_scroll() {
    let mut app = App::new();
    for n in 0..30u64 {
        app.apply_event(NatsEvent::Log(log(n)));
    }
    app.logs.scroll_to_bottom();
    assert_eq!(app.logs.scroll, 10);
    app.logs.clear();
    assert!(app.logs.entries.is_empty());
    assert_eq!(app.logs.scroll, 0);
    // The scroll can transiently point past the content; projection clamps.
    app.logs.scroll = 7;
    assert_eq!(app.logs.clamped_scroll(0), 0);
    assert_eq!(app.logs.clamped_scroll(3), 3);
    assert_eq!(app.logs.clamped_scroll(100), 7);
}

#[test]
fn connection_events_drive_indicator() {
    let mut app = App::new();
    assert!(!app.dashboard.connected);
    app.apply_event(NatsEvent::Connected);
    assert!(app.dashboard.connected);
    app.apply_event(NatsEvent::Disconnected);
    assert!(!app.dashboard.connected);
    // A bus error is surfaced outside the core and changes nothing.
    app.apply_event(NatsEvent::Error("boom".to_string()));
    assert!(!app.dashboard.connected);
}
