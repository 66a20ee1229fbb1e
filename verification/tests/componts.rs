use gt_trav::componts::{add_tab, close_action, remove_tab, toggle_proxy, toggled_window_state, CloseAction, ProxyCommand, ProxySwitch, TabBar};

fn bar(tabs: &[&str], active: &str) -> TabBar {
    TabBar { visible_tabs: tabs.iter().map(|t| t.to_string()).collect(), active_tab: active.to_string() }
}

#[test]
fn add_new_tab_shows_and_activates_it() {
    let mut b = bar(&["Event Log"], "Event Log");
    add_tab(&mut b, "Proxy".to_string());
    assert_eq!(b.visible_tabs, vec!["Event Log", "Proxy"]);
    assert_eq!(b.active_tab, "Proxy");
}

#[test]
fn add_existing_tab_changes_nothing() {
    let mut b = bar(&["Event Log", "Proxy"], "Event Log");
    add_tab(&mut b, "Proxy".to_string());
    assert_eq!(b.visible_tabs, vec!["Event Log", "Proxy"]);
    assert_eq!(b.active_tab, "Event Log");
}

#[test]
fn remove_active_tab_activates_previous() {
    let mut b = bar(&["Event Log", "A", "B"], "B");
    remove_tab(&mut b, "B".to_string());
    assert_eq!(b.visible_tabs, vec!["Event Log", "A"]);
    assert_eq!(b.active_tab, "A");
}

#[test]
fn remove_inactive_tab_keeps_active() {
    let mut b = bar(&["Event Log", "A", "B"], "B");
    remove_tab(&mut b, "A".to_string());
    assert_eq!(b.visible_tabs, vec!["Event Log", "B"]);
    assert_eq!(b.active_tab, "B");
}

#[test]
fn remove_first_active_tab_falls_back_to_event_log() {
    let mut b = bar(&["A", "Event Log"], "A");
    remove_tab(&mut b, "A".to_string());
    assert_eq!(b.visible_tabs, vec!["Event Log"]);
    assert_eq!(b.active_tab, "Event Log");
}

#[test]
fn remove_active_tab_not_shown_falls_back_to_event_log() {
    let mut b = bar(&["Event Log", "A"], "Z");
    remove_tab(&mut b, "Z".to_string());
    assert_eq!(b.visible_tabs, vec!["Event Log", "A"]);
    assert_eq!(b.active_tab, "Event Log");
}

#[test]
fn event_log_tab_cannot_be_removed() {
    let mut b = bar(&["Event Log", "A"], "Event Log");
    remove_tab(&mut b, "Event Log".to_string());
    assert_eq!(b.visible_tabs, vec!["Event Log", "A"]);
    assert_eq!(b.active_tab, "Event Log");
}

#[test]
fn remove_tab_removes_every_copy() {
    let mut b = bar(&["Event Log", "A", "B", "A"], "B");
    remove_tab(&mut b, "A".to_string());
    assert_eq!(b.visible_tabs, vec!["Event Log", "B"]);
}

#[test]
fn remove_undoes_add() {
    let mut b = bar(&["Event Log", "A"], "A");
    add_tab(&mut b, "B".to_string());
    remove_tab(&mut b, "B".to_string());
    assert_eq!(b.visible_tabs, vec!["Event Log", "A"]);
    assert_eq!(b.active_tab, "A");
}

#[test]
fn add_twice_is_add_once() {
    let mut b = bar(&["Event Log"], "Event Log");
    add_tab(&mut b, "B".to_string());
    add_tab(&mut b, "B".to_string());
    assert_eq!(b.visible_tabs, vec!["Event Log", "B"]);
}

#[test]
fn window_state_flips() {
    assert!(toggled_window_state(false));
    assert!(!toggled_window_state(true));
}

#[test]
fn closing_main_window_exits() {
    assert_eq!(close_action(true), CloseAction::ExitProcess);
    assert_eq!(close_action(false), CloseAction::Hide);
}

#[test]
fn proxy_button_starts_then_stops() {
    let mut switch = ProxySwitch { running: false };
    match toggle_proxy(&mut switch, "127.0.0.1".to_string(), "8080".to_string()) {
        ProxyCommand::Start { host, port } => {
            assert_eq!(host, "127.0.0.1");
            assert_eq!(port, "8080");
        }
        ProxyCommand::Stop => panic!("expected a start"),
    }
    assert!(switch.running);
    assert!(matches!(toggle_proxy(&mut switch, "h".to_string(), "1".to_string()), ProxyCommand::Stop));
    assert!(!switch.running);
}

#[test]
fn presses_alternate_start_and_stop() {
    let mut switch = ProxySwitch { running: false };
    for n in 1..=5u32 {
        let command = toggle_proxy(&mut switch, "h".to_string(), "1".to_string());
        assert_eq!(matches!(command, ProxyCommand::Start { .. }), n % 2 == 1);
        assert_eq!(switch.running, n % 2 == 1);
    }
}
