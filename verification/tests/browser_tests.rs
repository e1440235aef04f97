use podtail::browser::{
    column_widths, header, on_key, poll_timeout, tick_due, ActionItem, ContainerState, Event, Key,
    KubePod, PodInfo, Reaction, UIEvent, TICK_RATE_MS,
};

fn container(ready: bool, restart_count: i32) -> ContainerState {
    ContainerState { ready, restart_count }
}

#[test]
fn pod_row_sums_up_the_containers() {
    let pod = PodInfo {
        name: "web-1".to_string(),
        containers: Some(vec![container(true, 2), container(false, 5), container(true, 0)]),
        phase: Some("Running".to_string()),
    };
    let row = KubePod::new(&pod);
    assert_eq!(row.name, "web-1");
    assert_eq!(row.ready, 2);
    assert_eq!(row.container_count, 3);
    assert_eq!(row.restart_count, 7);
    assert_eq!(row.status, "Running");
}

#[test]
fn pod_without_status_has_an_empty_row() {
    let pod = PodInfo { name: "new".to_string(), containers: None, phase: None };
    let row = KubePod::new(&pod);
    assert_eq!(row.name, "new");
    assert_eq!(row.ready, 0);
    assert_eq!(row.container_count, 0);
    assert_eq!(row.restart_count, 0);
    assert_eq!(row.status, "");
}

#[test]
fn pod_with_no_containers() {
    let pod = PodInfo {
        name: "idle".to_string(),
        containers: Some(Vec::new()),
        phase: Some("Pending".to_string()),
    };
    let row = KubePod::new(&pod);
    assert_eq!(row.ready, 0);
    assert_eq!(row.container_count, 0);
    assert_eq!(row.restart_count, 0);
    assert_eq!(row.status, "Pending");
}

#[test]
fn restart_counts_may_reach_the_limit() {
    let pod = PodInfo {
        name: "flaky".to_string(),
        containers: Some(vec![container(true, i32::MAX), container(true, -5), container(false, 5)]),
        phase: None,
    };
    let row = KubePod::new(&pod);
    assert_eq!(row.restart_count, i32::MAX);
    assert_eq!(row.ready, 2);
}

#[test]
fn row_cells() {
    let row = KubePod {
        name: "web-1".to_string(),
        ready: 1,
        container_count: 2,
        status: "Running".to_string(),
        restart_count: 13,
    };
    assert_eq!(row.row(), vec!["web-1", "1/2", "13", "Running"]);
    let odd = KubePod {
        name: String::new(),
        ready: 0,
        container_count: 0,
        status: String::new(),
        restart_count: -1,
    };
    assert_eq!(odd.row(), vec!["", "0/0", "-1", ""]);
}

#[test]
fn table_header_and_widths() {
    assert_eq!(header(), vec!["Name", "Ready", "Restarts", "Status"]);
    assert_eq!(column_widths(), vec![20, 5, 5, 70]);
    assert_eq!(column_widths().iter().sum::<u16>(), 100);
}

#[test]
fn home_is_the_first_page() {
    assert_eq!(usize::from(ActionItem::Home), 0);
}

#[test]
fn q_quits() {
    assert_eq!(on_key(Key::Char('q'), ActionItem::Home, Some(1), 3), Reaction::Quit);
    assert_eq!(on_key(Key::Char('q'), ActionItem::Home, None, 0), Reaction::Quit);
}

#[test]
fn down_moves_to_the_next_row_and_wraps() {
    for key in [Key::Down, Key::Char('j')] {
        assert_eq!(on_key(key, ActionItem::Home, Some(0), 3), Reaction::Select(1));
        assert_eq!(on_key(key, ActionItem::Home, Some(1), 3), Reaction::Select(2));
        assert_eq!(on_key(key, ActionItem::Home, Some(2), 3), Reaction::Select(0));
        assert_eq!(on_key(key, ActionItem::Home, Some(9), 3), Reaction::Select(0));
        assert_eq!(on_key(key, ActionItem::Home, Some(0), 1), Reaction::Select(0));
        assert_eq!(on_key(key, ActionItem::Home, None, 3), Reaction::Stay);
    }
}

#[test]
fn up_moves_to_the_previous_row_and_wraps() {
    for key in [Key::Up, Key::Char('k')] {
        assert_eq!(on_key(key, ActionItem::Home, Some(2), 3), Reaction::Select(1));
        assert_eq!(on_key(key, ActionItem::Home, Some(1), 3), Reaction::Select(0));
        assert_eq!(on_key(key, ActionItem::Home, Some(0), 3), Reaction::Select(2));
        assert_eq!(on_key(key, ActionItem::Home, Some(0), 1), Reaction::Select(0));
        assert_eq!(on_key(key, ActionItem::Home, None, 3), Reaction::Stay);
    }
}

#[test]
fn other_keys_do_nothing() {
    assert_eq!(on_key(Key::Other, ActionItem::Home, Some(1), 3), Reaction::Stay);
    assert_eq!(on_key(Key::Char('x'), ActionItem::Home, Some(1), 3), Reaction::Stay);
    assert_eq!(on_key(Key::Char('Q'), ActionItem::Home, Some(1), 3), Reaction::Stay);
    assert_eq!(on_key(Key::Char('J'), ActionItem::Home, Some(1), 3), Reaction::Stay);
}

#[test]
fn poll_waits_for_the_rest_of_the_tick() {
    assert_eq!(TICK_RATE_MS, 200);
    assert_eq!(poll_timeout(200, 0), 200);
    assert_eq!(poll_timeout(200, 150), 50);
    assert_eq!(poll_timeout(200, 200), 0);
    assert_eq!(poll_timeout(200, 900), 0);
}

#[test]
fn tick_is_due_once_the_rate_has_passed() {
    assert!(!tick_due(200, 0));
    assert!(!tick_due(200, 199));
    assert!(tick_due(200, 200));
    assert!(tick_due(200, 201));
}

#[test]
fn events_can_be_cloned() {
    let input: Event<char> = Event::Input('x');
    assert!(matches!(input.clone(), Event::Input('x')));
    let tick: Event<char> = Event::Tick;
    assert!(matches!(tick.clone(), Event::Tick));
}

#[test]
fn refresh_carries_the_rows() {
    let row = KubePod {
        name: "web-1".to_string(),
        ready: 1,
        container_count: 1,
        status: "Running".to_string(),
        restart_count: 0,
    };
    let UIEvent::RefreshPods(rows) = UIEvent::RefreshPods(vec![row.clone(), row]).clone();
    assert_eq!(rows.len(), 2);
    assert_eq!(rows[1].name, "web-1");
}

#[test]
fn move_keys_do_nothing_in_an_empty_table() {
    for key in [Key::Down, Key::Char('j'), Key::Up, Key::Char('k')] {
        assert_eq!(on_key(key, ActionItem::Home, Some(0), 0), Reaction::Stay);
        assert_eq!(on_key(key, ActionItem::Home, Some(3), 0), Reaction::Stay);
        assert_eq!(on_key(key, ActionItem::Home, Some(usize::MAX), 0), Reaction::Stay);
        assert_eq!(on_key(key, ActionItem::Home, None, 0), Reaction::Stay);
    }
    assert_eq!(on_key(Key::Other, ActionItem::Home, Some(0), 0), Reaction::Stay);
}

#[test]
fn selection_in_the_table_stays_in_the_table() {
    for rows in 1..6usize {
        for selected in 0..rows {
            for key in [Key::Down, Key::Char('j'), Key::Up, Key::Char('k')] {
                match on_key(key, ActionItem::Home, Some(selected), rows) {
                    Reaction::Select(row) => assert!(row < rows),
                    other => panic!("{:?}", other),
                }
            }
        }
    }
}
