use cmd_dispatch::codec::{parse_message, Message, FRAME_LEN, NOOP, SHUTDOWN};
use cmd_dispatch::handler::{
    frame_from, handle_read, keep_accepting, AcceptEvent, ReadOutcome, Report, READ_TIMEOUT_MS,
};
use cmd_dispatch::table::{entry_at, CommandTable};
use cmd_dispatch::worker::{Action, Dispatcher};

fn strings(items: &[&str]) -> Vec<String> {
    items.iter().map(|s| s.to_string()).collect()
}

fn table() -> CommandTable {
    CommandTable {
        commands_1: strings(&["a", "b", "c"]),
        commands_2: strings(&["two"]),
        commands_3: strings(&[]),
        commands_4: strings(&["four-0", "four-1"]),
    }
}

fn run_of(a: Action) -> Option<String> {
    match a {
        Action::Run(s) => Some(s),
        _ => None,
    }
}

#[test]
fn decode_well_formed_frame() {
    let m = parse_message(&[0, 0, 0, 1, 2, 255, 255, 255]);
    assert_eq!(m, Message { command: 1, value: 2 });
    let m = parse_message(&[0, 0, 0, 200, 17, 255, 255, 255]);
    assert_eq!(m, Message { command: 200, value: 17 });
}

#[test]
fn decode_bad_header_is_noop() {
    for i in 0..3 {
        let mut f = [0, 0, 0, 1, 2, 255, 255, 255];
        f[i] = 9;
        assert_eq!(parse_message(&f), Message { command: 0, value: 0 });
    }
}

#[test]
fn decode_bad_trailer_is_noop() {
    for i in 5..8 {
        let mut f = [0, 0, 0, 1, 2, 255, 255, 255];
        f[i] = 254;
        assert_eq!(parse_message(&f), Message { command: 0, value: 0 });
    }
}

#[test]
fn shutdown_code_in_malformed_frame_is_noop() {
    let m = parse_message(&[1, 0, 0, 255, 0, 255, 255, 255]);
    assert_eq!(m.command, NOOP);
    assert!(!m.is_shutdown());
    let r = handle_read(&ReadOutcome::Received(vec![0, 0, 0, 255, 0, 255, 255, 0]));
    assert!(!r.shutdown);
}

#[test]
fn select_entries_by_code_and_index() {
    let t = table();
    assert_eq!(t.select(1, 0), Some("a".to_string()));
    assert_eq!(t.select(1, 2), Some("c".to_string()));
    assert_eq!(t.select(2, 0), Some("two".to_string()));
    assert_eq!(t.select(4, 1), Some("four-1".to_string()));
    assert_eq!(t.select(1, 3), None);
    assert_eq!(t.select(3, 0), None);
    assert_eq!(t.select(0, 0), None);
    assert_eq!(t.select(5, 0), None);
    assert_eq!(t.select(SHUTDOWN, 0), None);
}

#[test]
fn entry_at_bounds() {
    let l = strings(&["x", "y"]);
    assert_eq!(entry_at(&l, 1), Some("y".to_string()));
    assert_eq!(entry_at(&l, 2), None);
    assert_eq!(entry_at(&Vec::new(), 0), None);
}

#[test]
fn frame_selects_third_command() {
    let r = handle_read(&ReadOutcome::Received(vec![0, 0, 0, 1, 2, 255, 255, 255]));
    assert_eq!(r, Report { message: Some(Message { command: 1, value: 2 }), shutdown: false });
    let mut d = Dispatcher::new(table());
    let runs: Vec<String> = vec![r.message.unwrap()]
        .into_iter()
        .filter_map(|m| run_of(d.handle(m)))
        .collect();
    assert_eq!(runs, vec!["c".to_string()]);
    assert!(d.is_running());
}

#[test]
fn out_of_range_index_runs_nothing() {
    let r = handle_read(&ReadOutcome::Received(vec![0, 0, 0, 1, 5, 255, 255, 255]));
    assert_eq!(r, Report { message: Some(Message { command: 1, value: 5 }), shutdown: false });
    assert!(keep_accepting(&AcceptEvent::Handled(r)));
    let mut d = Dispatcher::new(table());
    assert!(matches!(d.handle(r.message.unwrap()), Action::Idle));
    assert!(d.is_running());
}

#[test]
fn unknown_and_noop_codes_are_ignored() {
    let mut d = Dispatcher::new(table());
    assert!(matches!(d.handle(Message { command: 0, value: 0 }), Action::Idle));
    assert!(matches!(d.handle(Message { command: 7, value: 0 }), Action::Idle));
    assert!(matches!(d.handle(Message { command: 254, value: 1 }), Action::Idle));
    assert!(d.is_running());
}

#[test]
fn shutdown_frame_stops_loop_and_worker() {
    let r = handle_read(&ReadOutcome::Received(vec![0, 0, 0, 255, 9, 255, 255, 255]));
    assert_eq!(r, Report { message: Some(Message { command: 255, value: 9 }), shutdown: true });
    assert!(!keep_accepting(&AcceptEvent::Handled(r)));

    let mut d = Dispatcher::new(table());
    let first = d.handle(Message { command: 1, value: 0 });
    assert_eq!(run_of(first), Some("a".to_string()));
    assert!(matches!(d.handle(r.message.unwrap()), Action::Stop));
    assert!(!d.is_running());
    assert!(matches!(d.handle(Message { command: 1, value: 1 }), Action::Stop));
    assert!(!d.is_running());
}

#[test]
fn two_connections_run_in_order() {
    let mut d = Dispatcher::new(table());
    let mut runs = Vec::new();
    for frame in [vec![0, 0, 0, 1, 1, 255, 255, 255], vec![0, 0, 0, 1, 0, 255, 255, 255]] {
        let r = handle_read(&ReadOutcome::Received(frame));
        assert!(keep_accepting(&AcceptEvent::Handled(r)));
        if let Some(s) = run_of(d.handle(r.message.unwrap())) {
            runs.push(s);
        }
    }
    assert_eq!(runs, vec!["b".to_string(), "a".to_string()]);
}

#[test]
fn short_read_dispatches_nothing() {
    let mut d = Dispatcher::new(table());
    for data in [vec![0u8], vec![0, 0, 0, 1, 2], vec![0, 0, 0, 1, 2, 255, 255]] {
        let r = handle_read(&ReadOutcome::Received(data));
        assert_eq!(r, Report { message: Some(Message { command: 0, value: 0 }), shutdown: false });
        assert!(matches!(d.handle(r.message.unwrap()), Action::Idle));
    }
    let r = handle_read(&ReadOutcome::Received(Vec::new()));
    assert_eq!(r, Report { message: None, shutdown: false });
    assert!(keep_accepting(&AcceptEvent::Handled(r)));
}

#[test]
fn failed_read_moves_on() {
    assert_eq!(READ_TIMEOUT_MS, 5000);
    let r = handle_read(&ReadOutcome::Failed);
    assert_eq!(r, Report { message: None, shutdown: false });
    assert!(keep_accepting(&AcceptEvent::Handled(r)));
    assert!(keep_accepting(&AcceptEvent::Failed));
}

#[test]
fn frame_from_pads_with_zeros() {
    assert_eq!(frame_from(&[7, 8, 9]), [7, 8, 9, 0, 0, 0, 0, 0]);
    assert_eq!(frame_from(&[]), [0u8; FRAME_LEN]);
    assert_eq!(frame_from(&[1, 2, 3, 4, 5, 6, 7, 8]), [1, 2, 3, 4, 5, 6, 7, 8]);
}
