use speedtest::Command;
use speedtest::LoopMachine;
use speedtest::LoopPhase;
use speedtest::RawSample;
use speedtest::Sample;
use speedtest::Session;
use speedtest::dispatch;
use speedtest::draw_raw;
use speedtest::finish_sample;
use speedtest::frame_data_message;
use speedtest::frame_end_message;
use speedtest::parse_command;

#[test]
fn parse_start_with_duration() {
    let c = parse_command(b"{\"type\":\"start\",\"duration\":2}");
    assert_eq!(c, Command::Start { duration: Some(2) });
}

#[test]
fn parse_start_default() {
    let c = parse_command(b"{\"type\":\"start\"}");
    assert_eq!(c, Command::Start { duration: None });
}

#[test]
fn parse_stop() {
    let c = parse_command(b"{\"type\":\"stop\"}");
    assert_eq!(c, Command::Stop);
}

#[test]
fn parse_whitespace_and_field_order() {
    let c = parse_command(b" {\t\"duration\" : 7 ,\n \"type\" : \"start\" } ");
    assert_eq!(c, Command::Start { duration: Some(7) });
}

#[test]
fn parse_unknown_field_ignored() {
    let c = parse_command(b"{\"type\":\"stop\",\"extra\":\"x\",\"n\":3,\"z\":null}");
    assert_eq!(c, Command::Stop);
}

#[test]
fn parse_null_duration() {
    let c = parse_command(b"{\"type\":\"start\",\"duration\":null}");
    assert_eq!(c, Command::Start { duration: None });
}

#[test]
fn parse_duplicate_key_rejected() {
    let c = parse_command(b"{\"type\":\"start\",\"type\":\"stop\"}");
    assert_eq!(c, Command::Unrecognized);
    let c2 = parse_command(b"{\"type\":\"start\",\"duration\":1,\"duration\":2}");
    assert_eq!(c2, Command::Unrecognized);
}

#[test]
fn parse_wrongly_typed_duration_rejected() {
    let c = parse_command(b"{\"type\":\"start\",\"duration\":\"2\"}");
    assert_eq!(c, Command::Unrecognized);
}

#[test]
fn parse_oversized_duration_rejected() {
    let c = parse_command(b"{\"type\":\"start\",\"duration\":99999999999999999999999}");
    assert_eq!(c, Command::Unrecognized);
    let c2 = parse_command(b"{\"type\":\"start\",\"duration\":18446744073709551615}");
    assert_eq!(c2, Command::Start { duration: Some(u64::MAX) });
}

#[test]
fn parse_malformed_rejected() {
    assert_eq!(parse_command(b"hello"), Command::Unrecognized);
    assert_eq!(parse_command(b""), Command::Unrecognized);
    assert_eq!(parse_command(b"{\"type\":\"start\""), Command::Unrecognized);
    assert_eq!(parse_command(b"{\"type\"}"), Command::Unrecognized);
    assert_eq!(parse_command(b"[1,2]"), Command::Unrecognized);
}

#[test]
fn parse_unknown_kind_rejected() {
    assert_eq!(parse_command(b"{\"type\":\"reset\"}"), Command::Unrecognized);
    assert_eq!(parse_command(b"{\"type\":3}"), Command::Unrecognized);
    assert_eq!(parse_command(b"{}"), Command::Unrecognized);
}

#[test]
fn parse_stop_with_duration_tolerated() {
    // the duration field is well-formed, merely meaningless for a stop
    assert_eq!(parse_command(b"{\"type\":\"stop\",\"duration\":3}"), Command::Stop);
}

#[test]
fn parse_quote_ends_string() {
    // a backslash is an ordinary byte: the quote after it ends the string,
    // and what follows no longer fits the grammar
    assert_eq!(parse_command(b"{\"type\":\"sta\\\"rt\"}"), Command::Unrecognized);
}

#[test]
fn parse_nested_value_rejected() {
    // container values are outside the accepted grammar, so the message is
    // ignored as a whole
    assert_eq!(parse_command(b"{\"a\":{\"b\":1},\"type\":\"stop\"}"), Command::Unrecognized);
    assert_eq!(parse_command(b"{\"a\":[1],\"type\":\"stop\"}"), Command::Unrecognized);
}

#[test]
fn parse_trailing_garbage_rejected() {
    assert_eq!(parse_command(b"{\"type\":\"stop\"} x"), Command::Unrecognized);
}

#[test]
fn frame_end_exact() {
    let bytes = frame_end_message();
    assert_eq!(String::from_utf8(bytes).unwrap(), "{\"type\":\"end\"}");
}

#[test]
fn frame_data_exact() {
    let s = Sample { ping: 15123, jitter: 2500, down: 455000, up: 210000, loss: 200, vortex: 87321 };
    let bytes = frame_data_message(&s);
    assert_eq!(
        String::from_utf8(bytes).unwrap(),
        "{\"type\":\"data\",\"data\":{\"ping\":15.123,\"jitter\":2.500,\"down\":455.000,\"up\":210.000,\"loss\":0.200,\"vortex\":87.321}}"
    );
}

#[test]
fn frame_data_zero_score() {
    let s = Sample { ping: 15000, jitter: 2000, down: 450000, up: 200000, loss: 0, vortex: 0 };
    let text = String::from_utf8(frame_data_message(&s)).unwrap();
    assert!(text.ends_with("\"vortex\":0.000}}"));
    assert!(text.contains("\"loss\":0.000"));
}

#[test]
fn full_run_emits_budget_then_end() {
    let mut session = Session::new();
    let spawn = dispatch(&mut session, &Command::Start { duration: Some(2) });
    assert_eq!(spawn, Some(2));
    let mut machine = LoopMachine::new();
    machine.start(2);
    let mut data_count = 0u64;
    loop {
        let flag = session.is_running();
        if !machine.tick_check(flag) {
            break;
        }
        data_count += 1;
        machine.note_sent();
    }
    let end_bytes = frame_end_message();
    assert_eq!(end_bytes.len(), 14);
    machine.drain(&mut session);
    assert_eq!(data_count, 20);
    assert!(!session.is_running());
    assert_eq!(machine.phase, LoopPhase::Terminated);
}

#[test]
fn stop_cancels_promptly_and_restart_succeeds() {
    let mut session = Session::new();
    let spawn = dispatch(&mut session, &Command::Start { duration: None });
    assert_eq!(spawn, Some(15));
    let mut machine = LoopMachine::new();
    machine.start(15);
    let mut data_count = 0u64;
    for _ in 0..2 {
        assert!(machine.tick_check(session.is_running()));
        data_count += 1;
        machine.note_sent();
    }
    // a stop command arrives between ticks
    assert_eq!(dispatch(&mut session, &Command::Stop), None);
    // the next boundary observes it: no further data
    assert!(!machine.tick_check(session.is_running()));
    machine.drain(&mut session);
    assert_eq!(data_count, 2);
    assert!(!session.is_running());
    // a fresh start is accepted again
    assert_eq!(dispatch(&mut session, &Command::Start { duration: Some(1) }), Some(1));
}

#[test]
fn double_start_spawns_once() {
    let mut session = Session::new();
    let first = dispatch(&mut session, &Command::Start { duration: Some(2) });
    let second = dispatch(&mut session, &Command::Start { duration: Some(2) });
    assert_eq!(first, Some(2));
    assert_eq!(second, None);
    assert!(session.is_running());
}

#[test]
fn unrecognized_changes_nothing() {
    let mut session = Session::new();
    assert_eq!(dispatch(&mut session, &parse_command(b"garbage")), None);
    assert!(!session.is_running());
    assert_eq!(dispatch(&mut session, &Command::Start { duration: Some(1) }), Some(1));
    assert_eq!(dispatch(&mut session, &parse_command(b"{\"type\":\"reset\"}")), None);
    assert!(session.is_running());
}

#[test]
fn write_failure_drains() {
    let mut session = Session::new();
    assert!(session.try_begin());
    let mut machine = LoopMachine::new();
    machine.start(5);
    assert!(machine.tick_check(session.is_running()));
    machine.note_write_failed();
    assert_eq!(machine.phase, LoopPhase::Draining);
    machine.drain(&mut session);
    assert!(!session.is_running());
}

#[test]
fn oversized_duration_budget_is_capped() {
    let mut machine = LoopMachine::new();
    machine.start(u64::MAX);
    assert_eq!(machine.ticks_total, u64::MAX);
    let mut machine2 = LoopMachine::new();
    machine2.start(3);
    assert_eq!(machine2.ticks_total, 30);
}

#[test]
fn samples_stay_in_plausible_ranges() {
    let mut saw_zero_loss = false;
    for _ in 0..300 {
        let r = draw_raw();
        assert!((15000..20000).contains(&r.ping));
        assert!((2000..5000).contains(&r.jitter));
        assert!((450000..500000).contains(&r.down));
        assert!((200000..230000).contains(&r.up));
        assert!(r.loss == 0 || r.loss == 200);
        if r.loss == 0 {
            saw_zero_loss = true;
        }
    }
    assert!(saw_zero_loss);
}

#[test]
fn failed_score_becomes_default() {
    let raw = RawSample { ping: 15000, jitter: 2000, down: 450000, up: 200000, loss: 0 };
    let s = finish_sample(&raw, None);
    assert_eq!(s.vortex, 0);
    let s2 = finish_sample(&raw, Some(87500));
    assert_eq!(s2.vortex, 87500);
    assert_eq!(s2.ping, 15000);
}

#[test]
fn session_transitions() {
    let mut session = Session::new();
    assert!(!session.is_running());
    assert!(session.try_begin());
    assert!(session.is_running());
    assert!(!session.try_begin());
    session.end();
    assert!(!session.is_running());
    assert!(session.try_begin());
}
