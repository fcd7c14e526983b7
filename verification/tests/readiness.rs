use sisr::readiness::{
    backoff_secs, FailKind, FatalReason, GateAction, GateEvent, GatePhase, ReadinessGate,
};

fn gate(loopback: bool) -> ReadinessGate {
    ReadinessGate::new(loopback, false, "0.4.0".to_string(), true)
}

fn answer(server: &str, version: &str) -> GateEvent {
    GateEvent::PingResponse { server: server.to_string(), version: version.to_string() }
}

#[test]
fn backoff_schedule() {
    let secs: Vec<u64> = (0..5).map(backoff_secs).collect();
    assert_eq!(secs, vec![1, 1, 2, 4, 6]);
}

#[test]
fn a_good_server_is_ready_at_the_first_ping() {
    let mut g = gate(false);
    assert_eq!(g.phase(), GatePhase::Idle);
    assert!(matches!(g.step(GateEvent::Start), GateAction::Ping));
    match g.step(answer("VIIPER", "0.4.2")) {
        GateAction::NotifyReady { version } => assert_eq!(version, "0.4.2"),
        other => panic!("{:?}", other),
    }
    assert!(g.ready());
    assert_eq!(g.version().as_deref(), Some("0.4.2"));
    assert_eq!(g.attempt(), 0);
    assert!(matches!(g.step(GateEvent::PingFailed), GateAction::Nothing));
    assert!(matches!(g.step(GateEvent::Start), GateAction::Nothing));
    assert!(g.ready());
}

#[test]
fn another_product_is_fatal() {
    let mut g = gate(true);
    g.step(GateEvent::Start);
    match g.step(answer("viiper", "9.9.9")) {
        GateAction::Fail(FatalReason::WrongServer { server }) => assert_eq!(server, "viiper"),
        other => panic!("{:?}", other),
    }
    assert_eq!(g.phase(), GatePhase::Failed(FailKind::WrongServer));
    assert!(!g.ready());
    assert_eq!(g.version(), None);
}

#[test]
fn an_old_server_is_fatal_unless_it_is_an_allowed_dev_build() {
    let mut g = gate(true);
    g.step(GateEvent::Start);
    match g.step(answer("VIIPER", "0.3.9")) {
        GateAction::Fail(FatalReason::TooOld { version }) => assert_eq!(version, "0.3.9"),
        other => panic!("{:?}", other),
    }
    assert_eq!(g.phase(), GatePhase::Failed(FailKind::TooOld));

    let mut dev = gate(true);
    dev.step(GateEvent::Start);
    assert!(matches!(dev.step(answer("VIIPER", "0.1.0-dev")), GateAction::NotifyReady { .. }));

    let mut strict = ReadinessGate::new(true, false, "0.4.0".to_string(), false);
    strict.step(GateEvent::Start);
    assert!(matches!(
        strict.step(answer("VIIPER", "0.1.0-dev")),
        GateAction::Fail(FatalReason::TooOld { .. })
    ));
}

#[test]
fn a_silent_remote_server_is_given_up_after_five_pings() {
    let mut g = gate(false);
    let mut log: Vec<String> = Vec::new();
    log.push(format!("{:?}", g.step(GateEvent::Start)));
    for _ in 0..5 {
        log.push(format!("{:?}", g.step(GateEvent::PingFailed)));
        log.push(format!("{:?}", g.step(GateEvent::SleepFinished)));
    }
    assert_eq!(
        log,
        vec![
            "Ping",
            "Sleep { secs: 1 }",
            "Ping",
            "Sleep { secs: 1 }",
            "Ping",
            "Sleep { secs: 2 }",
            "Ping",
            "Sleep { secs: 4 }",
            "Ping",
            "Sleep { secs: 6 }",
            "Fail(Unavailable)",
        ]
    );
    assert_eq!(g.phase(), GatePhase::Failed(FailKind::Unavailable));
    assert_eq!(g.attempt(), 5);
    assert!(matches!(g.step(GateEvent::SleepFinished), GateAction::Nothing));
}

#[test]
fn a_silent_local_server_is_started_once() {
    let mut g = gate(true);
    let mut spawns = 0;
    let mut pings = 0;
    let mut action = g.step(GateEvent::Start);
    let mut sleeps: Vec<u64> = Vec::new();
    loop {
        action = match action {
            GateAction::Ping => {
                pings += 1;
                g.step(GateEvent::PingFailed)
            }
            GateAction::Spawn => {
                spawns += 1;
                g.step(GateEvent::SpawnFinished { ok: true })
            }
            GateAction::Sleep { secs } => {
                sleeps.push(secs);
                g.step(GateEvent::SleepFinished)
            }
            GateAction::Fail(reason) => {
                assert!(matches!(reason, FatalReason::Unavailable));
                break;
            }
            other => panic!("{:?}", other),
        };
    }
    assert_eq!(spawns, 1);
    assert_eq!(pings, 5);
    assert_eq!(sleeps, vec![1, 1, 2, 4, 6]);
}

#[test]
fn a_failed_start_is_fatal() {
    let mut g = gate(true);
    g.step(GateEvent::Start);
    assert!(matches!(g.step(GateEvent::PingFailed), GateAction::Spawn));
    assert_eq!(g.phase(), GatePhase::Spawning);
    assert!(matches!(g.step(GateEvent::SleepFinished), GateAction::Nothing));
    assert!(matches!(
        g.step(GateEvent::SpawnFinished { ok: false }),
        GateAction::Fail(FatalReason::SpawnFailed)
    ));
    assert_eq!(g.phase(), GatePhase::Failed(FailKind::SpawnFailed));
}

#[test]
fn a_server_that_comes_up_late_is_ready() {
    let mut g = gate(true);
    g.step(GateEvent::Start);
    g.step(GateEvent::PingFailed);
    assert!(matches!(g.step(GateEvent::SpawnFinished { ok: true }), GateAction::Sleep { secs: 1 }));
    assert!(matches!(g.step(GateEvent::SleepFinished), GateAction::Ping));
    assert!(matches!(g.step(GateEvent::PingFailed), GateAction::Sleep { secs: 1 }));
    assert!(matches!(g.step(GateEvent::SleepFinished), GateAction::Ping));
    assert!(matches!(g.step(answer("VIIPER", "v1.0.0")), GateAction::NotifyReady { .. }));
    assert_eq!(g.attempt(), 2);
    assert!(g.ready());
}

#[test]
fn notices_for_the_user() {
    let wrong = FatalReason::WrongServer { server: "nginx".to_string() };
    assert_eq!(wrong.title(), "Invalid VIIPER server");
    assert_eq!(
        wrong.message("127.0.0.1:3242", "0.4.0", ""),
        "A non-VIIPER server is running at 127.0.0.1:3242 (server=nginx).\n\nSISR requires VIIPER to function and will now exit."
    );
    let old = FatalReason::TooOld { version: "0.1.0".to_string() };
    assert_eq!(old.title(), "VIIPER too old");
    assert_eq!(
        old.message("x", "0.4.0", ""),
        "VIIPER is too old.\n\nDetected: 0.1.0\nRequired: 0.4.0\n\nSISR will now exit."
    );
    assert_eq!(FatalReason::SpawnFailed.title(), "Failed to start VIIPER");
    assert_eq!(
        FatalReason::SpawnFailed.message("x", "y", "not found"),
        "Failed to start VIIPER locally.\n\nnot found\n\nSISR will now exit."
    );
    assert_eq!(FatalReason::Unavailable.title(), "VIIPER unavailable");
    assert_eq!(
        FatalReason::Unavailable.message("[::1]:3242", "y", "z"),
        "Unable to connect to VIIPER at [::1]:3242 after multiple attempts.\n\nSISR will now exit."
    );
}

#[test]
fn odd_events_change_nothing() {
    let mut g = gate(true);
    assert!(matches!(g.step(GateEvent::PingFailed), GateAction::Nothing));
    assert!(matches!(g.step(GateEvent::SleepFinished), GateAction::Nothing));
    assert!(matches!(g.step(answer("VIIPER", "1.0.0")), GateAction::Nothing));
    assert_eq!(g.phase(), GatePhase::Idle);
    assert!(matches!(g.step(GateEvent::Start), GateAction::Ping));
    assert!(matches!(g.step(GateEvent::Start), GateAction::Nothing));
    assert!(matches!(g.step(GateEvent::SpawnFinished { ok: true }), GateAction::Nothing));
    assert_eq!(g.phase(), GatePhase::Pinging);
}

#[test]
fn a_server_that_was_started_before_is_not_started_again() {
    let mut g = ReadinessGate::new(true, true, "0.4.0".to_string(), true);
    g.step(GateEvent::Start);
    assert!(matches!(g.step(GateEvent::PingFailed), GateAction::Sleep { secs: 1 }));
    assert!(matches!(g.step(GateEvent::SleepFinished), GateAction::Ping));
    assert!(matches!(g.step(GateEvent::PingFailed), GateAction::Sleep { secs: 1 }));
}

#[test]
fn an_answer_counts_only_while_a_ping_is_on_its_way() {
    let mut g = gate(false);
    assert!(matches!(
        g.ping_answered("VIIPER".to_string(), "9.0.0".to_string(), true),
        GateAction::Nothing
    ));
    assert_eq!(g.phase(), GatePhase::Idle);
    g.step(GateEvent::Start);
    assert!(matches!(
        g.ping_answered("VIIPER".to_string(), "0.0.1".to_string(), true),
        GateAction::NotifyReady { .. }
    ));
    let mut h = gate(false);
    h.step(GateEvent::Start);
    assert!(matches!(
        h.ping_answered("VIIPER".to_string(), "9.0.0".to_string(), false),
        GateAction::Fail(FatalReason::TooOld { .. })
    ));
    let mut k = gate(false);
    k.step(GateEvent::Start);
    assert!(matches!(
        k.ping_answered("other".to_string(), "9.0.0".to_string(), true),
        GateAction::Fail(FatalReason::WrongServer { .. })
    ));
}
