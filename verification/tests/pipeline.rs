use log4rs_fluentd::{
    Action, Channel, DeliveryError, Diagnostic, Event, FluentdAppender, Level, LogRecord,
    Pipeline, Transmission, Worker,
};
use std::time::{Duration, SystemTime, UNIX_EPOCH};

/// A connection whose outcomes are fixed beforehand: whether the connect
/// works, and which of the sends fail, by their position.
struct Scripted {
    connects: bool,
    failing: Vec<usize>,
    attempts: Vec<Transmission>,
    delivered: Vec<Transmission>,
    reports: Vec<Diagnostic>,
}

fn scripted(connects: bool, failing: &[usize]) -> Scripted {
    Scripted {
        connects,
        failing: failing.to_vec(),
        attempts: Vec::new(),
        delivered: Vec::new(),
        reports: Vec::new(),
    }
}

/// Runs the worker against the scripted connection until it stops or has to
/// wait for a sender.
fn drive(worker: &mut Worker, channel: &mut Channel, connection: &mut Scripted) {
    let mut action = worker.action();
    loop {
        let step = match action {
            Action::Connect { .. } => {
                if connection.connects {
                    worker.step(Event::Connected)
                } else {
                    worker.step(Event::ConnectFailed("connection refused".to_string()))
                }
            }
            Action::Receive => match worker.poll(channel) {
                Some(step) => step,
                None => return,
            },
            Action::Send(transmission) => {
                let position = connection.attempts.len();
                connection.attempts.push(transmission.clone());
                if connection.failing.contains(&position) {
                    worker.step(Event::SendFailed(format!("send {} failed", position)))
                } else {
                    connection.delivered.push(transmission);
                    worker.step(Event::Sent)
                }
            }
            Action::Stop => return,
        };
        if let Some(diagnostic) = step.report {
            connection.reports.push(diagnostic);
        }
        action = step.action;
    }
}

fn at_second(n: u64) -> SystemTime {
    UNIX_EPOCH + Duration::from_secs(1_524_650_000 + n)
}

fn nth_record(n: u64) -> LogRecord {
    LogRecord::at("svc", "INFO", &format!("message {}", n), at_second(n))
}

fn messages(transmissions: &[Transmission]) -> Vec<String> {
    transmissions.iter().map(|t| t.record().message().to_string()).collect()
}

fn assembled(tag: &str) -> Pipeline<()> {
    FluentdAppender::builder().tag(tag).build("127.0.0.1:24224".to_string(), ())
}

#[test]
fn records_of_one_producer_are_attempted_in_order() {
    for count in [0u64, 1, 2, 17] {
        let Pipeline { mut channel, mut worker, .. } = assembled("app.log");
        for n in 0..count {
            assert_eq!(channel.send(nth_record(n)), Ok(()));
        }
        let mut connection = scripted(true, &[]);
        drive(&mut worker, &mut channel, &mut connection);
        let expected: Vec<Transmission> =
            (0..count).map(|n| Transmission::new("app.log".to_string(), nth_record(n))).collect();
        assert_eq!(connection.attempts, expected);
        assert_eq!(connection.delivered, expected);
        assert_eq!(connection.reports, Vec::new());
        assert_eq!(channel.len(), 0);
        assert_eq!(worker.action(), Action::Receive);
    }
}

#[test]
fn order_holds_when_hand_off_and_delivery_interleave() {
    let Pipeline { mut channel, mut worker, .. } = assembled("app.log");
    let mut connection = scripted(true, &[]);
    assert_eq!(channel.send(nth_record(0)), Ok(()));
    assert_eq!(channel.send(nth_record(1)), Ok(()));
    drive(&mut worker, &mut channel, &mut connection);
    assert_eq!(channel.send(nth_record(2)), Ok(()));
    drive(&mut worker, &mut channel, &mut connection);
    drive(&mut worker, &mut channel, &mut connection);
    assert_eq!(channel.send(nth_record(3)), Ok(()));
    assert_eq!(channel.send(nth_record(4)), Ok(()));
    drive(&mut worker, &mut channel, &mut connection);
    assert_eq!(
        messages(&connection.attempts),
        ["message 0", "message 1", "message 2", "message 3", "message 4"]
    );
}

#[test]
fn enqueue_succeeds_whatever_the_worker_does() {
    let Pipeline { appender, mut channel, mut worker } = assembled("app.log");
    // The worker has not connected yet.
    assert_eq!(
        appender.append::<String>(&mut channel, "svc", Level::Info, Ok(b"connecting".to_vec())),
        Ok(())
    );
    // The worker is connected and has a send in flight that never returns.
    worker.step(Event::Connected);
    assert!(worker.poll(&mut channel).is_some());
    for n in 0..1000 {
        let rendered = format!("backlog {}", n).into_bytes();
        assert_eq!(
            appender.append::<String>(&mut channel, "svc", Level::Info, Ok(rendered)),
            Ok(())
        );
    }
    assert_eq!(channel.len(), 1000);
    // The worker is down after a failed connect, but still holds the receiver.
    let Pipeline { appender, mut channel, mut worker } = assembled("app.log");
    worker.step(Event::ConnectFailed("connection refused".to_string()));
    assert!(worker.is_stopped());
    assert_eq!(
        appender.append::<String>(&mut channel, "svc", Level::Info, Ok(b"down".to_vec())),
        Ok(())
    );
    assert_eq!(channel.len(), 1);
}

#[test]
fn worker_ends_after_the_last_sender_is_dropped() {
    let Pipeline { mut channel, mut worker, .. } = assembled("app.log");
    let mut connection = scripted(true, &[]);
    drive(&mut worker, &mut channel, &mut connection);
    assert!(!worker.is_stopped());
    channel.drop_sender();
    drive(&mut worker, &mut channel, &mut connection);
    assert!(worker.is_stopped());
    assert_eq!(connection.attempts, Vec::new());
    assert_eq!(connection.reports, vec![Diagnostic::ChannelClosed]);
    assert_eq!(worker.action(), Action::Stop);
    assert_eq!(worker.poll(&mut channel), None);
    drive(&mut worker, &mut channel, &mut connection);
    assert_eq!(connection.attempts, Vec::new());
    assert!(worker.release(&mut channel));
    assert!(!channel.has_receiver());
}

#[test]
fn backlog_is_sent_before_the_worker_ends() {
    let Pipeline { mut channel, mut worker, .. } = assembled("app.log");
    worker.step(Event::Connected);
    for n in 0..3 {
        assert_eq!(channel.send(nth_record(n)), Ok(()));
    }
    channel.drop_sender();
    let mut polls = 0;
    let mut attempts = Vec::new();
    while !worker.is_stopped() {
        polls += 1;
        let step = worker.poll(&mut channel).unwrap();
        if let Action::Send(transmission) = step.action {
            attempts.push(transmission);
            worker.step(Event::Sent);
        }
    }
    assert_eq!(polls, 4);
    assert_eq!(messages(&attempts), ["message 0", "message 1", "message 2"]);
    assert_eq!(worker.poll(&mut channel), None);
}

#[test]
fn failed_send_does_not_hold_up_the_next_record() {
    let Pipeline { mut channel, mut worker, .. } = assembled("app.log");
    for n in 0..4 {
        assert_eq!(channel.send(nth_record(n)), Ok(()));
    }
    let mut connection = scripted(true, &[1, 2]);
    drive(&mut worker, &mut channel, &mut connection);
    assert_eq!(
        messages(&connection.attempts),
        ["message 0", "message 1", "message 2", "message 3"]
    );
    assert_eq!(messages(&connection.delivered), ["message 0", "message 3"]);
    assert_eq!(
        connection.reports,
        vec![
            Diagnostic::SendFailed("send 1 failed".to_string()),
            Diagnostic::SendFailed("send 2 failed".to_string()),
        ]
    );
    assert!(!worker.is_stopped());
}

#[test]
fn nothing_is_sent_after_a_failed_connect() {
    let Pipeline { appender, mut channel, mut worker } = assembled("app.log");
    let mut connection = scripted(false, &[]);
    assert_eq!(
        appender.append::<String>(&mut channel, "svc", Level::Info, Ok(b"before".to_vec())),
        Ok(())
    );
    drive(&mut worker, &mut channel, &mut connection);
    assert!(worker.is_stopped());
    assert_eq!(
        connection.reports,
        vec![Diagnostic::ConnectFailed("connection refused".to_string())]
    );
    assert_eq!(
        appender.append::<String>(&mut channel, "svc", Level::Info, Ok(b"after".to_vec())),
        Ok(())
    );
    drive(&mut worker, &mut channel, &mut connection);
    assert_eq!(worker.poll(&mut channel), None);
    assert_eq!(connection.attempts, Vec::new());
    assert_eq!(channel.len(), 2);
    // With the task over the receiver is given up, and the caller is told.
    assert!(worker.release(&mut channel));
    assert_eq!(
        appender.append::<String>(&mut channel, "svc", Level::Info, Ok(b"late".to_vec())),
        Err(DeliveryError::ChannelClosed)
    );
}

#[test]
fn transmitted_record_decodes_to_its_fields_and_instant() {
    let instant = UNIX_EPOCH + Duration::new(1_524_650_081, 1_234_500);
    let Pipeline { mut channel, mut worker, .. } = assembled("app.log");
    assert_eq!(channel.send(LogRecord::at("svc", "INFO", "hello", instant)), Ok(()));
    let mut connection = scripted(true, &[]);
    drive(&mut worker, &mut channel, &mut connection);
    assert_eq!(connection.delivered.len(), 1);
    let transmission = &connection.delivered[0];
    assert_eq!(transmission.tag(), "app.log");
    assert_eq!(
        transmission.payload().to_vec(),
        vec![("target", "svc"), ("level", "INFO"), ("message", "hello")]
    );
    assert_eq!(transmission.timestamp(), instant);
}

#[test]
fn unreachable_collector_costs_the_caller_nothing() {
    let pipeline = FluentdAppender::builder()
        .tag("manually.event")
        .build("192.0.2.1:24224".to_string(), ());
    let Pipeline { appender, mut channel, mut worker } = pipeline;
    let levels = [Level::Trace, Level::Debug, Level::Info, Level::Warn, Level::Error];
    for (n, level) in levels.into_iter().enumerate() {
        let rendered = format!("Example message: {}", n).into_bytes();
        assert_eq!(appender.append::<String>(&mut channel, "manually", level, Ok(rendered)), Ok(()));
    }
    let mut connection = scripted(true, &[0, 1, 2, 3, 4]);
    drive(&mut worker, &mut channel, &mut connection);
    assert_eq!(connection.delivered, Vec::new());
    assert_eq!(connection.attempts.len(), 5);
    let attempted: Vec<&str> = connection.attempts.iter().map(|t| t.record().level()).collect();
    assert_eq!(attempted, ["TRACE", "DEBUG", "INFO", "WARN", "ERROR"]);
    assert_eq!(connection.reports.len(), 5);
    for (n, report) in connection.reports.iter().enumerate() {
        assert_eq!(
            report.message(),
            format!("Log record can't be sent to fluentd: send {} failed", n)
        );
    }
    assert!(!worker.is_stopped());
}

#[test]
fn refused_connection_costs_the_caller_nothing() {
    let pipeline = FluentdAppender::builder()
        .tag("manually.event")
        .build("192.0.2.1:24224".to_string(), ());
    let Pipeline { appender, mut channel, mut worker } = pipeline;
    let levels = [Level::Trace, Level::Debug, Level::Info, Level::Warn, Level::Error];
    for (n, level) in levels.into_iter().enumerate() {
        let rendered = format!("Example message: {}", n).into_bytes();
        assert_eq!(appender.append::<String>(&mut channel, "manually", level, Ok(rendered)), Ok(()));
    }
    let mut connection = scripted(false, &[]);
    drive(&mut worker, &mut channel, &mut connection);
    assert_eq!(connection.delivered, Vec::new());
    assert_eq!(connection.attempts, Vec::new());
    assert_eq!(connection.reports.len(), 1);
    assert_eq!(
        connection.reports[0].message(),
        "Fluentd worker pool can't be created: connection refused"
    );
    assert!(worker.is_stopped());
}
