use log4rs_fluentd::{
    Action, Channel, ConnectionState, DeliveryError, FluentdAppender, Level, TryRecvError,
};
use std::time::SystemTime;

fn plain() -> FluentdAppender<&'static str> {
    FluentdAppender::builder().build("127.0.0.1:24224".to_string(), "fallback").appender
}

#[test]
fn builder_starts_without_encoder_and_with_empty_tag() {
    let pipeline =
        FluentdAppender::<&str>::builder().build("127.0.0.1:24224".to_string(), "fallback");
    assert_eq!(*pipeline.appender.encoder(), "fallback");
    assert_eq!(pipeline.worker.tag(), "");
    assert_eq!(pipeline.worker.addr(), "127.0.0.1:24224");
}

#[test]
fn chosen_encoder_wins_over_the_fallback() {
    let pipeline = FluentdAppender::builder()
        .encoder("pattern")
        .build("127.0.0.1:24224".to_string(), "fallback");
    assert_eq!(*pipeline.appender.encoder(), "pattern");
}

#[test]
fn last_encoder_and_last_tag_count() {
    let pipeline = FluentdAppender::builder()
        .tag("first")
        .encoder("one")
        .tag("second")
        .encoder("two")
        .build("collector:24224".to_string(), "fallback");
    assert_eq!(*pipeline.appender.encoder(), "two");
    assert_eq!(pipeline.worker.tag(), "second");
}

#[test]
fn build_assembles_a_fresh_pipeline() {
    let pipeline = FluentdAppender::builder()
        .tag("manually.event")
        .build("127.0.0.1:24224".to_string(), "fallback");
    assert_eq!(pipeline.channel.len(), 0);
    assert_eq!(pipeline.channel.senders(), 1);
    assert!(pipeline.channel.has_receiver());
    assert_eq!(pipeline.worker.tag(), "manually.event");
    assert_eq!(pipeline.worker.connection(), ConnectionState::Connecting);
    assert_eq!(
        pipeline.worker.action(),
        Action::Connect { addr: "127.0.0.1:24224".to_string(), retry_timeout_secs: 5 }
    );
}

#[test]
fn build_takes_any_address_as_it_is() {
    let pipeline = FluentdAppender::builder().build("not an address".to_string(), "fallback");
    assert_eq!(pipeline.worker.addr(), "not an address");
    assert_eq!(
        pipeline.worker.action(),
        Action::Connect { addr: "not an address".to_string(), retry_timeout_secs: 5 }
    );
    let pipeline = FluentdAppender::builder().build(String::new(), "fallback");
    assert_eq!(pipeline.worker.addr(), "");
}

#[test]
fn append_enqueues_the_rendered_event() {
    let appender = plain();
    let mut channel = Channel::new();
    let before = SystemTime::now();
    let outcome =
        appender.append::<String>(&mut channel, "svc", Level::Info, Ok(b"hello".to_vec()));
    let after = SystemTime::now();
    assert_eq!(outcome, Ok(()));
    assert_eq!(channel.len(), 1);
    let record = channel.try_recv().unwrap();
    assert_eq!(record.target(), "svc");
    assert_eq!(record.level(), "INFO");
    assert_eq!(record.message(), "hello");
    assert!(before <= record.time() && record.time() <= after);
}

#[test]
fn append_keeps_text_beyond_ascii() {
    let appender = plain();
    let mut channel = Channel::new();
    let rendered = "grüße, 世界\n".as_bytes().to_vec();
    assert_eq!(appender.append::<String>(&mut channel, "svc", Level::Debug, Ok(rendered)), Ok(()));
    let record = channel.try_recv().unwrap();
    assert_eq!(record.message(), "grüße, 世界\n");
    assert_eq!(record.level(), "DEBUG");
}

#[test]
fn append_replaces_bytes_that_are_no_text() {
    let appender = plain();
    let mut channel = Channel::new();
    let rendered = vec![b'h', 0xff, b'i'];
    assert_eq!(appender.append::<String>(&mut channel, "svc", Level::Warn, Ok(rendered)), Ok(()));
    let record = channel.try_recv().unwrap();
    assert_eq!(record.message(), "h\u{fffd}i");
}

#[test]
fn append_of_an_empty_rendering_enqueues_an_empty_message() {
    let appender = plain();
    let mut channel = Channel::new();
    assert_eq!(appender.append::<String>(&mut channel, "", Level::Trace, Ok(Vec::new())), Ok(()));
    let record = channel.try_recv().unwrap();
    assert_eq!(record.target(), "");
    assert_eq!(record.level(), "TRACE");
    assert_eq!(record.message(), "");
}

#[test]
fn render_failure_is_passed_on_and_nothing_enqueued() {
    let appender = plain();
    let mut channel = Channel::new();
    let outcome = appender.append(
        &mut channel,
        "svc",
        Level::Error,
        Err("pattern could not be written".to_string()),
    );
    assert_eq!(outcome, Err(DeliveryError::Render("pattern could not be written".to_string())));
    assert_eq!(channel.len(), 0);
    assert_eq!(channel.try_recv(), Err(TryRecvError::Empty));
}

#[test]
fn render_failure_comes_before_a_closed_channel() {
    let appender = plain();
    let mut channel = Channel::new();
    channel.drop_receiver();
    let outcome = appender.append(&mut channel, "svc", Level::Error, Err(7u8));
    assert_eq!(outcome, Err(DeliveryError::Render(7u8)));
}

#[test]
fn append_after_the_worker_ended_fails() {
    let appender = plain();
    let mut channel = Channel::new();
    channel.drop_receiver();
    let outcome =
        appender.append::<String>(&mut channel, "svc", Level::Info, Ok(b"late".to_vec()));
    assert_eq!(outcome, Err(DeliveryError::ChannelClosed));
    assert_eq!(channel.len(), 0);
}

#[test]
fn append_without_a_sender_fails() {
    let appender = plain();
    let mut channel = Channel::new();
    channel.drop_sender();
    let outcome =
        appender.append::<String>(&mut channel, "svc", Level::Info, Ok(b"late".to_vec()));
    assert_eq!(outcome, Err(DeliveryError::ChannelClosed));
    assert_eq!(channel.len(), 0);
}

#[test]
fn flush_leaves_the_queue_as_it_is() {
    let appender = plain();
    let mut channel = Channel::new();
    assert_eq!(appender.append::<String>(&mut channel, "svc", Level::Info, Ok(b"a".to_vec())), Ok(()));
    appender.flush();
    assert_eq!(channel.len(), 1);
}
