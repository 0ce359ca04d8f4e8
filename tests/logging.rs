use clamav_logging::{
    render, sink_for, ClamLogger, Delivery, FormatError, RegistrationState, Registrar, Severity,
    Sink, DEBUG_FLOOR,
};

fn deliver(logger: &ClamLogger, s: Severity, text: &str) -> Delivery {
    match logger.log(s, text) {
        Ok(Some(d)) => d,
        Ok(None) => panic!("record was dropped"),
        Err(e) => panic!("record was refused: {:?}", e),
    }
}

#[test]
fn parse_move_works() {
    let mut registrar = Registrar::new();
    let init_status = registrar.register(true);
    assert!(init_status == true);
    let logger = ClamLogger::new();

    let d = deliver(&logger, Severity::Debug, "Hello");
    assert_eq!(d.sink, Sink::Debug);
    assert_eq!(d.message.as_bytes(), b"Hello\n");

    let d = deliver(&logger, Severity::Info, "darkness");
    assert_eq!(d.sink, Sink::Info);
    assert_eq!(d.message.as_bytes(), b"darkness\n");

    let d = deliver(&logger, Severity::Warn, "my old");
    assert_eq!(d.sink, Sink::Warn);
    assert_eq!(d.message.as_bytes(), b"my old\n");

    let d = deliver(&logger, Severity::Error, "friend.");
    assert_eq!(d.sink, Sink::Error);
    assert_eq!(d.message.as_bytes(), b"friend.\n");

    assert!(!registrar.register(true));
}

#[test]
fn debug_floor_enables_all_but_trace() {
    let logger = ClamLogger::new();
    assert!(logger.enabled(Severity::Error));
    assert!(logger.enabled(Severity::Warn));
    assert!(logger.enabled(Severity::Info));
    assert!(logger.enabled(Severity::Debug));
    assert!(!logger.enabled(Severity::Trace));
    assert_eq!(DEBUG_FLOOR, Severity::Debug);
}

#[test]
fn severity_order() {
    assert_eq!(Severity::Error.rank(), 1);
    assert_eq!(Severity::Trace.rank(), 5);
    assert!(Severity::Warn.passes(Severity::Info));
    assert!(Severity::Info.passes(Severity::Info));
    assert!(!Severity::Debug.passes(Severity::Info));
}

#[test]
fn trace_is_dropped() {
    let logger = ClamLogger::new();
    assert!(matches!(logger.log(Severity::Trace, "quiet"), Ok(None)));
    assert!(matches!(logger.log(Severity::Trace, "a\0b"), Ok(None)));
}

#[test]
fn embedded_terminator_is_refused() {
    let logger = ClamLogger::new();
    assert!(matches!(
        logger.log(Severity::Error, "a\0b"),
        Err(FormatError::EmbeddedTerminator)
    ));
    assert!(matches!(render("\0"), Err(FormatError::EmbeddedTerminator)));
    assert!(matches!(render("tail\0"), Err(FormatError::EmbeddedTerminator)));
}

#[test]
fn render_appends_one_newline() {
    let m = render("line\n").ok().unwrap();
    assert_eq!(m.as_bytes(), b"line\n\n");
    assert_eq!(m.len(), 6);
    let m = render("").ok().unwrap();
    assert_eq!(m.into_bytes(), vec![b'\n']);
    let m = render("h\u{e9}").ok().unwrap();
    assert_eq!(m.as_bytes(), "h\u{e9}\n".as_bytes());
}

#[test]
fn round_trip_gives_text_back() {
    let text = "scan of /tmp/x: 3 hits";
    let bytes = render(text).ok().unwrap().into_bytes();
    assert_eq!(&bytes[..bytes.len() - 1], text.as_bytes());
    assert_eq!(bytes[bytes.len() - 1], b'\n');
    assert!(!bytes.contains(&0));
}

#[test]
fn routing_is_one_to_one() {
    assert_eq!(sink_for(Severity::Error), Some(Sink::Error));
    assert_eq!(sink_for(Severity::Warn), Some(Sink::Warn));
    assert_eq!(sink_for(Severity::Info), Some(Sink::Info));
    assert_eq!(sink_for(Severity::Debug), Some(Sink::Debug));
    assert_eq!(sink_for(Severity::Trace), None);
}

#[test]
fn registration_happens_once() {
    let mut r = Registrar::new();
    assert_eq!(r.state(), RegistrationState::Unregistered);
    assert!(!r.is_registered());
    assert_eq!(r.threshold(), Severity::Debug);
    assert!(r.register(true));
    assert!(r.is_registered());
    assert!(!r.register(true));
    assert!(!r.register(false));
    assert_eq!(r.state(), RegistrationState::Registered);
    assert_eq!(r.threshold(), Severity::Debug);
}

#[test]
fn refused_installation_leaves_registrar_unregistered() {
    let mut r = Registrar::new();
    assert!(!r.register(false));
    assert_eq!(r.state(), RegistrationState::Unregistered);
    assert!(r.register(true));
    assert!(r.is_registered());
}

#[test]
fn registration_publishes_debug_max_level() {
    log::set_max_level(log::LevelFilter::Off);
    let mut r = Registrar::new();
    assert!(r.register(true));
    assert_eq!(log::max_level(), log::LevelFilter::Debug);
}

#[test]
fn every_enabled_record_is_delivered_once() {
    let logger = ClamLogger::new();
    let severities = [Severity::Error, Severity::Warn, Severity::Info, Severity::Debug];
    let mut delivered: Vec<Vec<u8>> = Vec::new();
    for worker in 0..4 {
        for record in 0..5 {
            let text = format!("worker {} record {}", worker, record);
            let d = deliver(&logger, severities[record % 4], &text);
            assert_eq!(Some(d.sink), sink_for(severities[record % 4]));
            delivered.push(d.message.into_bytes());
        }
    }
    assert_eq!(delivered.len(), 20);
    for (i, bytes) in delivered.iter().enumerate() {
        let expected = format!("worker {} record {}\n", i / 5, i % 5);
        assert_eq!(bytes.as_slice(), expected.as_bytes());
    }
}
