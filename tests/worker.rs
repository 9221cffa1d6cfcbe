use crossbeam_channel::unbounded;
use managed_process::OutputStream;
use managed_process::worker::{reader_event, stop_requested};
use managed_process::{Output, Poll, StatusMonitor};

#[test]
fn stop_only_on_true() {
    assert!(stop_requested(Some(true)));
    assert!(!stop_requested(Some(false)));
    assert!(!stop_requested(None));
}

#[test]
fn stdout_line_becomes_output_line() {
    let r = reader_event(true, Some(Ok("hello".to_string())));
    assert!(matches!(r, Some(Output::Out(ref s)) if s == "hello"));
}

#[test]
fn stderr_line_becomes_error_line() {
    let r = reader_event(false, Some(Ok("oops".to_string())));
    assert!(matches!(r, Some(Output::Stderr(ref s)) if s == "oops"));
}

#[test]
fn failed_read_becomes_error_line_on_either_stream() {
    for is_stdout in [true, false] {
        let r = reader_event(is_stdout, Some(Err("broken pipe".to_string())));
        assert!(matches!(r, Some(Output::Stderr(ref s)) if s == "broken pipe"));
    }
}

#[test]
fn end_of_stream_emits_nothing() {
    assert!(reader_event(true, None).is_none());
    assert!(reader_event(false, None).is_none());
}

#[test]
fn reader_keeps_order_of_lines() {
    let lines = ["one", "two", "", "three", "two"];
    let mut events = Vec::new();
    for l in lines.iter() {
        if let Some(e) = reader_event(true, Some(Ok(l.to_string()))) {
            events.push(e);
        }
        // An idle read in between emits nothing.
        assert!(reader_event(true, None).is_none());
    }
    assert_eq!(events.len(), lines.len());
    for (e, l) in events.iter().zip(lines.iter()) {
        assert!(matches!(e, Output::Out(s) if s == l));
    }
}

#[test]
fn monitor_reports_exit_once() {
    let mut m = StatusMonitor::new();
    assert!(!m.is_finished());
    assert!(m.observe(Poll::Contended).is_none());
    assert!(m.observe(Poll::Running).is_none());
    assert!(!m.is_finished());
    assert!(matches!(m.observe(Poll::Exited(Some(0))), Some(Output::Exit(Ok(Some(0))))));
    assert!(m.is_finished());
    assert!(m.observe(Poll::Exited(Some(0))).is_none());
    assert!(m.observe(Poll::Running).is_none());
    assert!(m.is_finished());
}

#[test]
fn monitor_reports_signal_exit_without_code() {
    let mut m = StatusMonitor::new();
    assert!(matches!(m.observe(Poll::Exited(None)), Some(Output::Exit(Ok(None)))));
    assert!(m.is_finished());
}

#[test]
fn monitor_reports_poll_failure_as_exit() {
    let mut m = StatusMonitor::new();
    let e = std::io::Error::new(std::io::ErrorKind::Other, "status unavailable");
    match m.observe(Poll::Failed(e)) {
        Some(Output::Exit(Err(e))) => assert_eq!(e.to_string(), "status unavailable"),
        other => panic!("unexpected {:?}", other),
    }
    assert!(m.is_finished());
    let e = std::io::Error::new(std::io::ErrorKind::Other, "again");
    assert!(m.observe(Poll::Failed(e)).is_none());
}

#[test]
fn output_is_exit() {
    assert!(Output::Exit(Ok(Some(2))).is_exit());
    assert!(!Output::Out("x".to_string()).is_exit());
    assert!(!Output::Stderr("x".to_string()).is_exit());
}

#[test]
fn workers_through_channel_give_hello_oops_exit() {
    let (tx, mut rx) = unbounded();
    if let Some(e) = reader_event(true, Some(Ok("hello".to_string()))) {
        tx.send(Some(e)).unwrap();
    }
    if let Some(e) = reader_event(false, Some(Ok("oops".to_string()))) {
        tx.send(Some(e)).unwrap();
    }
    let mut m = StatusMonitor::new();
    for poll in [Poll::Running, Poll::Contended, Poll::Exited(Some(0)), Poll::Exited(Some(0))] {
        if let Some(e) = m.observe(poll) {
            tx.send(Some(e)).unwrap();
        }
    }
    let mut stream = OutputStream::new(&mut rx);
    assert!(matches!(stream.next(), Some(Output::Out(ref s)) if s == "hello"));
    assert!(matches!(stream.next(), Some(Output::Stderr(ref s)) if s == "oops"));
    assert!(matches!(stream.next(), Some(Output::Exit(Ok(Some(0))))));
    assert!(stream.next().is_none());
    // Only one exit was ever sent.
    assert!(stream.try_next().is_none());
}
