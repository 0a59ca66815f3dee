use control_core::poller::{Poller, PAUSE_SLICES, PAUSE_SLICE_MS};
use control_core::report::{Measurement, Query};
use control_core::serial::{TextWrite, TxReply, TxRequest};

#[derive(Debug)]
enum SensorError {
    BusTimeout,
}

/// Sends a line through the sink to a transmitter that is always ready and
/// returns the bytes that went out.
fn transmit(line: &str) -> Vec<u8> {
    let mut write = TextWrite::begin(line);
    let mut wire = Vec::new();
    let mut flushes = 0;
    while !write.is_finished() {
        match write.request() {
            TxRequest::Write(byte) => wire.push(byte),
            TxRequest::Flush => flushes += 1,
            TxRequest::Finished => unreachable!(),
        }
        write.advance(TxReply::Accepted);
    }
    assert_eq!(flushes, 1);
    wire
}

fn answer(
    query: Query,
    calibrated: Result<f32, SensorError>,
    raw: Result<i16, SensorError>,
) -> Result<Measurement, String> {
    match query {
        Query::Calibrated => match calibrated {
            Ok(t) => Ok(Measurement::Degrees(format!("{:?}", t))),
            Err(e) => Err(format!("{:?}", e)),
        },
        Query::Raw => match raw {
            Ok(t) => Ok(Measurement::Counts(t)),
            Err(e) => Err(format!("{:?}", e)),
        },
    }
}

#[test]
fn poller_starts_calibrated() {
    let poller = Poller::new();
    assert_eq!(poller.query(), Query::Calibrated);
}

#[test]
fn poller_alternates() {
    let mut poller = Poller::new();
    for n in 0..1000 {
        let expected = if n % 2 == 0 { Query::Calibrated } else { Query::Raw };
        assert_eq!(poller.query(), expected, "after {} cycles", n);
        poller.finish_cycle(&Ok(Measurement::Counts(0)));
    }
}

#[test]
fn poller_pause_is_ten_quarter_seconds() {
    assert_eq!(PAUSE_SLICES, 10);
    assert_eq!(PAUSE_SLICE_MS, 250);
    let mut poller = Poller::new();
    let end = poller.finish_cycle(&Ok(Measurement::Counts(1)));
    assert_eq!(end.pause_slices, 10);
    assert_eq!(end.pause_slice_ms, 250);
    assert_eq!(end.pause_slices * end.pause_slice_ms, 2500);
    let end = poller.finish_cycle(&Err(String::from("x")));
    assert_eq!(end.pause_slices * end.pause_slice_ms, 2500);
}

#[test]
fn failing_sensor_never_stops_the_poller() {
    let mut poller = Poller::new();
    let mut lines = Vec::new();
    for n in 0..500 {
        let query = poller.query();
        assert_eq!(query, if n % 2 == 0 { Query::Calibrated } else { Query::Raw });
        let outcome = answer(query, Err(SensorError::BusTimeout), Err(SensorError::BusTimeout));
        lines.push(poller.finish_cycle(&outcome).line);
    }
    assert_eq!(lines.len(), 500);
    for line in &lines {
        assert!(line.starts_with("Error: "));
        assert_eq!(line, "Error: BusTimeout\r\n");
    }
}

#[test]
fn failure_does_not_repeat_the_query() {
    let mut poller = Poller::new();
    poller.finish_cycle(&Err(String::from("BusTimeout")));
    assert_eq!(poller.query(), Query::Raw);
    poller.finish_cycle(&Err(String::from("BusTimeout")));
    assert_eq!(poller.query(), Query::Calibrated);
}

#[test]
fn end_to_end_reading_then_failure() {
    let mut poller = Poller::new();
    let mut session = Vec::new();

    let query = poller.query();
    let outcome = answer(query, Ok(23.5), Err(SensorError::BusTimeout));
    let first = poller.finish_cycle(&outcome);
    assert_eq!(first.line, "Temp: 23.5\r\n");
    session.push(transmit(&first.line));

    let query = poller.query();
    let outcome = answer(query, Ok(23.5), Err(SensorError::BusTimeout));
    let second = poller.finish_cycle(&outcome);
    assert_eq!(second.line, "Error: BusTimeout\r\n");
    session.push(transmit(&second.line));

    assert_eq!(session[0], b"Temp: 23.5\r\n".to_vec());
    assert_eq!(session[1], b"Error: BusTimeout\r\n".to_vec());
    assert_eq!(session.concat(), b"Temp: 23.5\r\nError: BusTimeout\r\n".to_vec());
}

#[test]
fn healthy_sensor_gives_both_kinds_of_line() {
    let mut poller = Poller::new();
    let mut lines = Vec::new();
    for _ in 0..4 {
        let outcome = answer(poller.query(), Ok(21.25), Ok(-416));
        lines.push(poller.finish_cycle(&outcome).line);
    }
    assert_eq!(
        lines,
        vec!["Temp: 21.25\r\n", "Raw Temp: -416\r\n", "Temp: 21.25\r\n", "Raw Temp: -416\r\n"]
    );
}

#[test]
fn lines_from_counts_hold_no_delimiter() {
    let mut poller = Poller::new();
    poller.finish_cycle(&Err(String::new()));
    for count in [i16::MIN, -1, 0, 1, 1000, i16::MAX] {
        let mut raw = poller;
        let end = raw.finish_cycle(&Ok(Measurement::Counts(count)));
        assert!(transmit(&end.line).iter().all(|b| *b != 0));
    }
}
