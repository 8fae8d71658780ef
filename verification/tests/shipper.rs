use humio_logger::{FlushAction, HumioLogger, TrackingEvent, CHUNK_SIZE};

fn ev(ts: &str, attrs: &[(&str, &str)]) -> TrackingEvent {
    TrackingEvent {
        timestamp: ts.to_string(),
        attributes: attrs.iter().map(|(k, v)| (k.to_string(), v.to_string())).collect(),
    }
}

fn logger_with(tags: &[(&str, &str)]) -> HumioLogger {
    HumioLogger::new(
        "K".to_string(),
        tags.iter().map(|(k, v)| (k.to_string(), v.to_string())).collect(),
    )
}

/// Drives one tick to completion with no failures; returns the chunks sent,
/// as lists of timestamps, and the delay the final action prescribes.
fn run_tick(lg: &mut HumioLogger) -> (Vec<Vec<String>>, u64) {
    let mut flusher = lg.tick();
    let mut sent: Vec<Vec<String>> = Vec::new();
    loop {
        let chunk: Vec<String> = match flusher.current_chunk() {
            None => break,
            Some(c) => c.iter().map(|e| e.timestamp.clone()).collect(),
        };
        sent.push(chunk);
        let action = flusher.record(Ok(()));
        if matches!(action, FlushAction::WaitTick) {
            break;
        }
    }
    (sent, flusher.next_action().delay_ms())
}

#[test]
fn single_event_one_post() {
    let mut lg = logger_with(&[("service", "api")]);
    lg.push(ev("2024-01-01T00:00:00Z", &[("user", "u1")]));
    let (sent, delay) = run_tick(&mut lg);
    assert_eq!(sent.len(), 1);
    assert_eq!(sent[0], vec!["2024-01-01T00:00:00Z".to_string()]);
    assert_eq!(delay, 1000);
}

#[test]
fn twenty_five_events_three_chunks_in_order() {
    let mut lg = logger_with(&[]);
    for i in 0..25 {
        lg.push(ev(&format!("t{:02}", i), &[]));
    }
    let (sent, _) = run_tick(&mut lg);
    assert_eq!(sent.len(), 3);
    assert_eq!(sent[0].len(), 10);
    assert_eq!(sent[1].len(), 10);
    assert_eq!(sent[2].len(), 5);
    let all: Vec<String> = sent.into_iter().flatten().collect();
    let expected: Vec<String> = (0..25).map(|i| format!("t{:02}", i)).collect();
    assert_eq!(all, expected);
}

#[test]
fn chunk_count_is_ceiling_of_m_over_ten() {
    assert_eq!(CHUNK_SIZE, 10);
    for (m, chunks) in [(0usize, 0usize), (1, 1), (9, 1), (10, 1), (11, 2), (20, 2), (21, 3)] {
        let mut lg = logger_with(&[]);
        for i in 0..m {
            lg.push(ev(&format!("{}", i), &[]));
        }
        let (sent, _) = run_tick(&mut lg);
        assert_eq!(sent.len(), chunks, "m = {}", m);
        if chunks > 0 {
            for c in &sent[..chunks - 1] {
                assert_eq!(c.len(), 10);
            }
            let last = if m % 10 == 0 { 10 } else { m % 10 };
            assert_eq!(sent[chunks - 1].len(), last);
        }
    }
}

#[test]
fn failed_attempts_repeat_the_same_chunk() {
    let mut lg = logger_with(&[("service", "api")]);
    lg.push(ev("2024-01-01T00:00:00Z", &[("user", "u1")]));
    let mut flusher = lg.tick();

    let mut bodies: Vec<String> = Vec::new();
    let mut delays: Vec<u64> = Vec::new();
    for attempt in 0..3 {
        let chunk = flusher.current_chunk().expect("chunk still pending").clone();
        bodies.push(lg.request_for(&chunk).body);
        let outcome = if attempt < 2 {
            Err(humio_logger::Error::Hyper("connection refused".to_string()))
        } else {
            Ok(())
        };
        let action = flusher.record(outcome);
        delays.push(action.delay_ms());
    }
    assert_eq!(bodies.len(), 3);
    assert_eq!(bodies[0], bodies[1]);
    assert_eq!(bodies[1], bodies[2]);
    assert_eq!(delays[0], 500);
    assert_eq!(delays[1], 500);
    assert_eq!(delays[2], 1000);
    assert!(flusher.current_chunk().is_none());
}

#[test]
fn zero_events_zero_posts() {
    let mut lg = logger_with(&[("service", "api")]);
    for _ in 0..3 {
        let mut flusher = lg.tick();
        assert!(flusher.current_chunk().is_none());
        let action = flusher.next_action();
        assert!(matches!(action, FlushAction::WaitTick));
        assert_eq!(action.delay_ms(), 1000);
    }
}

#[test]
fn interleaved_producers_lose_nothing() {
    // Ten producers of ten events each, their enqueues interleaved
    // round-robin; the flusher drains twice. Every event must be shipped
    // exactly once, and each producer's events in that producer's order.
    let mut lg = logger_with(&[]);
    let mut shipped: Vec<String> = Vec::new();
    for round in 0..10 {
        for producer in 0..10 {
            lg.push(ev(&format!("p{}e{}", producer, round), &[]));
        }
        if round == 5 {
            let (sent, _) = run_tick(&mut lg);
            shipped.extend(sent.into_iter().flatten());
        }
    }
    let (sent, _) = run_tick(&mut lg);
    shipped.extend(sent.into_iter().flatten());

    assert_eq!(shipped.len(), 100);
    let mut unique = shipped.clone();
    unique.sort();
    unique.dedup();
    assert_eq!(unique.len(), 100);
    for producer in 0..10 {
        let mine: Vec<&String> =
            shipped.iter().filter(|t| t.starts_with(&format!("p{}e", producer))).collect();
        let expected: Vec<String> = (0..10).map(|r| format!("p{}e{}", producer, r)).collect();
        assert_eq!(mine.len(), 10);
        for (got, want) in mine.iter().zip(expected.iter()) {
            assert_eq!(**got, *want);
        }
    }
    // A third drain finds nothing: drained events are gone from the outbox.
    let (sent, _) = run_tick(&mut lg);
    assert!(sent.is_empty());
}

#[test]
fn outage_then_recovery_delivers_once() {
    // The endpoint fails for five seconds' worth of attempts, then recovers.
    let mut lg = logger_with(&[]);
    lg.push(ev("t0", &[]));
    let mut flusher = lg.tick();

    let mut waited_ms: u64 = 0;
    let mut attempts = 0;
    let mut delivered: Vec<Vec<String>> = Vec::new();
    loop {
        let chunk = flusher.current_chunk().expect("chunk still pending").clone();
        attempts += 1;
        let outcome = if waited_ms < 5000 {
            Err(humio_logger::Error::Hyper("gateway down".to_string()))
        } else {
            Ok(())
        };
        let succeeded = outcome.is_ok();
        if succeeded {
            delivered.push(chunk.iter().map(|e| e.timestamp.clone()).collect());
        }
        let action = flusher.record(outcome);
        if succeeded {
            assert_eq!(action.delay_ms(), 1000);
            break;
        }
        assert_eq!(action.delay_ms(), 500);
        waited_ms += action.delay_ms();
    }
    assert_eq!(attempts, 11); // ten failures cover the 5 s outage, then success
    assert_eq!(delivered, vec![vec!["t0".to_string()]]);
    assert!(flusher.current_chunk().is_none());
}

#[test]
fn error_messages_name_the_failed_layer() {
    let e = humio_logger::Error::SerdeJson("bad value".to_string());
    assert_eq!(e.message(), "serde_json error: bad value");
    let e = humio_logger::Error::Http("bad uri".to_string());
    assert_eq!(e.message(), "http error: bad uri");
    let e = humio_logger::Error::Hyper("timed out".to_string());
    assert_eq!(e.message(), "hyper error: timed out");
}
