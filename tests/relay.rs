use pirohxy::relay::{
    Closing, EndpointKind, Half, HalfDir, LegEnd, LegPhase, RelayOutcome, RelayTask, Side, Teardown, RELAY_CHUNK,
};

fn half(side: Side, dir: HalfDir) -> Half {
    Half { side, dir }
}

/// Forwards `payload` over the leg from `from` in chunks of at most
/// `RELAY_CHUNK` bytes and returns what the leg handed out to be written.
fn forward(task: &mut RelayTask, from: Side, payload: &[u8]) -> Vec<u8> {
    let mut out = Vec::new();
    for chunk in payload.chunks(RELAY_CHUNK) {
        let written = task.on_data(from, chunk.to_vec()).expect("leg is reading");
        out.extend_from_slice(&written);
        assert!(task.on_written(from));
    }
    out
}

fn payload(len: usize) -> Vec<u8> {
    (0..len).map(|i| (i * 31 + 7) as u8).collect()
}

fn assert_each_half_once(closings: &[Closing]) {
    for i in 0..closings.len() {
        for j in (i + 1)..closings.len() {
            assert_ne!(closings[i].half, closings[j].half);
        }
    }
}

#[test]
fn bytes_arrive_in_order_for_all_sizes() {
    for len in [1usize, 4096, RELAY_CHUNK + 1, 1 << 20] {
        let mut task = RelayTask::new(EndpointKind::Socket, EndpointKind::Transport);
        let up = payload(len);
        let down: Vec<u8> = payload(len).into_iter().rev().collect();
        assert_eq!(forward(&mut task, Side::A, &up), up);
        assert_eq!(forward(&mut task, Side::B, &down), down);
        let mut closings = task.on_eof(Side::A);
        closings.extend(task.on_eof(Side::B));
        assert_eq!(task.outcome(), Some(RelayOutcome::Completed));
        assert_each_half_once(&closings);
    }
}

#[test]
fn clean_end_finishes_transport_and_releases_socket() {
    let mut task = RelayTask::new(EndpointKind::Socket, EndpointKind::Transport);
    assert_eq!(
        task.on_eof(Side::A),
        vec![
            Closing { half: half(Side::A, HalfDir::Recv), op: Teardown::Release },
            Closing { half: half(Side::B, HalfDir::Send), op: Teardown::Finish },
        ]
    );
    assert_eq!(task.outcome(), None);
    assert_eq!(
        task.on_eof(Side::B),
        vec![
            Closing { half: half(Side::B, HalfDir::Recv), op: Teardown::Release },
            Closing { half: half(Side::A, HalfDir::Send), op: Teardown::Release },
        ]
    );
    assert_eq!(task.outcome(), Some(RelayOutcome::Completed));
}

#[test]
fn zero_byte_streams_complete() {
    let mut task = RelayTask::new(EndpointKind::Transport, EndpointKind::Transport);
    assert_eq!(task.on_eof(Side::B).len(), 2);
    assert_eq!(task.on_eof(Side::A).len(), 2);
    assert_eq!(task.phase(Side::A), LegPhase::Ended(LegEnd::Completed));
    assert_eq!(task.outcome(), Some(RelayOutcome::Completed));
}

#[test]
fn cancellation_aborts_every_open_half() {
    let mut task = RelayTask::new(EndpointKind::Socket, EndpointKind::Transport);
    let _ = forward(&mut task, Side::A, b"partial");
    let _ = task.on_data(Side::B, b"in flight".to_vec());
    let closings = task.cancel();
    assert_eq!(
        closings,
        vec![
            Closing { half: half(Side::A, HalfDir::Recv), op: Teardown::Release },
            Closing { half: half(Side::B, HalfDir::Send), op: Teardown::Reset },
            Closing { half: half(Side::B, HalfDir::Recv), op: Teardown::Stop },
            Closing { half: half(Side::A, HalfDir::Send), op: Teardown::Release },
        ]
    );
    assert!(task.is_finished());
    assert_eq!(task.outcome(), Some(RelayOutcome::Cancelled));
    assert!(task.cancel().is_empty());
    assert_eq!(task.on_data(Side::A, b"late".to_vec()), None);
    assert!(!task.on_written(Side::B));
    assert!(task.on_eof(Side::A).is_empty());
}

#[test]
fn cancellation_at_every_point_closes_each_half_once() {
    // Every interleaving prefix of a fixed run, then cancellation.
    let script: [(u8, Side); 8] = [
        (0, Side::A),
        (1, Side::A),
        (0, Side::B),
        (0, Side::A),
        (1, Side::B),
        (1, Side::A),
        (2, Side::B),
        (2, Side::A),
    ];
    for cut in 0..=script.len() {
        let mut task = RelayTask::new(EndpointKind::Transport, EndpointKind::Socket);
        let mut closings = Vec::new();
        for &(kind, side) in &script[..cut] {
            match kind {
                0 => {
                    let _ = task.on_data(side, vec![cut as u8; 3]);
                }
                1 => {
                    let _ = task.on_written(side);
                }
                _ => closings.extend(task.on_eof(side)),
            }
        }
        closings.extend(task.cancel());
        closings.extend(task.cancel());
        assert!(task.is_finished());
        assert_eq!(closings.len(), 4);
        assert_each_half_once(&closings);
        let expected = if cut == script.len() { RelayOutcome::Completed } else { RelayOutcome::Cancelled };
        assert_eq!(task.outcome(), Some(expected));
    }
}

#[test]
fn io_error_cancels_the_other_leg() {
    let mut task = RelayTask::new(EndpointKind::Socket, EndpointKind::Transport);
    let closings = task.on_error(Side::B);
    assert_eq!(
        closings,
        vec![
            Closing { half: half(Side::A, HalfDir::Recv), op: Teardown::Release },
            Closing { half: half(Side::B, HalfDir::Send), op: Teardown::Reset },
            Closing { half: half(Side::B, HalfDir::Recv), op: Teardown::Stop },
            Closing { half: half(Side::A, HalfDir::Send), op: Teardown::Release },
        ]
    );
    assert_eq!(task.phase(Side::A), LegPhase::Ended(LegEnd::Cancelled));
    assert_eq!(task.phase(Side::B), LegPhase::Ended(LegEnd::Failed));
    assert_eq!(task.outcome(), Some(RelayOutcome::IoError));
    assert!(task.on_error(Side::A).is_empty());
}

#[test]
fn error_after_one_leg_completed_only_closes_the_other() {
    let mut task = RelayTask::new(EndpointKind::Socket, EndpointKind::Transport);
    assert_eq!(task.on_eof(Side::A).len(), 2);
    let closings = task.on_error(Side::B);
    assert_eq!(closings.len(), 2);
    assert_eq!(task.phase(Side::A), LegPhase::Ended(LegEnd::Completed));
    assert_eq!(task.outcome(), Some(RelayOutcome::IoError));
}
