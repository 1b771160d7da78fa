use roads_proxy::relay::{
    Demand, Direction, IoCause, Operation, Relay, RelayError, TunnelResult, TunnelStatus,
    BUFFER_CAPACITY,
};

const UP: Direction = Direction::Upstream;
const DOWN: Direction = Direction::Downstream;

const IDLE: Demand = Demand { read: 0, write: 0, shutdown: false };

/// Hands `bytes` from the source of `dir` to its sink in one read and one write.
fn carry(relay: &mut Relay, dir: Direction, bytes: &[u8]) -> Vec<u8> {
    assert!(relay.on_read(dir, bytes));
    let seen = relay.pending(dir).to_vec();
    assert!(relay.on_written(dir, seen.len()));
    seen
}

fn close(relay: &mut Relay, dir: Direction) {
    assert!(relay.on_read(dir, &[]));
    assert!(relay.on_shutdown(dir));
}

#[test]
fn a_new_relay_wants_to_read_on_both_directions() {
    let relay = Relay::new();
    assert_eq!(BUFFER_CAPACITY, 8192);
    let want = Demand { read: 8192, write: 0, shutdown: false };
    assert_eq!(relay.demand(UP), want);
    assert_eq!(relay.demand(DOWN), want);
    assert!(!relay.is_finished());
    assert_eq!(relay.outcome(), None);
    assert!(relay.pending(UP).is_empty());
    assert!(relay.pending(DOWN).is_empty());
}

#[test]
fn the_other_direction_is_the_reverse() {
    assert_eq!(UP.reverse(), DOWN);
    assert_eq!(DOWN.reverse(), UP);
}

#[test]
fn bytes_of_the_client_reach_the_destination_unchanged() {
    let mut relay = Relay::new();
    assert_eq!(carry(&mut relay, UP, b"hello"), b"hello");
    assert_eq!(carry(&mut relay, DOWN, b"hello"), b"hello");
    close(&mut relay, UP);
    close(&mut relay, DOWN);
    assert_eq!(
        relay.outcome(),
        Some(TunnelResult { from_client: 5, from_server: 5, status: TunnelStatus::Success })
    );
}

#[test]
fn bytes_keep_their_order_over_partial_writes() {
    let mut relay = Relay::new();
    let mut seen: Vec<u8> = Vec::new();
    assert!(relay.on_read(UP, b"abc"));
    assert_eq!(relay.pending(UP), b"abc");
    seen.extend_from_slice(&relay.pending(UP)[..2]);
    assert!(relay.on_written(UP, 2));
    assert_eq!(relay.pending(UP), b"c");
    assert!(relay.on_read(UP, b"defg"));
    assert_eq!(relay.pending(UP), b"cdefg");
    assert_eq!(relay.demand(UP), Demand { read: 8192 - 5, write: 5, shutdown: false });
    seen.extend_from_slice(&relay.pending(UP)[..1]);
    assert!(relay.on_written(UP, 1));
    seen.extend_from_slice(relay.pending(UP));
    assert!(relay.on_written(UP, 4));
    assert!(relay.pending(UP).is_empty());
    assert_eq!(seen, b"abcdefg");
    assert!(relay.pending(DOWN).is_empty());
    assert!(relay.on_error(UP, Operation::Read, IoCause::Other));
    assert_eq!(relay.outcome().unwrap().from_client, 7);
    assert_eq!(relay.outcome().unwrap().from_server, 0);
}

#[test]
fn a_half_close_is_passed_on_after_the_last_byte() {
    let mut relay = Relay::new();
    assert!(relay.on_read(UP, b"last words"));
    assert!(relay.on_read(DOWN, b"still coming"));
    let down_before = relay.demand(DOWN);
    assert!(relay.on_read(UP, &[]));
    assert!(!relay.is_finished());
    assert_eq!(relay.demand(UP), Demand { read: 0, write: 10, shutdown: false });
    assert!(!relay.on_shutdown(UP));
    assert_eq!(relay.pending(UP), b"last words");
    assert!(relay.on_written(UP, 10));
    assert_eq!(relay.demand(UP), Demand { read: 0, write: 0, shutdown: true });
    assert!(relay.on_shutdown(UP));
    assert_eq!(relay.demand(UP), IDLE);
    assert!(!relay.is_finished());

    assert_eq!(relay.demand(DOWN), down_before);
    assert_eq!(relay.pending(DOWN), b"still coming");
    assert!(relay.on_written(DOWN, 12));
    assert_eq!(carry(&mut relay, DOWN, b" and more"), b" and more");
    close(&mut relay, DOWN);
    assert_eq!(
        relay.outcome(),
        Some(TunnelResult { from_client: 10, from_server: 21, status: TunnelStatus::Success })
    );
}

#[test]
fn nothing_is_read_after_the_end_of_a_source() {
    let mut relay = Relay::new();
    assert!(relay.on_read(UP, &[]));
    assert!(!relay.on_read(UP, b"late"));
    assert!(!relay.on_read(UP, &[]));
    assert!(relay.pending(UP).is_empty());
    assert_eq!(relay.demand(UP), Demand { read: 0, write: 0, shutdown: true });
}

#[test]
fn a_reset_ends_the_tunnel_with_the_counts_so_far() {
    let mut relay = Relay::new();
    carry(&mut relay, UP, b"GET / HTTP/1.1\r\n\r\n");
    assert!(relay.on_read(DOWN, b"HTTP/1.1 200"));
    assert!(relay.on_written(DOWN, 8));
    assert!(relay.on_error(DOWN, Operation::Read, IoCause::ConnectionReset));
    assert!(relay.is_finished());
    assert_eq!(
        relay.outcome(),
        Some(TunnelResult {
            from_client: 18,
            from_server: 8,
            status: TunnelStatus::Failed(RelayError {
                direction: DOWN,
                operation: Operation::Read,
                cause: IoCause::ConnectionReset,
            }),
        })
    );
    assert_eq!(relay.demand(UP), IDLE);
    assert_eq!(relay.demand(DOWN), IDLE);
}

#[test]
fn a_finished_tunnel_takes_no_more_reports() {
    let mut relay = Relay::new();
    assert!(relay.on_read(UP, b"abc"));
    assert!(relay.on_error(UP, Operation::Write, IoCause::BrokenPipe));
    let outcome = relay.outcome();
    assert!(!relay.on_read(DOWN, b"x"));
    assert!(!relay.on_read(DOWN, &[]));
    assert!(!relay.on_written(UP, 1));
    assert!(!relay.on_shutdown(UP));
    assert!(!relay.on_error(DOWN, Operation::Read, IoCause::TimedOut));
    assert_eq!(relay.outcome(), outcome);
    assert_eq!(relay.pending(UP), b"abc");

    let mut done = Relay::new();
    close(&mut done, UP);
    close(&mut done, DOWN);
    assert!(done.is_finished());
    assert!(!done.on_error(UP, Operation::Shutdown, IoCause::NotConnected));
    assert_eq!(
        done.outcome(),
        Some(TunnelResult { from_client: 0, from_server: 0, status: TunnelStatus::Success })
    );
}

#[test]
fn a_sink_that_accepts_nothing_has_failed() {
    let mut relay = Relay::new();
    assert!(relay.on_read(DOWN, b"abc"));
    assert!(relay.on_written(DOWN, 0));
    assert_eq!(
        relay.outcome(),
        Some(TunnelResult {
            from_client: 0,
            from_server: 0,
            status: TunnelStatus::Failed(RelayError {
                direction: DOWN,
                operation: Operation::Write,
                cause: IoCause::WriteZero,
            }),
        })
    );
}

#[test]
fn reports_that_do_not_fit_are_refused() {
    let mut relay = Relay::new();
    assert!(!relay.on_written(UP, 0));
    assert!(!relay.on_written(UP, 1));
    assert!(!relay.on_shutdown(UP));
    assert!(relay.on_read(UP, b"abc"));
    assert!(!relay.on_written(UP, 4));
    assert!(!relay.on_shutdown(UP));
    assert_eq!(relay.pending(UP), b"abc");
    assert_eq!(relay.demand(UP), Demand { read: 8189, write: 3, shutdown: false });
    assert_eq!(relay.demand(DOWN), Demand { read: 8192, write: 0, shutdown: false });
    assert_eq!(relay.outcome(), None);
}

#[test]
fn a_pipe_holds_no_more_than_its_capacity() {
    let mut relay = Relay::new();
    let big = vec![7u8; BUFFER_CAPACITY + 1];
    assert!(!relay.on_read(UP, &big));
    assert!(relay.on_read(UP, &big[..BUFFER_CAPACITY]));
    assert_eq!(relay.demand(UP), Demand { read: 0, write: 8192, shutdown: false });
    assert!(!relay.on_read(UP, b"x"));
    assert!(!relay.on_read(UP, &[]));
    assert!(relay.on_written(UP, 1));
    assert_eq!(relay.demand(UP), Demand { read: 1, write: 8191, shutdown: false });
    assert!(!relay.on_read(UP, b"xy"));
    assert!(relay.on_read(UP, b"x"));
    assert_eq!(relay.pending(UP).len(), 8192);
    assert_eq!(relay.pending(UP)[8191], b'x');
    assert_eq!(relay.pending(UP)[0], 7);
}

#[test]
fn two_tunnels_carry_only_their_own_bytes() {
    let mut first = Relay::new();
    let mut second = Relay::new();
    assert!(first.on_read(UP, b"to one"));
    assert!(second.on_read(UP, b"to two"));
    assert!(second.on_read(DOWN, b"from two"));
    assert!(first.on_read(DOWN, b"from one"));
    assert_eq!(first.pending(UP), b"to one");
    assert_eq!(second.pending(UP), b"to two");
    assert_eq!(first.pending(DOWN), b"from one");
    assert_eq!(second.pending(DOWN), b"from two");
    assert!(second.on_written(DOWN, 8));
    assert!(first.on_written(UP, 6));
    assert!(second.on_error(UP, Operation::Write, IoCause::ConnectionAborted));
    assert!(!first.is_finished());
    assert!(first.on_written(DOWN, 8));
    close(&mut first, UP);
    close(&mut first, DOWN);
    assert_eq!(
        first.outcome(),
        Some(TunnelResult { from_client: 6, from_server: 8, status: TunnelStatus::Success })
    );
    assert_eq!(
        second.outcome(),
        Some(TunnelResult {
            from_client: 0,
            from_server: 8,
            status: TunnelStatus::Failed(RelayError {
                direction: UP,
                operation: Operation::Write,
                cause: IoCause::ConnectionAborted,
            }),
        })
    );
}

#[test]
fn a_long_stream_is_counted_to_the_byte() {
    let mut relay = Relay::new();
    let chunk: Vec<u8> = (0..=255u8).cycle().take(5000).collect();
    let mut sent: Vec<u8> = Vec::new();
    let mut seen: Vec<u8> = Vec::new();
    for round in 0..40 {
        let room = relay.demand(UP).read;
        let take = room.min(chunk.len() - round);
        assert!(relay.on_read(UP, &chunk[round..round + take]));
        sent.extend_from_slice(&chunk[round..round + take]);
        let offered = relay.pending(UP);
        let accepted = (offered.len() / 3).max(1);
        seen.extend_from_slice(&offered[..accepted]);
        assert!(relay.on_written(UP, accepted));
    }
    assert!(relay.on_read(UP, &[]));
    while relay.demand(UP).write > 0 {
        let offered = relay.pending(UP).to_vec();
        seen.extend_from_slice(&offered);
        assert!(relay.on_written(UP, offered.len()));
    }
    assert!(relay.on_shutdown(UP));
    close(&mut relay, DOWN);
    assert_eq!(seen, sent);
    let result = relay.outcome().unwrap();
    assert_eq!(result.from_client, sent.len() as u64);
    assert_eq!(result.from_server, 0);
    assert_eq!(result.status, TunnelStatus::Success);
}
