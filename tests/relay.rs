use tcp_throttle::budget::{Budget, BudgetTracker, Direction, BUFFER_SIZE};
use tcp_throttle::session::{
    Action, ErrorKind, Event, ProbeError, QueueReport, RelayConfig, Session, Termination,
};

fn config(download_limit: u64, upload_limit: u64) -> RelayConfig {
    RelayConfig { download_limit, upload_limit, limit_server_recv_window: false }
}

fn tick_ok(s: &mut Session) {
    let a = s.step(Event::Tick { server_queue: Ok(0), client_queue: Ok(0) });
    assert!(matches!(a, Action::Report(_)));
}

#[test]
fn budget_remaining_is_bounded_by_buffer() {
    let b = Budget::new(1_000_000);
    assert_eq!(b.remaining(), BUFFER_SIZE);
    let b = Budget::new(1024);
    assert_eq!(b.remaining(), 1024);
}

#[test]
fn budget_record_and_reset() {
    let mut b = Budget::new(1000);
    b.record(600);
    assert_eq!(b.consumed, 600);
    assert_eq!(b.remaining(), 400);
    b.record(400);
    assert_eq!(b.remaining(), 0);
    b.reset();
    assert_eq!(b.consumed, 0);
    assert_eq!(b.remaining(), 1000);
}

#[test]
fn tracker_directions_are_independent() {
    let mut t = BudgetTracker::new(100, 200);
    t.record(Direction::Upload, 150);
    assert_eq!(t.remaining(Direction::Upload), 50);
    assert_eq!(t.remaining(Direction::Download), 100);
    t.reset();
    assert_eq!(t.remaining(Direction::Upload), 200);
}

#[test]
fn zero_limit_leaves_nothing() {
    let t = BudgetTracker::new(0, 5);
    assert_eq!(t.remaining(Direction::Download), 0);
    assert_eq!(t.remaining(Direction::Upload), 5);
}

#[test]
fn read_is_forwarded_and_charged() {
    let mut s = Session::new(&config(1024, 1024));
    let a = s.step(Event::Read { dir: Direction::Upload, data: vec![1, 2, 3] });
    match a {
        Action::Forward { dir, data } => {
            assert_eq!(dir, Direction::Upload);
            assert_eq!(data, vec![1, 2, 3]);
        }
        other => panic!("unexpected action {:?}", other),
    }
    assert_eq!(s.read_limit(Direction::Upload), 1021);
    assert_eq!(s.read_limit(Direction::Download), 1024);
}

#[test]
fn zero_length_read_ends_session() {
    let mut s = Session::new(&config(1024, 1024));
    let a = s.step(Event::Read { dir: Direction::Download, data: vec![] });
    assert!(matches!(a, Action::Stop(Termination::EndOfStream)));
    assert!(!s.is_running());
    let a = s.step(Event::Read { dir: Direction::Upload, data: vec![9] });
    assert!(matches!(a, Action::Ignore));
    let a = s.step(Event::Tick { server_queue: Ok(1), client_queue: Ok(1) });
    assert!(matches!(a, Action::Ignore));
}

#[test]
fn io_failure_ends_session() {
    let mut s = Session::new(&config(10, 10));
    let a = s.step(Event::Failed { dir: Direction::Upload });
    assert!(matches!(a, Action::Stop(Termination::Failure(ErrorKind::SessionIo))));
    assert!(!s.is_running());
}

#[test]
fn probe_failure_ends_session() {
    let mut s = Session::new(&config(10, 10));
    let a = s.step(Event::Tick { server_queue: Ok(3), client_queue: Err(ProbeError) });
    assert!(matches!(a, Action::Stop(Termination::Failure(ErrorKind::Diagnostics))));
    assert!(!s.is_running());
}

#[test]
fn exit_codes_tell_clean_end_from_failure() {
    assert_eq!(Termination::EndOfStream.exit_code(), 0);
    assert_eq!(Termination::Failure(ErrorKind::Setup).exit_code(), 1);
    assert_eq!(Termination::Failure(ErrorKind::SessionIo).exit_code(), 1);
    assert_eq!(Termination::Failure(ErrorKind::Diagnostics).exit_code(), 1);
}

#[test]
fn recv_buffer_size_follows_flag() {
    assert_eq!(config(4096, 1).server_recv_buffer_size(), None);
    let c = RelayConfig { download_limit: 4096, upload_limit: 1, limit_server_recv_window: true };
    assert_eq!(c.server_recv_buffer_size(), Some(4096));
    let c = RelayConfig { download_limit: u64::MAX, upload_limit: 1, limit_server_recv_window: true };
    assert_eq!(c.server_recv_buffer_size(), Some(u32::MAX));
}

#[test]
fn window_never_exceeds_limit() {
    let mut s = Session::new(&config(300, 300));
    let mut total: usize = 0;
    for _ in 0..10 {
        let n = s.read_limit(Direction::Download).min(70);
        if n == 0 {
            break;
        }
        let a = s.step(Event::Read { dir: Direction::Download, data: vec![7; n] });
        assert!(matches!(a, Action::Forward { .. }));
        total += n;
    }
    assert_eq!(total, 300);
    assert_eq!(s.read_limit(Direction::Download), 0);
    tick_ok(&mut s);
    assert_eq!(s.read_limit(Direction::Download), 300);
}

#[test]
fn echo_under_symmetric_limits() {
    // The client sends 4096 bytes at once to an echo endpoint through limits
    // of 1024 bytes per window in each direction.
    let mut s = Session::new(&config(1024, 1024));
    let sent: Vec<u8> = (0..4096u32).map(|i| (i % 251) as u8).collect();
    let mut to_upload: Vec<u8> = sent.clone();
    let mut echoed: Vec<u8> = Vec::new();
    let mut received: Vec<u8> = Vec::new();
    let mut windows: usize = 1;
    let mut uploaded_this_window: usize = 0;
    while received.len() < sent.len() {
        let up = s.read_limit(Direction::Upload).min(to_upload.len());
        let down = s.read_limit(Direction::Download).min(echoed.len());
        if up > 0 {
            let chunk: Vec<u8> = to_upload.drain(0..up).collect();
            match s.step(Event::Read { dir: Direction::Upload, data: chunk }) {
                Action::Forward { dir: Direction::Upload, data } => {
                    uploaded_this_window += data.len();
                    echoed.extend(data);
                }
                other => panic!("unexpected action {:?}", other),
            }
        } else if down > 0 {
            let chunk: Vec<u8> = echoed.drain(0..down).collect();
            match s.step(Event::Read { dir: Direction::Download, data: chunk }) {
                Action::Forward { dir: Direction::Download, data } => received.extend(data),
                other => panic!("unexpected action {:?}", other),
            }
        } else {
            assert!(uploaded_this_window <= 1024);
            tick_ok(&mut s);
            windows += 1;
            uploaded_this_window = 0;
        }
    }
    assert!(uploaded_this_window <= 1024);
    assert_eq!(received, sent);
    assert_eq!(windows, 4);
}

#[test]
fn zero_download_limit_starves_download() {
    let mut s = Session::new(&config(0, 1000));
    let mut uploaded: usize = 0;
    for _ in 0..5 {
        assert_eq!(s.read_limit(Direction::Download), 0);
        let n = s.read_limit(Direction::Upload);
        assert_eq!(n, 1000);
        let a = s.step(Event::Read { dir: Direction::Upload, data: vec![1; n] });
        assert!(matches!(a, Action::Forward { dir: Direction::Upload, .. }));
        uploaded += n;
        assert_eq!(s.read_limit(Direction::Upload), 0);
        tick_ok(&mut s);
    }
    assert_eq!(uploaded, 5000);
    assert_eq!(s.read_limit(Direction::Download), 0);
}

#[test]
fn tick_reports_unread_queue_depths() {
    let mut s = Session::new(&config(10, 10));
    let a = s.step(Event::Tick { server_queue: Ok(500), client_queue: Ok(0) });
    match a {
        Action::Report(r) => assert_eq!(r, QueueReport { server_queue: 500, client_queue: 0 }),
        other => panic!("unexpected action {:?}", other),
    }
    assert!(s.is_running());
}
