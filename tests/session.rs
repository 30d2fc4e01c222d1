use rollback_breakout::session::{run_frames, wait_for_players, Session, SessionError, SessionStatus, MAX_PREDICTION};
use rollback_breakout::world::World;

fn same(a: &World, b: &World) -> bool {
    a.balls == b.balls
        && a.paddles == b.paddles
        && a.cells == b.cells
        && a.walls == b.walls
        && a.items == b.items
        && a.capture_count == b.capture_count
        && a.items_spawned == b.items_spawned
        && a.timer == b.timer
        && a.result == b.result
}

fn local_inputs(n: usize) -> Vec<u8> {
    (0..n).map(|t| [1u8, 2, 0, 3, 2][t % 5]).collect()
}

fn remote_inputs(n: usize) -> Vec<u8> {
    (0..n).map(|t| [2u8, 2, 1, 0][t % 4]).collect()
}

#[test]
fn determinism_two_runs_agree() {
    let frames: Vec<[u8; 2]> = (0..300).map(|t| [(t % 3) as u8, ((t / 7) % 4) as u8]).collect();
    let mut a = World::new_match();
    let mut b = World::new_match();
    run_frames(&mut a, &frames);
    run_frames(&mut b, &frames);
    assert!(same(&a, &b));
    assert_eq!(a.timer.remaining_ticks, 7200 - 300);
}

#[test]
fn rollback_matches_straight_run() {
    let n = 200;
    let locals = local_inputs(n);
    let remotes = remote_inputs(n);
    let mut s = Session::start(World::new_match(), 2, 1).ok().expect("session");
    let mut rolled = 0;
    let mut confirmed = 0;
    for t in 0..n {
        s.advance_frame(locals[t]).expect("within the prediction window");
        if t % 3 == 2 {
            while s.pending_frames() > 0 {
                if s.add_remote_input(remotes[confirmed]).expect("pending frame") {
                    rolled += 1;
                }
                confirmed += 1;
            }
        }
    }
    while s.pending_frames() > 0 {
        s.add_remote_input(remotes[confirmed]).expect("pending frame");
        confirmed += 1;
    }
    assert_eq!(confirmed, n);
    assert!(rolled > 0);
    let frames: Vec<[u8; 2]> = (0..n)
        .map(|t| {
            let local = if t < 2 { 0 } else { locals[t - 2] };
            [remotes[t], local]
        })
        .collect();
    let mut straight = World::new_match();
    run_frames(&mut straight, &frames);
    assert!(same(s.current(), &straight));
}

#[test]
fn session_start_needs_two_players() {
    assert_eq!(Session::start(World::new_match(), 1, 0).err(), Some(SessionError::InvalidPlayers));
    assert_eq!(Session::start(World::new_match(), 2, 2).err(), Some(SessionError::InvalidPlayers));
    assert!(Session::start(World::new_match(), 2, 0).is_ok());
}

#[test]
fn session_stalls_when_the_peer_is_silent() {
    let mut s = Session::start(World::new_match(), 2, 0).ok().expect("session");
    assert_eq!(s.add_remote_input(0), Err(SessionError::NoPendingFrame));
    for _ in 0..MAX_PREDICTION {
        assert!(s.advance_frame(1).is_ok());
    }
    assert!(s.is_awaiting_peer());
    assert_eq!(s.status(), SessionStatus::AwaitingPeer);
    assert_eq!(s.advance_frame(1).err(), Some(SessionError::PredictionThreshold));
    assert_eq!(s.pending_frames(), MAX_PREDICTION);
    assert_eq!(s.add_remote_input(0), Ok(false));
    assert!(!s.is_awaiting_peer());
    assert_eq!(s.add_remote_input(3), Ok(true));
    assert_eq!(s.status(), SessionStatus::Running);
    assert!(!s.is_finished());
}

#[test]
fn sync_test_frames_match_a_straight_run() {
    let mut s = Session::start_synctest(World::new_match());
    let inputs: Vec<u8> = (0..120).map(|t| (t % 4) as u8).collect();
    for &i in &inputs {
        assert!(s.sync_test_frame(i).is_ok());
        assert_eq!(s.pending_frames(), 0);
    }
    let frames: Vec<[u8; 2]> = inputs.iter().map(|&i| [i, i]).collect();
    let mut straight = World::new_match();
    run_frames(&mut straight, &frames);
    assert!(same(s.current(), &straight));
}

#[test]
fn matchmaking_waits_then_starts_or_aborts() {
    assert!(wait_for_players(0, 0).is_none());
    assert!(wait_for_players(1, 0).is_none());
    let started = wait_for_players(2, 1).expect("enough peers");
    let s = started.ok().expect("two peers are seated");
    assert_eq!(s.pending_frames(), 0);
    assert!(same(s.current(), &World::new_match()));
    match wait_for_players(3, 0) {
        Some(Err(e)) => assert_eq!(e, SessionError::InvalidPlayers),
        _ => panic!("three peers cannot be seated"),
    }
}
