//! The rollback session: the local player's inputs run ahead with the remote
//! player's input predicted as its last confirmed value; when a remote input
//! arrives that differs from the prediction, the session restores the last
//! confirmed state and simulates the unconfirmed frames again.
use vstd::prelude::*;
use crate::setup::is_new_match;
use crate::world::{room_for_tick, step_spec, tick_spec, TickEvents, World, WorldView, BALL_GROWTH};

verus! {

/// Players in a match.
pub const NUM_PLAYERS: usize = 2;
/// Frames by which local input is held back before it takes effect.
pub const INPUT_DELAY: usize = 2;
/// The most frames the session runs ahead of the last confirmed one.
pub const MAX_PREDICTION: usize = 8;

#[derive(Clone, Copy, Debug, PartialEq, Eq, Structural)]
pub enum SessionError {
    /// The session was to be built for a number of peers other than
    /// `NUM_PLAYERS`, or for a local seat that does not exist.
    InvalidPlayers,
    /// The session is `MAX_PREDICTION` frames ahead of the remote player and
    /// waits for its input.
    PredictionThreshold,
    /// A remote input arrived for a frame that has not been simulated yet.
    NoPendingFrame,
    /// The spawned-item counter or the number of balls is too close to its
    /// machine limit for the frames the session may have to simulate.
    CounterLimit,
}

/// What a running session is doing.
#[derive(Clone, Copy, Debug, PartialEq, Eq, Structural)]
pub enum SessionStatus {
    /// Frames advance, with the remote input predicted where it is missing.
    Running,
    /// The prediction window is full: no frame advances until the remote
    /// player's input arrives.
    AwaitingPeer,
    /// The match has a result.
    Finished,
}

/// Bound on the spawned-item counter below which the session simulates.
pub const SPAWN_GUARD: usize = 0x4000_0000;
/// Bound on the number of balls below which the session simulates.
pub const BALL_GUARD: usize = 0x100_0000;

/// The counters are far enough below their machine limits that the frames a
/// confirmation may replay (at most `MAX_PREDICTION + 1`) all have room.
pub open spec fn within_limits(w: WorldView) -> bool {
    w.items_spawned <= SPAWN_GUARD && w.balls.len() <= BALL_GUARD
}

/// What `k` ticks can at most make of counters that were within the limits.
pub open spec fn within_limits_after(w: WorldView, k: int) -> bool {
    &&& w.balls.len() <= BALL_GUARD + BALL_GROWTH * k
    &&& w.items_spawned <= SPAWN_GUARD + k * (BALL_GUARD + BALL_GROWTH * 9)
}

proof fn lemma_limits_step(a: WorldView, b: WorldView, k: int)
    requires
        0 <= k <= 9,
        within_limits_after(a, k),
        b.items_spawned <= a.items_spawned + a.balls.len(),
        b.balls.len() <= a.balls.len() + BALL_GROWTH,
    ensures
        room_for_tick(a),
        k < 9 ==> within_limits_after(b, k + 1),
{
    assert(k * (BALL_GUARD + BALL_GROWTH * 9) <= 9 * (BALL_GUARD + BALL_GROWTH * 9)) by (nonlinear_arith)
        requires 0 <= k <= 9;
    assert(k * (BALL_GUARD + BALL_GROWTH * 9) + (BALL_GUARD + BALL_GROWTH * 9) == (k + 1) * (BALL_GUARD
        + BALL_GROWTH * 9)) by (nonlinear_arith);
}

/// The input records of one frame: player 0's, then player 1's.
pub open spec fn frame_inputs(local_player: usize, local: u8, remote: u8) -> Seq<u8> {
    if local_player == 0 { seq![local, remote] } else { seq![remote, local] }
}

/// The world after the frames, one tick each, in order.
pub open spec fn run(w: WorldView, frames: Seq<Seq<u8>>) -> WorldView
    decreases frames.len(),
{
    if frames.len() == 0 {
        w
    } else {
        step_spec(run(w, frames.drop_last()), frames.last())
    }
}

/// Running two histories one after the other is running their concatenation.
pub proof fn lemma_run_append(w: WorldView, a: Seq<Seq<u8>>, b: Seq<Seq<u8>>)
    ensures
        run(run(w, a), b) == run(w, a + b),
    decreases b.len(),
{
    if b.len() == 0 {
        assert(a + b =~= a);
    } else {
        lemma_run_append(w, a, b.drop_last());
        assert((a + b).drop_last() =~= a + b.drop_last());
        assert((a + b).last() == b.last());
    }
}

/// The frames of a stretch of local inputs, all played against `remote`.
pub open spec fn predicted_frames(local_player: usize, locals: Seq<u8>, remote: u8) -> Seq<Seq<u8>> {
    locals.map_values(|l: u8| frame_inputs(local_player, l, remote))
}

/// A two-player session seen from one seat. It keeps the state after the
/// confirmed frames and the local inputs of the frames simulated since, which
/// is all a rollback needs: at most `MAX_PREDICTION` frames are replayed.
pub struct Session {
    local_player: usize,
    /// The state after every confirmed frame.
    confirmed: World,
    /// The state after every simulated frame, confirmed or predicted.
    current: World,
    /// Local inputs of the simulated frames not yet confirmed, oldest first.
    pending: Vec<u8>,
    /// Frames by which local input is held back.
    input_delay: usize,
    /// Local inputs still held back by the input delay, oldest first.
    delayed: Vec<u8>,
    /// The last confirmed remote input, used as the prediction.
    last_remote: u8,
    initial: Ghost<WorldView>,
    history: Ghost<Seq<Seq<u8>>>,
}

impl Session {
    pub closed spec fn local_player_spec(&self) -> usize {
        self.local_player
    }

    /// The state the session started from.
    pub closed spec fn initial_view(&self) -> WorldView {
        self.initial@
    }

    /// The inputs of every confirmed frame, in order.
    pub closed spec fn confirmed_frames(&self) -> Seq<Seq<u8>> {
        self.history@
    }

    /// The inputs of every simulated frame not yet confirmed, with the remote
    /// input predicted.
    pub closed spec fn unconfirmed_frames(&self) -> Seq<Seq<u8>> {
        predicted_frames(self.local_player, self.pending@, self.last_remote)
    }

    pub closed spec fn current_view(&self) -> WorldView {
        self.current@
    }

    pub closed spec fn confirmed_view(&self) -> WorldView {
        self.confirmed@
    }

    pub closed spec fn prediction(&self) -> u8 {
        self.last_remote
    }

    pub closed spec fn input_delay_spec(&self) -> usize {
        self.input_delay
    }

    pub closed spec fn delayed_inputs(&self) -> Seq<u8> {
        self.delayed@
    }

    pub closed spec fn pending_inputs(&self) -> Seq<u8> {
        self.pending@
    }

    pub closed spec fn wf(&self) -> bool {
        &&& self.local_player < NUM_PLAYERS
        &&& self.confirmed@.wf()
        &&& self.current@.wf()
        &&& self.confirmed@ == run(self.initial@, self.history@)
        &&& self.current@ == run(self.confirmed@, self.unconfirmed_frames())
        &&& self.pending@.len() <= MAX_PREDICTION
        &&& self.delayed@.len() == self.input_delay
    }

    /// Starts a session for `peers` players on `world`, the local player in
    /// seat `local_player`.
    pub fn start(world: World, peers: usize, local_player: usize) -> (r: Result<Session, SessionError>)
        requires
            world@.wf(),
        ensures
            r is Err <==> (peers != NUM_PLAYERS || local_player >= NUM_PLAYERS),
            r is Err ==> r == Err::<Session, SessionError>(SessionError::InvalidPlayers),
            r matches Ok(s) ==> {
                &&& s.wf()
                &&& s.initial_view() == world@
                &&& s.current_view() == world@
                &&& s.confirmed_frames().len() == 0
                &&& s.unconfirmed_frames().len() == 0
                &&& s.local_player_spec() == local_player
                &&& s.prediction() == 0
                &&& s.input_delay_spec() == INPUT_DELAY
                &&& s.delayed_inputs() == seq![0u8, 0u8]
            },
    {
        if peers != NUM_PLAYERS || local_player >= NUM_PLAYERS {
            return Err(SessionError::InvalidPlayers);
        }
        let confirmed = world.snapshot();
        let mut delayed: Vec<u8> = Vec::new();
        delayed.push(0);
        delayed.push(0);
        let s = Session {
            local_player,
            confirmed,
            current: world,
            pending: Vec::new(),
            input_delay: INPUT_DELAY,
            delayed,
            last_remote: 0,
            initial: Ghost(world@),
            history: Ghost(Seq::empty()),
        };
        assert(s.unconfirmed_frames() =~= Seq::<Seq<u8>>::empty());
        assert(s.delayed@ =~= seq![0u8, 0u8]);
        Ok(s)
    }

    /// Starts a sync-test session on `world`: both seats are played locally,
    /// with no input delay.
    pub fn start_synctest(world: World) -> (s: Session)
        requires
            world@.wf(),
        ensures
            s.wf(),
            s.initial_view() == world@,
            s.current_view() == world@,
            s.confirmed_frames().len() == 0,
            s.unconfirmed_frames().len() == 0,
            s.local_player_spec() == 0,
            s.input_delay_spec() == 0,
    {
        let confirmed = world.snapshot();
        let s = Session {
            local_player: 0,
            confirmed,
            current: world,
            pending: Vec::new(),
            input_delay: 0,
            delayed: Vec::new(),
            last_remote: 0,
            initial: Ghost(world@),
            history: Ghost(Seq::empty()),
        };
        assert(s.unconfirmed_frames() =~= Seq::<Seq<u8>>::empty());
        s
    }

    /// The state to present: every simulated frame applied.
    pub fn current(&self) -> (r: &World)
        ensures
            r@ == self.current_view(),
    {
        &self.current
    }

    /// Frames simulated ahead of the remote player's confirmed input.
    pub fn pending_frames(&self) -> (r: usize)
        requires
            self.wf(),
        ensures
            r == self.unconfirmed_frames().len(),
    {
        self.pending.len()
    }

    /// The session cannot advance until the remote player's input arrives.
    pub fn is_awaiting_peer(&self) -> (r: bool)
        requires
            self.wf(),
        ensures
            r == (self.unconfirmed_frames().len() >= MAX_PREDICTION),
    {
        self.pending.len() >= MAX_PREDICTION
    }

    /// Simulates the next frame with the local input given `INPUT_DELAY`
    /// frames ago and the predicted remote input, and reports its events;
    /// `local_input` itself is held back. Refuses, changing nothing, when
    /// `MAX_PREDICTION` frames are already unconfirmed, or when the tick would
    /// not have room for its counters.
    pub fn advance_frame(&mut self, local_input: u8) -> (r: Result<TickEvents, SessionError>)
        requires
            old(self).wf(),
        ensures
            final(self).wf(),
            final(self).initial_view() == old(self).initial_view(),
            final(self).confirmed_frames() == old(self).confirmed_frames(),
            final(self).prediction() == old(self).prediction(),
            final(self).local_player_spec() == old(self).local_player_spec(),
            final(self).input_delay_spec() == old(self).input_delay_spec(),
            r is Err <==> old(self).unconfirmed_frames().len() >= MAX_PREDICTION || !room_for_tick(old(self).current_view()),
            r is Err ==> *final(self) == *old(self),
            r matches Err(e) ==> (e == SessionError::PredictionThreshold <==> old(self).unconfirmed_frames().len() >= MAX_PREDICTION),
            r matches Err(e) ==> e == SessionError::PredictionThreshold || e == SessionError::CounterLimit,
            r matches Ok(ev) ==> {
                let t = tick_spec(
                    old(self).current_view(),
                    frame_inputs(old(self).local_player_spec(), old(self).delayed_inputs().push(local_input)[0], old(self).prediction()),
                );
                &&& ev.cell_hits@ == t.cell_hits
                &&& ev.collected@ == t.collected
                &&& ev.scored@ == t.scored
            },
            r is Ok ==> {
                &&& final(self).delayed_inputs() == old(self).delayed_inputs().push(local_input).drop_first()
                &&& final(self).unconfirmed_frames() == old(self).unconfirmed_frames().push(
                    frame_inputs(old(self).local_player_spec(), old(self).delayed_inputs().push(local_input)[0], old(self).prediction()),
                )
                &&& final(self).current_view() == step_spec(
                    old(self).current_view(),
                    frame_inputs(old(self).local_player_spec(), old(self).delayed_inputs().push(local_input)[0], old(self).prediction()),
                )
            },
    {
        if self.pending.len() >= MAX_PREDICTION {
            return Err(SessionError::PredictionThreshold);
        }
        if self.current.items_spawned.0 > usize::MAX - self.current.balls.len() {
            return Err(SessionError::CounterLimit);
        }
        let ghost old_frames = self.unconfirmed_frames();
        self.delayed.push(local_input);
        let effective = self.delayed.remove(0);
        self.pending.push(effective);
        let inputs: [u8; 2] = if self.local_player == 0 {
            [effective, self.last_remote]
        } else {
            [self.last_remote, effective]
        };
        let ghost f = frame_inputs(self.local_player, effective, self.last_remote);
        assert(inputs@ =~= f);
        let events = self.current.step(inputs);
        proof {
            assert(self.unconfirmed_frames() =~= old_frames.push(f));
            assert(self.unconfirmed_frames().drop_last() =~= old_frames);
        }
        Ok(events)
    }

    /// Confirms the oldest unconfirmed frame with the remote player's input.
    /// When it differs from the prediction, the later frames are simulated
    /// again from the confirmed state with it as the new prediction; the
    /// result says whether that happened.
    pub fn add_remote_input(&mut self, remote: u8) -> (r: Result<bool, SessionError>)
        requires
            old(self).wf(),
        ensures
            final(self).wf(),
            final(self).initial_view() == old(self).initial_view(),
            final(self).local_player_spec() == old(self).local_player_spec(),
            final(self).input_delay_spec() == old(self).input_delay_spec(),
            final(self).delayed_inputs() == old(self).delayed_inputs(),
            r is Err <==> old(self).unconfirmed_frames().len() == 0 || !within_limits(old(self).confirmed_view()),
            r is Err ==> *final(self) == *old(self),
            r matches Err(e) ==> (e == SessionError::NoPendingFrame <==> old(self).unconfirmed_frames().len() == 0),
            r matches Err(e) ==> e == SessionError::NoPendingFrame || e == SessionError::CounterLimit,
            r is Ok ==> {
                &&& r == Ok::<bool, SessionError>(remote != old(self).prediction())
                &&& final(self).prediction() == remote
                &&& final(self).pending_inputs() == old(self).pending_inputs().drop_first()
                &&& final(self).confirmed_frames() == old(self).confirmed_frames().push(
                    frame_inputs(old(self).local_player_spec(), old(self).pending_inputs()[0], remote),
                )
                &&& final(self).unconfirmed_frames() == predicted_frames(
                    old(self).local_player_spec(),
                    old(self).pending_inputs().drop_first(),
                    remote,
                )
                &&& final(self).current_view() == run(
                    old(self).initial_view(),
                    final(self).confirmed_frames() + final(self).unconfirmed_frames(),
                )
            },
    {
        if self.pending.len() == 0 {
            return Err(SessionError::NoPendingFrame);
        }
        if self.confirmed.items_spawned.0 > SPAWN_GUARD || self.confirmed.balls.len() > BALL_GUARD {
            return Err(SessionError::CounterLimit);
        }
        proof { lemma_limits_step(self.confirmed@, self.confirmed@, 0); }
        let ghost old_pending = self.pending@;
        let ghost old_remote = self.last_remote;
        let ghost old_confirmed = self.confirmed@;
        let lp = self.local_player;
        let first = self.pending.remove(0);
        let inputs: [u8; 2] = if lp == 0 { [first, remote] } else { [remote, first] };
        let ghost f = frame_inputs(lp, first, remote);
        assert(inputs@ =~= f);
        let ghost before_step = self.confirmed@;
        self.confirmed.step(inputs);
        proof { lemma_limits_step(before_step, self.confirmed@, 0); }
        self.history = Ghost(self.history@.push(f));
        proof {
            assert(self.history@.drop_last() =~= old(self).history@);
        }
        assert(self.confirmed@ == run(self.initial@, self.history@));
        let rolled_back = remote != self.last_remote;
        self.last_remote = remote;
        if rolled_back {
            let mut world = self.confirmed.snapshot();
            let mut i: usize = 0;
            while i < self.pending.len()
                invariant
                    0 <= i <= self.pending.len(),
                    self.local_player == lp,
                    lp < NUM_PLAYERS,
                    self.last_remote == remote,
                    world@.wf(),
                    self.pending@.len() < MAX_PREDICTION,
                    within_limits_after(world@, i + 1),
                    world@ == run(self.confirmed@, predicted_frames(lp, self.pending@.subrange(0, i as int), remote)),
                decreases self.pending.len() - i,
            {
                let l = self.pending[i];
                let step_inputs: [u8; 2] = if lp == 0 { [l, remote] } else { [remote, l] };
                assert(step_inputs@ =~= frame_inputs(lp, l, remote));
                let ghost w_before = world@;
                proof { lemma_limits_step(w_before, w_before, i + 1); }
                world.step(step_inputs);
                proof { lemma_limits_step(w_before, world@, i + 1); }
                proof {
                    let pre = predicted_frames(lp, self.pending@.subrange(0, i as int), remote);
                    let post = predicted_frames(lp, self.pending@.subrange(0, i as int + 1), remote);
                    assert(post.drop_last() =~= pre);
                    assert(post.last() == frame_inputs(lp, l, remote));
                }
                i = i + 1;
            }
            assert(self.pending@.subrange(0, self.pending@.len() as int) =~= self.pending@);
            self.current = world;
        } else {
            proof {
                let all = predicted_frames(lp, old_pending, old_remote);
                let rest = predicted_frames(lp, self.pending@, remote);
                assert(all =~= seq![f] + rest);
                lemma_run_append(old_confirmed, seq![f], rest);
                assert(seq![f].drop_last() =~= Seq::<Seq<u8>>::empty());
                assert(seq![f].last() == f);
                assert(run(old_confirmed, Seq::<Seq<u8>>::empty()) == old_confirmed);
                assert(run(old_confirmed, seq![f]) == step_spec(old_confirmed, f));
                assert(self.confirmed@ == run(old_confirmed, seq![f]));
                assert(self.current@ == run(old_confirmed, all));
                assert(self.current@ == run(self.confirmed@, rest));
            }
        }
        proof {
            assert(self.pending@ =~= old_pending.drop_first());
            lemma_prediction_consistency(*self);
        }
        Ok(rolled_back)
    }

    pub fn status(&self) -> (r: SessionStatus)
        requires
            self.wf(),
        ensures
            self.current_view().result.is_some() ==> r == SessionStatus::Finished,
            self.current_view().result.is_none() && self.unconfirmed_frames().len() >= MAX_PREDICTION
                ==> r == SessionStatus::AwaitingPeer,
            self.current_view().result.is_none() && self.unconfirmed_frames().len() < MAX_PREDICTION
                ==> r == SessionStatus::Running,
    {
        if self.current.result.is_some() {
            SessionStatus::Finished
        } else if self.pending.len() >= MAX_PREDICTION {
            SessionStatus::AwaitingPeer
        } else {
            SessionStatus::Running
        }
    }

    /// One frame of a sync test: both seats are played with the same input,
    /// and the frame is confirmed at once, so the presented state is always
    /// the confirmed one; the tick's events are reported.
    pub fn sync_test_frame(&mut self, input: u8) -> (r: Result<TickEvents, SessionError>)
        requires
            old(self).wf(),
            old(self).input_delay_spec() == 0,
            old(self).unconfirmed_frames().len() == 0,
        ensures
            final(self).wf(),
            final(self).input_delay_spec() == 0,
            final(self).unconfirmed_frames().len() == 0,
            final(self).initial_view() == old(self).initial_view(),
            r is Err <==> !within_limits(old(self).current_view()),
            r is Err ==> r == Err::<TickEvents, SessionError>(SessionError::CounterLimit) && *final(self) == *old(self),
            r matches Ok(ev) ==> {
                let t = tick_spec(old(self).current_view(), seq![input, input]);
                &&& final(self).confirmed_frames() == old(self).confirmed_frames().push(seq![input, input])
                &&& final(self).current_view() == t.world
                &&& final(self).current_view() == run(final(self).initial_view(), final(self).confirmed_frames())
                &&& ev.cell_hits@ == t.cell_hits
                &&& ev.collected@ == t.collected
                &&& ev.scored@ == t.scored
            },
    {
        if self.current.items_spawned.0 > SPAWN_GUARD || self.current.balls.len() > BALL_GUARD {
            return Err(SessionError::CounterLimit);
        }
        proof {
            lemma_rollback_equivalence(*self);
            assert(self.unconfirmed_frames() =~= Seq::<Seq<u8>>::empty());
            assert(self.current@ == self.confirmed@);
            lemma_limits_step(self.current@, self.current@, 0);
        }
        let ghost before = self.confirmed_frames();
        self.last_remote = input;
        proof {
            assert(self.unconfirmed_frames() =~= Seq::<Seq<u8>>::empty());
            assert(self.delayed@.push(input)[0] == input);
            assert(frame_inputs(self.local_player, input, input) =~= seq![input, input]);
        }
        let events = match self.advance_frame(input) {
            Ok(ev) => ev,
            Err(e) => {
                return Err(e);
            },
        };
        let _ = self.add_remote_input(input);
        proof {
            assert(self.pending@.len() == 0);
            lemma_rollback_equivalence(*self);
            assert(self.confirmed_frames().drop_last() =~= before);
        }
        Ok(events)
    }

    /// The match is over: the presented state has a result.
    pub fn is_finished(&self) -> (r: bool)
        ensures
            r == self.current_view().result.is_some(),
    {
        self.current.result.is_some()
    }
}

/// Rollback equivalence: however the remote inputs were predicted and
/// corrected along the way, once every simulated frame is confirmed the
/// presented state is the state reached by running the confirmed inputs
/// straight through from the start.
pub proof fn lemma_rollback_equivalence(s: Session)
    requires
        s.wf(),
        s.unconfirmed_frames().len() == 0,
    ensures
        s.current_view() == run(s.initial_view(), s.confirmed_frames()),
{
    assert(s.unconfirmed_frames() =~= Seq::<Seq<u8>>::empty());
}

/// At any moment the presented state is the result of running the confirmed
/// frames and then the predicted ones from the start.
pub proof fn lemma_prediction_consistency(s: Session)
    requires
        s.wf(),
    ensures
        s.current_view() == run(s.initial_view(), s.confirmed_frames() + s.unconfirmed_frames()),
{
    lemma_run_append(s.initial_view(), s.confirmed_frames(), s.unconfirmed_frames());
}

/// Determinism: the same starting state and the same inputs give the same
/// state after every frame.
pub proof fn lemma_determinism(a: WorldView, b: WorldView, frames: Seq<Seq<u8>>, n: int)
    requires
        a == b,
        0 <= n <= frames.len(),
    ensures
        run(a, frames.subrange(0, n)) == run(b, frames.subrange(0, n)),
{
}

/// Runs the frames straight through, each fully confirmed.
pub fn run_frames(world: &mut World, frames: &Vec<[u8; 2]>)
    requires
        old(world)@.wf(),
        old(world)@.items_spawned + frames@.len() * (old(world)@.balls.len() + BALL_GROWTH * frames@.len())
            <= usize::MAX,
    ensures
        final(world)@.wf(),
        final(world)@ == run(old(world)@, frames@.map_values(|f: [u8; 2]| f@)),
{
    let ghost w0 = world@;
    let ghost all = frames@.map_values(|f: [u8; 2]| f@);
    let ghost n = frames@.len() as int;
    let ghost b0 = w0.balls.len() as int;
    let ghost s0 = w0.items_spawned as int;
    let mut i: usize = 0;
    while i < frames.len()
        invariant
            0 <= i <= frames.len(),
            world@.wf(),
            all == frames@.map_values(|f: [u8; 2]| f@),
            world@ == run(w0, all.subrange(0, i as int)),
            n == frames@.len(),
            b0 == w0.balls.len(),
            s0 + n * (b0 + BALL_GROWTH * n) <= usize::MAX,
            world@.balls.len() <= b0 + BALL_GROWTH * i,
            world@.items_spawned <= s0 + i * (b0 + BALL_GROWTH * n),
        decreases frames.len() - i,
    {
        let f = frames[i];
        let ghost wb = world@;
        proof {
            let i = i as int;
            assert(b0 + BALL_GROWTH * i <= b0 + BALL_GROWTH * n) by (nonlinear_arith)
                requires i < n;
            assert(s0 + i * (b0 + BALL_GROWTH * n) + (b0 + BALL_GROWTH * n) == s0 + (i + 1) * (b0
                + BALL_GROWTH * n)) by (nonlinear_arith);
            assert((i + 1) * (b0 + BALL_GROWTH * n) <= n * (b0 + BALL_GROWTH * n)) by (nonlinear_arith)
                requires i + 1 <= n, b0 >= 0, n >= 0;
        }
        world.step(f);
        proof {
            assert(all.subrange(0, i as int + 1).drop_last() =~= all.subrange(0, i as int));
            assert(all.subrange(0, i as int + 1).last() == f@);
        }
        i = i + 1;
    }
    assert(all.subrange(0, frames.len() as int) =~= all);
}

/// Matchmaking: with fewer than `NUM_PLAYERS` peers connected, keep waiting
/// (`None`); otherwise start a new match in a session for exactly that many
/// peers with the fixed input delay, or abort the start with the error when
/// the peers cannot all be seated (more than `NUM_PLAYERS`, or a local seat
/// that does not exist), so that matchmaking is retried.
pub fn wait_for_players(connected: usize, local_player: usize) -> (r: Option<Result<Session, SessionError>>)
    ensures
        r is None <==> connected < NUM_PLAYERS,
        r matches Some(Err(e)) ==> e == SessionError::InvalidPlayers,
        r matches Some(res) ==> (res is Err <==> (connected != NUM_PLAYERS || local_player >= NUM_PLAYERS)),
        r matches Some(Ok(s)) ==> {
            &&& s.wf()
            &&& is_new_match(s.initial_view())
            &&& s.current_view() == s.initial_view()
            &&& s.confirmed_frames().len() == 0
            &&& s.unconfirmed_frames().len() == 0
            &&& s.local_player_spec() == local_player
            &&& s.input_delay_spec() == INPUT_DELAY
        },
{
    if connected < NUM_PLAYERS {
        return None;
    }
    Some(Session::start(World::new_match(), connected, local_player))
}

} // verus!
