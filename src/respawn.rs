//! Serving balls again: a team left without a ball gets a waiting one, which
//! sits in front of the team's paddle until its countdown ends and is then
//! served straight ahead; balls that have come to rest are removed.
use vstd::prelude::*;
use crate::collision::{balls_wf, paddle_direction};
use crate::components::{
    Ball, BallEntity, PaddleEntity, RespawningBall, Team, Velocity, BALL_RADIUS, FIRST_BALL_SPEED,
    RESPAWN_TICKS, STOPPED_SPEED_SQ,
};
use crate::geometry::{length_squared, Vec2, COORD_LIMIT};
use crate::physics::paddles_ok;

verus! {

/// Where a waiting ball is parked before it is placed at its paddle.
pub const PARKED_Y: i64 = 10_000_000;

pub open spec fn has_team_ball(balls: Seq<BallEntity>, t: usize) -> bool {
    exists|i: int| 0 <= i < balls.len() && (#[trigger] balls[i]).team.0 == t
}

/// A new ball of team `t` waiting to be served.
pub open spec fn waiting_ball(t: usize) -> BallEntity {
    BallEntity {
        ball: Ball { radius: BALL_RADIUS },
        team: Team(t),
        pos: Vec2 { x: 0, y: PARKED_Y },
        velocity: Velocity(Vec2 { x: 0, y: 0 }),
        respawning: Some(RespawningBall(RESPAWN_TICKS)),
    }
}

/// The balls, then a waiting ball for team 0 if it has none, then one for
/// team 1 if it has none.
pub open spec fn respawned(balls: Seq<BallEntity>) -> Seq<BallEntity> {
    let with0 = if has_team_ball(balls, 0) { balls } else { balls.push(waiting_ball(0)) };
    if has_team_ball(balls, 1) { with0 } else { with0.push(waiting_ball(1)) }
}

/// Gives a waiting ball to each team that has no ball.
pub fn respawn_balls(balls: &mut Vec<BallEntity>)
    requires
        balls_wf(old(balls)@, 4 * COORD_LIMIT),
    ensures
        final(balls)@ == respawned(old(balls)@),
        final(balls)@.len() <= old(balls)@.len() + 2,
        balls_wf(final(balls)@, 4 * COORD_LIMIT),
{
    let mut has0 = false;
    let mut has1 = false;
    let mut i: usize = 0;
    while i < balls.len()
        invariant
            0 <= i <= balls.len(),
            has0 == exists|k: int| 0 <= k < i && (#[trigger] balls@[k]).team.0 == 0,
            has1 == exists|k: int| 0 <= k < i && (#[trigger] balls@[k]).team.0 == 1,
        decreases balls.len() - i,
    {
        let t = balls[i].team.0;
        if t == 0 {
            has0 = true;
        }
        if t == 1 {
            has1 = true;
        }
        i = i + 1;
    }
    let w = Vec2 { x: 0, y: PARKED_Y };
    if !has0 {
        balls.push(BallEntity {
            ball: Ball { radius: BALL_RADIUS },
            team: Team(0),
            pos: w,
            velocity: Velocity(Vec2 { x: 0, y: 0 }),
            respawning: Some(RespawningBall(RESPAWN_TICKS)),
        });
    }
    if !has1 {
        balls.push(BallEntity {
            ball: Ball { radius: BALL_RADIUS },
            team: Team(1),
            pos: w,
            velocity: Velocity(Vec2 { x: 0, y: 0 }),
            respawning: Some(RespawningBall(RESPAWN_TICKS)),
        });
    }
}

/// The first paddle of team `t` from index `i` on.
pub open spec fn team_paddle(paddles: Seq<PaddleEntity>, t: Team, i: int) -> Option<PaddleEntity>
    decreases paddles.len() - i,
{
    if i < 0 || i >= paddles.len() {
        None
    } else if paddles[i].team == t {
        Some(paddles[i])
    } else {
        team_paddle(paddles, t, i + 1)
    }
}

/// A waiting ball after one tick: its countdown advances; if its team has a
/// paddle it is placed five radii in front of it, and served straight ahead
/// at the first speed once the countdown has ended.
pub open spec fn handled(b: BallEntity, paddles: Seq<PaddleEntity>) -> BallEntity {
    match b.respawning {
        None => b,
        Some(RespawningBall(t)) => {
            let left = if t == 0 { 0 } else { (t - 1) as u32 };
            match team_paddle(paddles, b.team, 0) {
                None => BallEntity { respawning: Some(RespawningBall(left)), ..b },
                Some(p) => {
                    let dir = paddle_direction(b.team);
                    let pos = Vec2 { x: p.pos.x, y: (p.pos.y + dir * 5 * BALL_RADIUS) as i64 };
                    if left == 0 {
                        BallEntity {
                            pos,
                            velocity: Velocity(Vec2 { x: 0, y: (dir * FIRST_BALL_SPEED) as i64 }),
                            respawning: None,
                            ..b
                        }
                    } else {
                        BallEntity { pos, respawning: Some(RespawningBall(left)), ..b }
                    }
                },
            }
        },
    }
}

fn find_team_paddle(paddles: &Vec<PaddleEntity>, t: Team) -> (r: Option<PaddleEntity>)
    ensures
        r == team_paddle(paddles@, t, 0),
{
    let mut i: usize = 0;
    while i < paddles.len()
        invariant
            0 <= i <= paddles.len(),
            team_paddle(paddles@, t, 0) == team_paddle(paddles@, t, i as int),
        decreases paddles.len() - i,
    {
        if paddles[i].team == t {
            return Some(paddles[i]);
        }
        i = i + 1;
    }
    None
}

proof fn lemma_team_paddle_ok(paddles: Seq<PaddleEntity>, t: Team, i: int)
    requires
        paddles_ok(paddles),
    ensures
        team_paddle(paddles, t, i) matches Some(p) ==> p.wf(),
    decreases paddles.len() - i,
{
    if 0 <= i < paddles.len() && paddles[i].team != t {
        lemma_team_paddle_ok(paddles, t, i + 1);
    }
}

/// Advances every waiting ball.
pub fn handle_respawning_balls(balls: &mut Vec<BallEntity>, paddles: &Vec<PaddleEntity>)
    requires
        balls_wf(old(balls)@, 4 * COORD_LIMIT),
        paddles_ok(paddles@),
    ensures
        final(balls)@ == old(balls)@.map_values(|b: BallEntity| handled(b, paddles@)),
        balls_wf(final(balls)@, 4 * COORD_LIMIT),
{
    let ghost start = balls@;
    let mut i: usize = 0;
    while i < balls.len()
        invariant
            0 <= i <= balls.len(),
            balls@.len() == start.len(),
            balls_wf(start, 4 * COORD_LIMIT),
            paddles_ok(paddles@),
            forall|j: int| 0 <= j < i ==> #[trigger] balls@[j] == handled(start[j], paddles@),
            forall|j: int| i <= j < balls@.len() ==> #[trigger] balls@[j] == start[j],
            balls_wf(balls@, 4 * COORD_LIMIT),
        decreases balls.len() - i,
    {
        let b = balls[i];
        assert(start[i as int].wf(4 * COORD_LIMIT));
        if let Some(RespawningBall(t)) = b.respawning {
            let left: u32 = if t == 0 { 0 } else { t - 1 };
            let nb = match find_team_paddle(paddles, b.team) {
                None => BallEntity { respawning: Some(RespawningBall(left)), ..b },
                Some(p) => {
                    proof { lemma_team_paddle_ok(paddles@, b.team, 0); }
                    let up = b.team.0 == 0;
                    let y = if up { p.pos.y + 5 * BALL_RADIUS } else { p.pos.y - 5 * BALL_RADIUS };
                    let pos = Vec2 { x: p.pos.x, y };
                    if left == 0 {
                        let vy = if up { FIRST_BALL_SPEED } else { -FIRST_BALL_SPEED };
                        assert(vy * vy == FIRST_BALL_SPEED * FIRST_BALL_SPEED) by (nonlinear_arith)
                            requires vy == FIRST_BALL_SPEED || vy == -FIRST_BALL_SPEED;
                        BallEntity { pos, velocity: Velocity(Vec2 { x: 0, y: vy }), respawning: None, ..b }
                    } else {
                        BallEntity { pos, respawning: Some(RespawningBall(left)), ..b }
                    }
                },
            };
            assert(0 <= nb.ball.radius <= crate::components::RADIUS_LIMIT);
            assert(nb.team.0 < 2);
            assert(nb.pos.within(4 * COORD_LIMIT));
            assert(crate::components::velocity_ok(nb.velocity.0));
            assert(nb.wf(4 * COORD_LIMIT));
            assert(nb == handled(start[i as int], paddles@));
            balls.set(i, nb);
        }
        assert(balls@[i as int].wf(4 * COORD_LIMIT));
        i = i + 1;
    }
    assert(balls@ =~= start.map_values(|b: BallEntity| handled(b, paddles@)));
}

/// A ball in play whose squared speed has fallen below the rest threshold.
pub open spec fn stopped(b: BallEntity) -> bool {
    b.respawning.is_none() && b.velocity.0.len_sq() < STOPPED_SPEED_SQ
}

/// Removes every ball in play that has come to rest.
pub fn despawn_stopped_balls(balls: &mut Vec<BallEntity>)
    requires
        balls_wf(old(balls)@, 4 * COORD_LIMIT),
    ensures
        final(balls)@ == old(balls)@.filter(|b: BallEntity| !stopped(b)),
        final(balls)@.len() <= old(balls)@.len(),
        balls_wf(final(balls)@, 4 * COORD_LIMIT),
{
    let ghost start = balls@;
    let mut out: Vec<BallEntity> = Vec::new();
    let mut i: usize = 0;
    while i < balls.len()
        invariant
            0 <= i <= balls.len(),
            balls@ == start,
            balls_wf(start, 4 * COORD_LIMIT),
            out@ == start.subrange(0, i as int).filter(|b: BallEntity| !stopped(b)),
            out@.len() <= i,
            balls_wf(out@, 4 * COORD_LIMIT),
        decreases balls.len() - i,
    {
        let b = balls[i];
        proof {
            reveal(Seq::filter);
            assert(start.subrange(0, i as int + 1).drop_last() =~= start.subrange(0, i as int));
        }
        assert(start[i as int].wf(4 * COORD_LIMIT));
        let v = b.velocity.0;
        let n = length_squared(v.x, v.y);
        if !(b.respawning.is_none() && n < STOPPED_SPEED_SQ) {
            out.push(b);
        }
        i = i + 1;
    }
    assert(start.subrange(0, start.len() as int) =~= start);
    *balls = out;
}

} // verus!
