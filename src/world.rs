//! The entity store and one simulation tick: paddles, balls, cells, items,
//! the capture and item counters, the timer and the result.
use vstd::prelude::*;
use crate::collision::{balls_wf, cells_wf, check_collision, collide_all, walls_wf};
use crate::components::{
    BallEntity, CellClicked, CellEntity, ItemCollected, Team, Count, ItemEntity, PaddleEntity, PaddleSpeed, WallEntity,
    CAPTURES_PER_ITEM_CELL, OUT_OF_BOUNDS, RADIUS_LIMIT,
};
use crate::field::{lemma_toggled_shape, toggle_cell, toggled};
use crate::geometry::COORD_LIMIT;
use crate::item::{
    apply_effects, apply_item_effect, check_paddle_collision, collect_items, lemma_spawned_within,
    spawn_item, spawned_items,
};
use crate::physics::{
    apply_velocity, despawn_out_of_bounds_balls, despawn_out_of_bounds_items, in_bounds, items_within,
    move_items, move_paddles, moved_ball, moved_item, moved_paddle, paddle_speed_ok, paddles_ok,
};
use crate::respawn::{despawn_stopped_balls, handle_respawning_balls, handled, respawn_balls, respawned, stopped};
use crate::timer::{check_victory_conditions, owned, result_of, ticked, GameResult, GameTimer};

verus! {

/// The whole simulation state.
pub struct World {
    pub balls: Vec<BallEntity>,
    pub paddles: Vec<PaddleEntity>,
    pub cells: Vec<CellEntity>,
    pub walls: Vec<WallEntity>,
    pub items: Vec<ItemEntity>,
    /// Captures since the last cell turned item-eligible.
    pub capture_count: Count,
    /// Items spawned so far; picks the next item's kind.
    pub items_spawned: Count,
    pub paddle_speed: PaddleSpeed,
    pub timer: GameTimer,
    /// Set once, when the timer runs out; the match is then over.
    pub result: Option<GameResult>,
}

/// The mathematical value of a `World`.
pub struct WorldView {
    pub balls: Seq<BallEntity>,
    pub paddles: Seq<PaddleEntity>,
    pub cells: Seq<CellEntity>,
    pub walls: Seq<WallEntity>,
    pub items: Seq<ItemEntity>,
    pub capture_count: usize,
    pub items_spawned: usize,
    pub paddle_speed: PaddleSpeed,
    pub timer: GameTimer,
    pub result: Option<GameResult>,
}

impl View for World {
    type V = WorldView;

    open spec fn view(&self) -> WorldView {
        WorldView {
            balls: self.balls@,
            paddles: self.paddles@,
            cells: self.cells@,
            walls: self.walls@,
            items: self.items@,
            capture_count: self.capture_count.0,
            items_spawned: self.items_spawned.0,
            paddle_speed: self.paddle_speed,
            timer: self.timer,
            result: self.result,
        }
    }
}

impl WorldView {
    /// Every entity within the coordinate range, balls no faster than the
    /// maximum speed, paddles of the two teams, the capture counter in its
    /// cycle.
    pub open spec fn wf(self) -> bool {
        &&& balls_wf(self.balls, COORD_LIMIT as int)
        &&& paddles_ok(self.paddles)
        &&& cells_wf(self.cells)
        &&& walls_wf(self.walls)
        &&& items_within(self.items, COORD_LIMIT as int)
        &&& self.capture_count <= CAPTURES_PER_ITEM_CELL
        &&& paddle_speed_ok(self.paddle_speed)
    }
}

/// What one tick produced for presentation: the cells hit, the items
/// collected, and the team of each ball that reached a scoring boundary.
pub struct TickEvents {
    pub cell_hits: Vec<CellClicked>,
    pub collected: Vec<ItemCollected>,
    pub scored: Vec<Team>,
}

/// The world after one tick, with the tick's events.
pub struct TickRecord {
    pub world: WorldView,
    pub cell_hits: Seq<CellClicked>,
    pub collected: Seq<ItemCollected>,
    pub scored: Seq<Team>,
}

/// One tick under `inputs` (player 0's record, then player 1's): paddles
/// move; balls move and are resolved against walls, paddles and cells; teams
/// without a ball get a waiting one; waiting balls advance; balls at rest go;
/// items spawn at hit item-eligible cells, fall, are collected and applied;
/// hit cells change owner; the timer ticks and, when it runs out, the result
/// is set; whatever left the playfield is removed. A world whose result is set
/// no longer changes, and its ticks report nothing.
#[verifier::opaque]
pub open spec fn tick_spec(w: WorldView, inputs: Seq<u8>) -> TickRecord {
    if w.result.is_some() {
        TickRecord { world: w, cell_hits: Seq::empty(), collected: Seq::empty(), scored: Seq::empty() }
    } else {
        let paddles1 = w.paddles.map_values(
            |p: PaddleEntity| moved_paddle(p, inputs[p.team.0 as int], w.paddle_speed.0 as int, w.walls),
        );
        let balls1 = w.balls.map_values(|b: BallEntity| moved_ball(b));
        let (balls2, hits, scored) = collide_all(balls1, w.walls, paddles1, w.cells);
        let balls3 = respawned(balls2).map_values(|b: BallEntity| handled(b, paddles1)).filter(
            |b: BallEntity| !stopped(b),
        );
        let (new_items, cycle) = spawned_items(hits, w.cells, w.items_spawned as int);
        let items1 = (w.items + new_items).map_values(|it: ItemEntity| moved_item(it));
        let (items2, collected) = collect_items(items1, paddles1);
        let (balls4, paddles2) = apply_effects(balls3, paddles1, collected);
        let (cells1, captures) = toggled(w.cells, w.capture_count as int, hits);
        let timer = ticked(w.timer);
        TickRecord {
            world: WorldView {
                balls: balls4.filter(|b: BallEntity| in_bounds(b.pos)),
                paddles: paddles2,
                cells: cells1,
                walls: w.walls,
                items: items2.filter(|it: ItemEntity| in_bounds(it.pos)),
                capture_count: captures as usize,
                items_spawned: cycle as usize,
                paddle_speed: w.paddle_speed,
                timer,
                result: if timer.remaining_ticks == 0 {
                    Some(result_of(owned(cells1, 0), owned(cells1, 1)))
                } else {
                    None
                },
            },
            cell_hits: hits,
            collected,
            scored,
        }
    }
}

/// The world after one tick under `inputs`.
pub open spec fn step_spec(w: WorldView, inputs: Seq<u8>) -> WorldView {
    tick_spec(w, inputs).world
}

/// A bound on the balls one tick can add: two waiting balls, then
/// multi-ball, which acts only below `MAX_BALL_COUNT` balls and at most
/// triples them.
pub const BALL_GROWTH: usize = 62;

/// One tick cannot take the spawned-item counter past its machine limit:
/// it spawns at most one item per ball.
pub open spec fn room_for_tick(w: WorldView) -> bool {
    w.items_spawned + w.balls.len() <= usize::MAX
}

proof fn lemma_balls_weaken(s: Seq<BallEntity>, a: int, b: int)
    requires
        balls_wf(s, a),
        a <= b,
    ensures
        balls_wf(s, b),
{
    assert forall|i: int| 0 <= i < s.len() implies #[trigger] s[i].wf(b) by {
        assert(s[i].wf(a));
    }
}

proof fn lemma_items_weaken(s: Seq<ItemEntity>, a: int, b: int)
    requires
        items_within(s, a),
        a <= b,
    ensures
        items_within(s, b),
{
    assert forall|i: int| 0 <= i < s.len() implies (#[trigger] s[i]).pos.within(b) by {
        assert(s[i].pos.within(a));
    }
}

impl World {
    /// An independent copy of the world.
    pub fn snapshot(&self) -> (r: World)
        ensures
            r@ == self@,
    {
        let r = World {
            balls: self.balls.clone(),
            paddles: self.paddles.clone(),
            cells: self.cells.clone(),
            walls: self.walls.clone(),
            items: self.items.clone(),
            capture_count: self.capture_count,
            items_spawned: self.items_spawned,
            paddle_speed: self.paddle_speed,
            timer: self.timer,
            result: self.result,
        };
        assert(r.balls@ =~= self.balls@);
        assert(r.paddles@ =~= self.paddles@);
        assert(r.cells@ =~= self.cells@);
        assert(r.walls@ =~= self.walls@);
        assert(r.items@ =~= self.items@);
        r
    }

    /// Advances the world by one tick and reports what happened in it.
    pub fn step(&mut self, inputs: [u8; 2]) -> (r: TickEvents)
        requires
            old(self)@.wf(),
            room_for_tick(old(self)@),
        ensures
            final(self)@.items_spawned <= old(self)@.items_spawned + old(self)@.balls.len(),
            final(self)@.balls.len() <= old(self)@.balls.len() + BALL_GROWTH,
            final(self)@ == step_spec(old(self)@, inputs@),
            r.cell_hits@ == tick_spec(old(self)@, inputs@).cell_hits,
            r.collected@ == tick_spec(old(self)@, inputs@).collected,
            r.scored@ == tick_spec(old(self)@, inputs@).scored,
            final(self)@.wf(),
    {
        proof { reveal(tick_spec); }
        if self.result.is_some() {
            return TickEvents { cell_hits: Vec::new(), collected: Vec::new(), scored: Vec::new() };
        }
        let ghost w = self@;
        move_paddles(&mut self.paddles, inputs, self.paddle_speed, &self.walls);
        proof {
            assert forall|i: int| 0 <= i < self.paddles@.len() implies #[trigger] self.paddles@[i].wf() by {}
        }
        apply_velocity(&mut self.balls);
        assert(self.balls@.len() == w.balls.len());
        let (balls2, hits, scored) = check_collision(&self.balls, &self.walls, &self.paddles, &self.cells);
        self.balls = balls2;
        proof { lemma_balls_weaken(self.balls@, 2 * COORD_LIMIT + 2 * RADIUS_LIMIT, 4 * COORD_LIMIT); }
        respawn_balls(&mut self.balls);
        let ghost n_respawned = self.balls@.len();
        handle_respawning_balls(&mut self.balls, &self.paddles);
        assert(self.balls@.len() == n_respawned);
        despawn_stopped_balls(&mut self.balls);
        assert(self.balls@.len() <= w.balls.len() + 2);
        proof { lemma_spawned_within(hits@, self.cells@, self.items_spawned.0 as int); }
        let ghost items0 = self.items@;
        spawn_item(&hits, &self.cells, &mut self.items, &mut self.items_spawned);
        proof {
            let sp = spawned_items(hits@, w.cells, w.items_spawned as int).0;
            assert forall|i: int| 0 <= i < self.items@.len() implies (#[trigger] self.items@[i]).pos.within(COORD_LIMIT as int) by {
                if i < items0.len() {
                    assert(self.items@[i] == items0[i]);
                } else {
                    assert(self.items@[i] == sp[i - items0.len()]);
                }
            }
        }
        move_items(&mut self.items);
        let collected = check_paddle_collision(&mut self.items, &self.paddles);
        apply_item_effect(&collected, &mut self.balls, &mut self.paddles);
        toggle_cell(&mut self.cells, &hits, &mut self.capture_count);
        let res = check_victory_conditions(&mut self.timer, &self.cells);
        self.result = res;
        despawn_out_of_bounds_balls(&mut self.balls);
        despawn_out_of_bounds_items(&mut self.items);
        proof {
            lemma_balls_weaken(self.balls@, OUT_OF_BOUNDS as int, COORD_LIMIT as int);
            lemma_items_weaken(self.items@, OUT_OF_BOUNDS as int, COORD_LIMIT as int);
            lemma_toggled_shape(w.cells, w.capture_count as int, hits@);
            assert forall|i: int| 0 <= i < self.cells@.len() implies #[trigger] self.cells@[i].aabb().wf() by {
                assert(w.cells[i].aabb().wf());
            }
        }
        TickEvents { cell_hits: hits, collected, scored }
    }
}

} // verus!
