//! The match countdown and the final tally of owned cells.
use vstd::prelude::*;
use crate::components::{CellEntity, Team};

verus! {

/// Ticks left in the match.
#[derive(Clone, Copy, Debug, PartialEq, Eq, Structural)]
pub struct GameTimer {
    pub remaining_ticks: u32,
}

/// The outcome of a match: the team with strictly more cells, or none on a
/// draw, and each team's cell count.
#[derive(Clone, Copy, Debug, PartialEq, Eq, Structural)]
pub struct GameResult {
    pub winner: Option<Team>,
    pub team0_blocks: usize,
    pub team1_blocks: usize,
}

/// How many of the cells `team` owns.
pub open spec fn owned(cells: Seq<CellEntity>, team: usize) -> int
    decreases cells.len(),
{
    if cells.len() == 0 {
        0
    } else {
        owned(cells.drop_last(), team) + (if cells.last().team.0 == team { 1int } else { 0 })
    }
}

proof fn lemma_owned_bound(cells: Seq<CellEntity>, team: usize)
    ensures
        0 <= owned(cells, team) <= cells.len(),
    decreases cells.len(),
{
    if cells.len() > 0 {
        lemma_owned_bound(cells.drop_last(), team);
    }
}

/// The result for cell counts `a` (team 0) and `b` (team 1).
pub open spec fn result_of(a: int, b: int) -> GameResult {
    GameResult {
        winner: if a > b { Some(Team(0)) } else if b > a { Some(Team(1)) } else { None },
        team0_blocks: a as usize,
        team1_blocks: b as usize,
    }
}

/// Counts each team's cells (item-eligible cells count for neither) and names
/// the winner.
pub fn tally(cells: &Vec<CellEntity>) -> (r: GameResult)
    ensures
        r == result_of(owned(cells@, 0), owned(cells@, 1)),
{
    let mut a: usize = 0;
    let mut b: usize = 0;
    let mut i: usize = 0;
    while i < cells.len()
        invariant
            0 <= i <= cells.len(),
            a == owned(cells@.subrange(0, i as int), 0),
            b == owned(cells@.subrange(0, i as int), 1),
        decreases cells.len() - i,
    {
        assert(cells@.subrange(0, i as int + 1).drop_last() =~= cells@.subrange(0, i as int));
        proof {
            lemma_owned_bound(cells@.subrange(0, i as int), 0);
            lemma_owned_bound(cells@.subrange(0, i as int), 1);
        }
        let t = cells[i].team.0;
        if t == 0 {
            a = a + 1;
        } else if t == 1 {
            b = b + 1;
        }
        i = i + 1;
    }
    assert(cells@.subrange(0, cells.len() as int) =~= cells@);
    let winner = if a > b { Some(Team(0)) } else if b > a { Some(Team(1)) } else { None };
    GameResult { winner, team0_blocks: a, team1_blocks: b }
}

/// The timer after one tick: it counts down to zero and stays there.
pub open spec fn ticked(t: GameTimer) -> GameTimer {
    GameTimer { remaining_ticks: if t.remaining_ticks == 0 { 0 } else { (t.remaining_ticks - 1) as u32 } }
}

/// Advances the timer by one tick; once it has run out, returns the result.
pub fn check_victory_conditions(timer: &mut GameTimer, cells: &Vec<CellEntity>) -> (r: Option<GameResult>)
    ensures
        *final(timer) == ticked(*old(timer)),
        final(timer).remaining_ticks == 0 ==> r == Some(result_of(owned(cells@, 0), owned(cells@, 1))),
        final(timer).remaining_ticks > 0 ==> r.is_none(),
{
    if timer.remaining_ticks > 0 {
        timer.remaining_ticks = timer.remaining_ticks - 1;
    }
    if timer.remaining_ticks == 0 {
        Some(tally(cells))
    } else {
        None
    }
}

} // verus!
