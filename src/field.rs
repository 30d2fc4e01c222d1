//! Cell ownership: a cell hit by a ball passes to the ball's team, except that
//! every tenth capture turns the cell item-eligible instead.
use vstd::prelude::*;
use crate::collision::events_wf;
use crate::components::{CellClicked, CellEntity, Count, Team, CAPTURES_PER_ITEM_CELL, ITEM_TEAM};

verus! {

/// The cells and the capture counter after the events, in order.
pub open spec fn toggled(cells: Seq<CellEntity>, count: int, evs: Seq<CellClicked>) -> (Seq<CellEntity>, int)
    decreases evs.len(),
{
    if evs.len() == 0 {
        (cells, count)
    } else {
        let (cs, n) = toggled(cells, count, evs.drop_last());
        let ev = evs.last();
        let i = ev.cell as int;
        if n >= CAPTURES_PER_ITEM_CELL {
            (cs.update(i, CellEntity { team: Team(ITEM_TEAM), ..cs[i] }), 1)
        } else {
            (cs.update(i, CellEntity { team: ev.team, ..cs[i] }), n + 1)
        }
    }
}

/// Toggling changes owners only: every cell keeps its place and size.
pub proof fn lemma_toggled_shape(cells: Seq<CellEntity>, count: int, evs: Seq<CellClicked>)
    requires
        events_wf(evs, cells.len() as int),
    ensures
        toggled(cells, count, evs).0.len() == cells.len(),
        forall|i: int| 0 <= i < cells.len() ==> (#[trigger] toggled(cells, count, evs).0[i]).pos == cells[i].pos
            && toggled(cells, count, evs).0[i].cell == cells[i].cell,
    decreases evs.len(),
{
    if evs.len() > 0 {
        let pre = evs.drop_last();
        assert forall|i: int| 0 <= i < pre.len() implies #[trigger] pre[i].cell < cells.len() && pre[i].team.0 < 2 by {
            assert(pre[i] == evs[i]);
        }
        lemma_toggled_shape(cells, count, pre);
        assert(evs[evs.len() - 1].cell < cells.len());
    }
}

/// Hands each hit cell to the hitting team, or makes it item-eligible once the
/// counter has reached ten.
pub fn toggle_cell(cells: &mut Vec<CellEntity>, evs: &Vec<CellClicked>, count: &mut Count)
    requires
        events_wf(evs@, old(cells)@.len() as int),
        old(count).0 <= CAPTURES_PER_ITEM_CELL,
    ensures
        (final(cells)@, final(count).0 as int) == toggled(old(cells)@, old(count).0 as int, evs@),
        final(count).0 <= CAPTURES_PER_ITEM_CELL,
{
    let ghost c0 = cells@;
    let ghost n0 = count.0 as int;
    let mut i: usize = 0;
    while i < evs.len()
        invariant
            0 <= i <= evs.len(),
            events_wf(evs@, c0.len() as int),
            cells@.len() == c0.len(),
            count.0 <= CAPTURES_PER_ITEM_CELL,
            (cells@, count.0 as int) == toggled(c0, n0, evs@.subrange(0, i as int)),
        decreases evs.len() - i,
    {
        let ev = evs[i];
        assert(evs@.subrange(0, i as int + 1).drop_last() =~= evs@.subrange(0, i as int));
        assert(evs@[i as int].cell < c0.len());
        let c = cells[ev.cell];
        if count.0 >= CAPTURES_PER_ITEM_CELL {
            cells.set(ev.cell, CellEntity { team: Team::item(), ..c });
            count.0 = 1;
        } else {
            cells.set(ev.cell, CellEntity { team: ev.team, ..c });
            count.0 = count.0 + 1;
        }
        i = i + 1;
    }
    assert(evs@.subrange(0, evs.len() as int) =~= evs@);
}

} // verus!
