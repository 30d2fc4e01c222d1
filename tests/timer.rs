use rollback_breakout::components::{Cell, CellEntity, Team};
use rollback_breakout::geometry::Vec2;
use rollback_breakout::timer::{check_victory_conditions, tally, GameTimer};

fn cells(a: usize, b: usize, items: usize) -> Vec<CellEntity> {
    let mut v = Vec::new();
    for (team, n) in [(0usize, a), (1, b), (2, items)] {
        for _ in 0..n {
            v.push(CellEntity { cell: Cell { half_size: Vec2 { x: 25_000, y: 25_000 } }, team: Team(team), pos: Vec2 { x: 0, y: 0 } });
        }
    }
    v
}

#[test]
fn team_zero_wins_with_more_cells_at_expiry() {
    let cs = cells(52, 48, 3);
    let mut timer = GameTimer { remaining_ticks: 1 };
    let r = check_victory_conditions(&mut timer, &cs).expect("result at expiry");
    assert_eq!(r.winner, Some(Team(0)));
    assert_eq!(r.team0_blocks, 52);
    assert_eq!(r.team1_blocks, 48);
    assert_eq!(timer.remaining_ticks, 0);
}

#[test]
fn no_result_before_expiry() {
    let mut timer = GameTimer { remaining_ticks: 7200 };
    assert_eq!(check_victory_conditions(&mut timer, &cells(1, 0, 0)), None);
    assert_eq!(timer.remaining_ticks, 7199);
}

#[test]
fn equal_counts_are_a_draw_and_team_one_can_win() {
    let draw = tally(&cells(50, 50, 0));
    assert_eq!(draw.winner, None);
    let one = tally(&cells(40, 59, 1));
    assert_eq!(one.winner, Some(Team(1)));
    assert_eq!(one.team0_blocks, 40);
}
