//! What one step of the world does, as a chain of single-cell and
//! single-move transitions, and what the survivor rewards at the end of a
//! run do to the policies.
use crate::census::{cell_at, is_ant_of};
use crate::dynasty::{picked, DynastyAgent};
use crate::environment::{Ant, AntMove, Cell, Direction, Dynasty, Reward};
use crate::rules::{resolved, scanned};
use vstd::prelude::*;

verus! {

/// The grid and the dynasty ledger of a world.
pub type Snapshot = (Seq<Vec<Cell>>, Seq<Dynasty>);

/// The grid, the dynasty ledger and the dynasties' policies.
pub type Outcome = (Seq<Vec<Cell>>, Seq<Dynasty>, Seq<DynastyAgent>);

/// The scan of row `y` of a grid of side `n`: `states[x + 1]` follows from
/// `states[x]` by the rule of cell `(x, y)`, which yields `emitted[x]`.
pub open spec fn scan_row(states: Seq<Snapshot>, emitted: Seq<Option<AntMove>>, y: int, n: int) -> bool {
    &&& states.len() == n + 1
    &&& emitted.len() == n
    &&& forall|x: int|
        0 <= x < n ==> #[trigger] scanned(
            states[x].0,
            states[x].1,
            states[x + 1].0,
            states[x + 1].1,
            x,
            y,
            emitted[x],
        )
}

/// The scan phase of a step on a grid of side `n`, row by row from `start`
/// to `end`.
pub open spec fn scan_phase(
    start: Snapshot,
    end: Snapshot,
    rows: Seq<Seq<Snapshot>>,
    emitted: Seq<Seq<Option<AntMove>>>,
    n: int,
) -> bool {
    &&& 0 < n
    &&& rows.len() == n
    &&& emitted.len() == n
    &&& forall|y: int| 0 <= y < n ==> #[trigger] scan_row(rows[y], emitted[y], y, n)
    &&& rows[0][0] == start
    &&& forall|y: int| 0 < y < n ==> (#[trigger] rows[y])[0] == rows[y - 1][n]
    &&& end == rows[n - 1][n]
}

/// The moves a row yields, in scan order.
pub open spec fn pending_in_row(emitted: Seq<Option<AntMove>>) -> Seq<AntMove>
    decreases emitted.len(),
{
    if emitted.len() == 0 {
        seq![]
    } else {
        pending_in_row(emitted.drop_last()) + match emitted.last() {
            Some(m) => seq![m],
            None => seq![],
        }
    }
}

/// The moves the scan yields, in scan order.
pub open spec fn pending(emitted: Seq<Seq<Option<AntMove>>>) -> Seq<AntMove>
    decreases emitted.len(),
{
    if emitted.len() == 0 {
        seq![]
    } else {
        pending(emitted.drop_last()) + pending_in_row(emitted.last())
    }
}

/// Resolving move `m` takes `s` to `t`: an ant no longer at its origin is
/// skipped; otherwise the policy of its dynasty picks a direction, and the
/// ant moves that way.
pub open spec fn resolves(s: Outcome, t: Outcome, m: AntMove, size: int) -> bool {
    let (x, y) = (m.from.0 as int, m.from.1 as int);
    let d = m.ant.dynasty_id as int;
    if is_ant_of(cell_at(s.0, x, y), m.ant.dynasty_id) {
        &&& t.2 == s.2.update(d, t.2[d])
        &&& exists|dir: Direction|
            #[trigger] resolved(s.0, s.1, t.0, t.1, size, x, y, m.ant, dir) && picked(
                s.2[d],
                t.2[d],
                x,
                y,
                m.ant,
                s.0,
                dir,
            )
    } else {
        t == s
    }
}

/// The resolution phase of a step: `moves` are resolved from the last to
/// the first, through `states`, from `start` to `end`.
pub open spec fn resolve_phase(
    start: Outcome,
    end: Outcome,
    moves: Seq<AntMove>,
    states: Seq<Outcome>,
    size: int,
) -> bool {
    &&& states.len() == moves.len() + 1
    &&& states[0] == start
    &&& states[moves.len() as int] == end
    &&& forall|j: int|
        0 <= j < moves.len() ==> #[trigger] resolves(
            states[j],
            states[j + 1],
            moves[moves.len() - 1 - j],
            size,
        )
}

/// One whole step on a grid of side `n`, from `start` with the policies
/// `agents` to `end`.
pub open spec fn step_trace(
    start: Snapshot,
    agents: Seq<DynastyAgent>,
    end: Outcome,
    rows: Seq<Seq<Snapshot>>,
    emitted: Seq<Seq<Option<AntMove>>>,
    states: Seq<Outcome>,
    n: int,
) -> bool {
    &&& states.len() > 0
    &&& scan_phase(start, (states[0].0, states[0].1), rows, emitted, n)
    &&& states[0].2 == agents
    &&& resolve_phase(states[0], end, pending(emitted), states, n)
}

/// The survivor reward for the cell at `(x, y)` takes the policies `s` to
/// `t`: an ant's dynasty picks a move for it, carrying the survivor reward,
/// and nothing else changes.
pub open spec fn rewarded(
    s: Seq<DynastyAgent>,
    t: Seq<DynastyAgent>,
    cells: Seq<Vec<Cell>>,
    x: int,
    y: int,
) -> bool {
    match cell_at(cells, x, y) {
        Cell::Ant { dynasty_id, carries_food, direction, ttl, .. } => {
            let ant = Ant { dynasty_id, carries_food, direction, ttl, reward: Reward::Survivor };
            let d = dynasty_id as int;
            &&& t == s.update(d, t[d])
            &&& exists|dir: Direction| #[trigger] picked(s[d], t[d], x, y, ant, cells, dir)
        },
        _ => t == s,
    }
}

/// The survivor rewards of row `y`, through `states`.
pub open spec fn reward_row(
    states: Seq<Seq<DynastyAgent>>,
    cells: Seq<Vec<Cell>>,
    y: int,
    n: int,
) -> bool {
    &&& states.len() == n + 1
    &&& forall|x: int| 0 <= x < n ==> #[trigger] rewarded(states[x], states[x + 1], cells, x, y)
}

/// The survivor rewards of every cell of a grid of side `n`, row by row,
/// taking the policies from `start` to `end`.
pub open spec fn reward_trace(
    cells: Seq<Vec<Cell>>,
    start: Seq<DynastyAgent>,
    end: Seq<DynastyAgent>,
    rows: Seq<Seq<Seq<DynastyAgent>>>,
    n: int,
) -> bool {
    &&& 0 < n
    &&& rows.len() == n
    &&& forall|y: int| 0 <= y < n ==> #[trigger] reward_row(rows[y], cells, y, n)
    &&& rows[0][0] == start
    &&& forall|y: int| 0 < y < n ==> (#[trigger] rows[y])[0] == rows[y - 1][n]
    &&& end == rows[n - 1][n]
}

pub proof fn lemma_pending_in_row_push(emitted: Seq<Option<AntMove>>, o: Option<AntMove>)
    ensures
        pending_in_row(emitted.push(o)) == pending_in_row(emitted) + match o {
            Some(m) => seq![m],
            None => seq![],
        },
{
    assert(emitted.push(o).drop_last() =~= emitted);
}

pub proof fn lemma_pending_push(emitted: Seq<Seq<Option<AntMove>>>, row: Seq<Option<AntMove>>)
    ensures
        pending(emitted.push(row)) == pending(emitted) + pending_in_row(row),
{
    assert(emitted.push(row).drop_last() =~= emitted);
}

} // verus!
