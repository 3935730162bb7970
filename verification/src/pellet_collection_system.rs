//! Pac-Man eating the pellets on his cell.
use vstd::prelude::*;
use crate::grid_cell::GridCell;
use crate::pellet::Pellet;

verus! {

/// The system that lets Pac-Man eat pellets.
pub struct PelletCollectionSystem;

/// The ids, in order, of the pellets among the first `n` that lie on `cell`.
pub open spec fn eaten_upto(pellets: Seq<(u32, Pellet)>, cell: GridCell, n: int) -> Seq<u32>
    decreases n,
{
    if n <= 0 {
        Seq::empty()
    } else if pellets[n - 1].1.cell == cell {
        eaten_upto(pellets, cell, n - 1).push(pellets[n - 1].0)
    } else {
        eaten_upto(pellets, cell, n - 1)
    }
}

impl PelletCollectionSystem {
    /// The entity ids, in order, of the pellets on Pac-Man's cell; each is
    /// eaten.
    pub fn colliding(player_cell: GridCell, pellets: &Vec<(u32, Pellet)>) -> (ids: Vec<u32>)
        ensures
            ids@ == eaten_upto(pellets@, player_cell, pellets@.len() as int),
    {
        let mut ids: Vec<u32> = Vec::new();
        let mut i: usize = 0;
        while i < pellets.len()
            invariant
                i <= pellets@.len(),
                ids@ == eaten_upto(pellets@, player_cell, i as int),
            decreases pellets@.len() - i,
        {
            let (id, p) = pellets[i];
            if p.cell == player_cell {
                ids.push(id);
            }
            i += 1;
        }
        ids
    }
}

/// `id` is the id of some pellet among the first `n` lying on `cell`.
pub open spec fn pellet_on(pellets: Seq<(u32, Pellet)>, cell: GridCell, n: int, id: u32) -> bool {
    exists|i: int| 0 <= i < n && pellets[i].1.cell == cell && id == #[trigger] pellets[i].0
}

/// The pellet that eaten id `k` comes from.
proof fn eaten_source(pellets: Seq<(u32, Pellet)>, cell: GridCell, n: int, k: int) -> (i: int)
    requires
        0 <= n <= pellets.len(),
        0 <= k < eaten_upto(pellets, cell, n).len(),
    ensures
        0 <= i < n,
        pellets[i].1.cell == cell,
        eaten_upto(pellets, cell, n)[k] == pellets[i].0,
    decreases n,
{
    let prev = eaten_upto(pellets, cell, n - 1);
    if k < prev.len() {
        eaten_source(pellets, cell, n - 1, k)
    } else {
        n - 1
    }
}

/// Pac-Man eats exactly the pellets on his cell: each of them is eaten, and
/// nothing else is.
pub proof fn lemma_eats_exactly_pellets_on_cell(pellets: Seq<(u32, Pellet)>, cell: GridCell, n: int)
    requires
        0 <= n <= pellets.len(),
    ensures
        forall|i: int|
            0 <= i < n && pellets[i].1.cell == cell ==> eaten_upto(pellets, cell, n).contains(
                #[trigger] pellets[i].0,
            ),
        forall|k: int|
            0 <= k < eaten_upto(pellets, cell, n).len() ==> pellet_on(
                pellets,
                cell,
                n,
                #[trigger] eaten_upto(pellets, cell, n)[k],
            ),
    decreases n,
{
    let r = eaten_upto(pellets, cell, n);
    if n > 0 {
        lemma_eats_exactly_pellets_on_cell(pellets, cell, n - 1);
        let prev = eaten_upto(pellets, cell, n - 1);
        assert forall|i: int| 0 <= i < n && pellets[i].1.cell == cell implies r.contains(
            #[trigger] pellets[i].0,
        ) by {
            if i < n - 1 {
                let k = choose|k: int| 0 <= k < prev.len() && prev[k] == pellets[i].0;
                assert(r[k] == prev[k]);
            } else {
                assert(r[r.len() - 1] == pellets[i].0);
            }
        }
    }
    assert forall|k: int| 0 <= k < r.len() implies pellet_on(
        pellets,
        cell,
        n,
        #[trigger] eaten_upto(pellets, cell, n)[k],
    ) by {
        let i = eaten_source(pellets, cell, n, k);
        assert(pellets[i].0 == r[k]);
    }
}

} // verus!
