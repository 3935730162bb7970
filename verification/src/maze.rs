use vstd::prelude::*;
use crate::grid_cell::GridCell;

verus! {

pub const GRID_WIDTH: usize = 28;
pub const GRID_HEIGHT: usize = 31;

/// The middle row, open at both edges: walking off one side of the grid on
/// it leads onto the other.
pub const TUNNEL_ROW: usize = 15;

#[derive(Clone, Copy, PartialEq, Eq, Structural, Debug)]
pub enum TileType {
    Wall,
    Floor,
}

/// The tile grid, stored row by row.
pub struct Maze {
    pub tiles: Vec<Vec<TileType>>,
}

/// The tile that the generated maze has at a position: the outer border and
/// every cell whose row and column are both even are walls, except the two
/// edge cells of the tunnel row.
pub open spec fn generated_tile(row: int, col: int) -> TileType {
    if row == TUNNEL_ROW && (col == 0 || col == GRID_WIDTH - 1) {
        TileType::Floor
    } else if row == 0 || row == GRID_HEIGHT - 1 || col == 0 || col == GRID_WIDTH - 1 || (row % 2 == 0
        && col % 2 == 0) {
        TileType::Wall
    } else {
        TileType::Floor
    }
}

impl Maze {
    /// The maze has `GRID_HEIGHT` rows of `GRID_WIDTH` tiles each.
    pub open spec fn wf(&self) -> bool {
        &&& self.tiles@.len() == GRID_HEIGHT
        &&& forall|r: int| 0 <= r < GRID_HEIGHT ==> #[trigger] self.tiles@[r]@.len() == GRID_WIDTH
    }

    pub open spec fn tile(&self, row: int, col: int) -> TileType {
        self.tiles@[row]@[col]
    }

    /// A cell can be walked on when it lies on the grid and holds floor.
    pub open spec fn walkable(&self, cell: GridCell) -> bool {
        &&& 0 <= cell.col < GRID_WIDTH
        &&& 0 <= cell.row < GRID_HEIGHT
        &&& self.tile(cell.row as int, cell.col as int) == TileType::Floor
    }

    pub fn new() -> (m: Maze)
        ensures
            m.wf(),
            forall|r: int, c: int|
                0 <= r < GRID_HEIGHT && 0 <= c < GRID_WIDTH ==> #[trigger] m.tile(r, c)
                    == generated_tile(r, c),
            tunnel_rows_upto(m, GRID_HEIGHT as int) == seq![TUNNEL_ROW],
    {
        let mut tiles: Vec<Vec<TileType>> = Vec::new();
        let mut row: usize = 0;
        while row < GRID_HEIGHT
            invariant
                row <= GRID_HEIGHT,
                tiles@.len() == row,
                forall|r: int| 0 <= r < row ==> #[trigger] tiles@[r]@.len() == GRID_WIDTH,
                forall|r: int, c: int|
                    0 <= r < row && 0 <= c < GRID_WIDTH ==> #[trigger] tiles@[r]@[c]
                        == generated_tile(r, c),
            decreases GRID_HEIGHT - row,
        {
            let mut line: Vec<TileType> = Vec::new();
            let mut col: usize = 0;
            while col < GRID_WIDTH
                invariant
                    row < GRID_HEIGHT,
                    col <= GRID_WIDTH,
                    line@.len() == col,
                    forall|c: int| 0 <= c < col ==> #[trigger] line@[c] == generated_tile(row as int, c),
                decreases GRID_WIDTH - col,
            {
                let on_border = row == 0 || row == GRID_HEIGHT - 1 || col == 0 || col == GRID_WIDTH - 1;
                let is_post = row % 2 == 0 && col % 2 == 0;
                let tunnel_end = row == TUNNEL_ROW && (col == 0 || col == GRID_WIDTH - 1);
                if !tunnel_end && (on_border || is_post) {
                    line.push(TileType::Wall);
                } else {
                    line.push(TileType::Floor);
                }
                col += 1;
            }
            tiles.push(line);
            row += 1;
        }
        let m = Maze { tiles };
        proof {
            lemma_generated_maze_tunnels(m, GRID_HEIGHT as int);
        }
        m
    }

    /// Whether `cell` lies on the grid and holds floor.
    pub fn is_walkable(&self, cell: GridCell) -> (b: bool)
        requires
            self.wf(),
        ensures
            b == self.walkable(cell),
    {
        if cell.col < 0 || cell.row < 0 {
            return false;
        }
        let c = cell.col as usize;
        let r = cell.row as usize;
        if c >= GRID_WIDTH || r >= GRID_HEIGHT {
            return false;
        }
        self.tiles[r][c] == TileType::Floor
    }
}

/// A row is a tunnel when both of its edge tiles are floor.
pub open spec fn is_tunnel_row(m: Maze, r: int) -> bool {
    m.tile(r, 0) == TileType::Floor && m.tile(r, GRID_WIDTH - 1) == TileType::Floor
}

/// The tunnel rows among the first `n` rows, in increasing order.
pub open spec fn tunnel_rows_upto(m: Maze, n: int) -> Seq<usize>
    decreases n,
{
    if n <= 0 {
        Seq::empty()
    } else if is_tunnel_row(m, n - 1) {
        tunnel_rows_upto(m, n - 1).push((n - 1) as usize)
    } else {
        tunnel_rows_upto(m, n - 1)
    }
}

/// Every row below `n` that is in the list is a tunnel row below `n`, and
/// every tunnel row below `n` is in it.
proof fn lemma_tunnel_rows_upto(m: Maze, n: int)
    requires
        0 <= n <= GRID_HEIGHT,
    ensures
        forall|r: int|
            #![trigger is_tunnel_row(m, r)]
            0 <= r < n ==> (is_tunnel_row(m, r) <==> tunnel_rows_upto(m, n).contains(r as usize)),
        forall|i: int|
            0 <= i < tunnel_rows_upto(m, n).len() ==> #[trigger] tunnel_rows_upto(m, n)[i] < n,
    decreases n,
{
    if n > 0 {
        lemma_tunnel_rows_upto(m, n - 1);
        let prev = tunnel_rows_upto(m, n - 1);
        let cur = tunnel_rows_upto(m, n);
        assert forall|r: int| 0 <= r < n implies (is_tunnel_row(m, r) <==> cur.contains(r as usize)) by {
            if r < n - 1 {
                if is_tunnel_row(m, n - 1) {
                    if cur.contains(r as usize) {
                        let k = choose|k: int| 0 <= k < cur.len() && cur[k] == r as usize;
                        if k < prev.len() {
                            assert(prev[k] == r as usize);
                        }
                    }
                    if prev.contains(r as usize) {
                        let k = choose|k: int| 0 <= k < prev.len() && prev[k] == r as usize;
                        assert(cur[k] == r as usize);
                    }
                }
            } else {
                if is_tunnel_row(m, n - 1) {
                    assert(cur[cur.len() - 1] == r as usize);
                } else {
                    if prev.contains(r as usize) {
                        let k = choose|k: int| 0 <= k < prev.len() && prev[k] == r as usize;
                    }
                }
            }
        }
    }
}

/// The shape of the generated maze: the outer border is wall except the two
/// ends of row 15; every cell with an even row and an even column is wall;
/// every inner cell with an odd row or an odd column is floor.
pub proof fn lemma_generated_maze_shape(r: int, c: int)
    requires
        0 <= r < 31,
        0 <= c < 28,
    ensures
        (r == 0 || r == 30) ==> generated_tile(r, c) == TileType::Wall,
        (c == 0 || c == 27) && r != 15 ==> generated_tile(r, c) == TileType::Wall,
        (c == 0 || c == 27) && r == 15 ==> generated_tile(r, c) == TileType::Floor,
        r % 2 == 0 && c % 2 == 0 ==> generated_tile(r, c) == TileType::Wall,
        0 < r < 30 && 0 < c < 27 && (r % 2 == 1 || c % 2 == 1) ==> generated_tile(r, c)
            == TileType::Floor,
{
}

/// The generated maze has exactly one tunnel row, the middle one.
pub proof fn lemma_generated_maze_tunnels(m: Maze, n: int)
    requires
        0 <= n <= GRID_HEIGHT,
        forall|r: int, c: int|
            0 <= r < GRID_HEIGHT && 0 <= c < GRID_WIDTH ==> #[trigger] m.tile(r, c) == generated_tile(r, c),
    ensures
        tunnel_rows_upto(m, n) == (if n > TUNNEL_ROW {
            seq![TUNNEL_ROW]
        } else {
            Seq::<usize>::empty()
        }),
    decreases n,
{
    if n > 0 {
        assert(m.tile(n - 1, 0) == generated_tile(n - 1, 0));
        assert(m.tile(n - 1, GRID_WIDTH - 1) == generated_tile(n - 1, GRID_WIDTH - 1));
        lemma_generated_maze_tunnels(m, n - 1);
        if n - 1 == TUNNEL_ROW {
            assert(Seq::<usize>::empty().push(TUNNEL_ROW) =~= seq![TUNNEL_ROW]);
        }
    }
}

impl Maze {
    /// The rows whose two edge tiles are floor, where walking off one side
    /// of the grid leads onto the other, in increasing order.
    pub fn tunnel_rows(&self) -> (rows: Vec<usize>)
        requires
            self.wf(),
        ensures
            rows@ == tunnel_rows_upto(*self, GRID_HEIGHT as int),
            forall|r: int|
                #![trigger is_tunnel_row(*self, r)]
                0 <= r < GRID_HEIGHT ==> (is_tunnel_row(*self, r) <==> rows@.contains(r as usize)),
            forall|i: int| 0 <= i < rows@.len() ==> #[trigger] rows@[i] < GRID_HEIGHT,
    {
        proof {
            lemma_tunnel_rows_upto(*self, GRID_HEIGHT as int);
        }
        let mut rows: Vec<usize> = Vec::new();
        let mut r: usize = 0;
        while r < GRID_HEIGHT
            invariant
                self.wf(),
                r <= GRID_HEIGHT,
                rows@ == tunnel_rows_upto(*self, r as int),
            decreases GRID_HEIGHT - r,
        {
            if self.tiles[r][0] == TileType::Floor && self.tiles[r][GRID_WIDTH - 1] == TileType::Floor {
                rows.push(r);
            }
            r += 1;
        }
        rows
    }
}

} // verus!
