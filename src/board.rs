//! The viewport's own copy of the placed cells.
use vstd::prelude::*;
use crate::piece::{piece_color, CellColor, FallingPiece, Piece};

verus! {

/// Columns of the board.
pub const BOARD_WIDTH: usize = 10;

/// Rows the board stores, including those above the visible window.
pub const BOARD_ROWS: usize = 40;

/// One row of cells, column 0 first.
#[derive(Clone, Copy, Debug)]
pub struct Row {
    pub cells: [CellColor; 10],
}

/// The board as the viewport has reconstructed it from lock and garbage events.
/// `rows[0]` is the bottom row.
#[derive(Clone, Debug)]
pub struct Board {
    pub rows: Vec<Row>,
    pub next_pieces: Vec<Piece>,
}

/// The colours of a sequence of rows, indexed by row and then column.
pub open spec fn grid_of(rows: Seq<Row>) -> Seq<Seq<CellColor>> {
    rows.map_values(|r: Row| r.cells@)
}

pub open spec fn empty_row() -> Seq<CellColor> {
    Seq::new(10, |x: int| CellColor::Empty)
}

pub open spec fn empty_grid() -> Seq<Seq<CellColor>> {
    Seq::new(40, |y: int| empty_row())
}

/// Whether one of the first `n` cells of `p` is at column `x`, row `y`.
pub open spec fn covers_upto(p: FallingPiece, n: nat, x: int, y: int) -> bool
    decreases n,
{
    if n == 0 || n > 4 {
        false
    } else {
        covers_upto(p, (n - 1) as nat, x, y) || (p.cells@[n - 1].0 as int == x
            && p.cells@[n - 1].1 as int == y)
    }
}

pub open spec fn covers(p: FallingPiece, x: int, y: int) -> bool {
    covers_upto(p, 4, x, y)
}

/// `g` with the cells under the first `n` cells of `p` painted in its colour.
pub open spec fn painted_upto(g: Seq<Seq<CellColor>>, p: FallingPiece, n: nat) -> Seq<
    Seq<CellColor>,
> {
    Seq::new(
        g.len(),
        |y: int|
            Seq::new(
                g[y].len(),
                |x: int|
                    if covers_upto(p, n, x, y) {
                        piece_color(p.piece)
                    } else {
                        g[y][x]
                    },
            ),
    )
}

/// `g` with the piece's cells painted in; cells outside the board are dropped.
pub open spec fn painted(g: Seq<Seq<CellColor>>, p: FallingPiece) -> Seq<Seq<CellColor>> {
    painted_upto(g, p, 4)
}

pub open spec fn row_full(r: Seq<CellColor>) -> bool {
    forall|x: int| 0 <= x < r.len() ==> r[x] != CellColor::Empty
}

/// The rows of `g` that are not full, bottom first.
pub open spec fn unfilled_rows(g: Seq<Seq<CellColor>>) -> Seq<Seq<CellColor>>
    decreases g.len(),
{
    if g.len() == 0 {
        g
    } else if row_full(g.last()) {
        unfilled_rows(g.drop_last())
    } else {
        unfilled_rows(g.drop_last()).push(g.last())
    }
}

/// `g` with its full rows removed, the rows above moved down, and empty rows
/// added on top so that the height stays the same.
pub open spec fn cleared(g: Seq<Seq<CellColor>>) -> Seq<Seq<CellColor>> {
    let kept = unfilled_rows(g);
    kept + Seq::new((g.len() - kept.len()) as nat, |y: int| empty_row())
}

/// The garbage row with its hole at column `col` (no hole where `col` is
/// outside the board).
pub open spec fn garbage_row(col: int) -> Seq<CellColor> {
    Seq::new(10, |x: int| if x == col { CellColor::Empty } else { CellColor::Garbage })
}

/// `g` pushed up by one row, the top row dropped, a garbage row at the bottom.
pub open spec fn with_garbage(g: Seq<Seq<CellColor>>, col: int) -> Seq<Seq<CellColor>> {
    seq![garbage_row(col)] + g.drop_last()
}

impl Board {
    pub open spec fn grid(&self) -> Seq<Seq<CellColor>> {
        grid_of(self.rows@)
    }

    pub open spec fn wf(&self) -> bool {
        self.rows@.len() == BOARD_ROWS
    }

    /// An empty board with no upcoming pieces.
    pub fn new() -> (r: Board)
        ensures
            r.wf(),
            r.grid() == empty_grid(),
            r.next_pieces@ == Seq::<Piece>::empty(),
    {
        let mut rows: Vec<Row> = Vec::new();
        let mut i: usize = 0;
        while i < BOARD_ROWS
            invariant
                i <= BOARD_ROWS,
                rows@.len() == i,
                forall|y: int| 0 <= y < i ==> #[trigger] rows@[y].cells@ == empty_row(),
            decreases BOARD_ROWS - i,
        {
            let row = Row { cells: [CellColor::Empty; 10] };
            assert(row.cells@ =~= empty_row());
            rows.push(row);
            i += 1;
        }
        let r = Board { rows, next_pieces: Vec::new() };
        assert(r.grid() =~= empty_grid());
        r
    }

    /// Whether every cell of `row` is filled.
    fn row_is_full(row: &Row) -> (r: bool)
        ensures
            r == row_full(row.cells@),
    {
        let mut x: usize = 0;
        while x < BOARD_WIDTH
            invariant
                x <= BOARD_WIDTH,
                forall|j: int| 0 <= j < x ==> row.cells@[j] != CellColor::Empty,
            decreases BOARD_WIDTH - x,
        {
            if row.cells[x] == CellColor::Empty {
                return false;
            }
            x += 1;
        }
        true
    }

    /// Writes the piece's cells into the board in its colour, then removes
    /// the rows that became full.
    pub fn lock_piece(&mut self, piece: FallingPiece)
        requires
            old(self).wf(),
        ensures
            final(self).wf(),
            final(self).grid() == cleared(painted(old(self).grid(), piece)),
            final(self).next_pieces == old(self).next_pieces,
    {
        let ghost g0 = self.grid();
        let color = piece.piece.color();
        assert(painted_upto(g0, piece, 0) =~~= g0);
        assert forall|yy: int| 0 <= yy < BOARD_ROWS implies #[trigger] g0[yy].len() == BOARD_WIDTH by {
            assert(g0[yy] == self.rows@[yy].cells@);
        }
        let mut i: usize = 0;
        while i < 4
            invariant
                i <= 4,
                self.wf(),
                self.next_pieces == old(self).next_pieces,
                g0 == old(self).grid(),
                color == piece_color(piece.piece),
                self.grid() == painted_upto(g0, piece, i as nat),
                g0.len() == BOARD_ROWS,
                forall|yy: int| 0 <= yy < BOARD_ROWS ==> #[trigger] g0[yy].len() == BOARD_WIDTH,
            decreases 4 - i,
        {
            let (x, y) = piece.cells[i];
            let ghost prev_rows = self.rows@;
            let ghost inside = 0 <= x < 10 && 0 <= y < 40;
            if 0 <= x && x < 10 && 0 <= y && y < 40 {
                let mut row = self.rows[y as usize];
                row.cells[x as usize] = color;
                self.rows.set(y as usize, row);
            }
            let ghost next = painted_upto(g0, piece, (i + 1) as nat);
            assert forall|yy: int| 0 <= yy < BOARD_ROWS implies #[trigger] self.grid()[yy]
                =~= next[yy] by {
                assert(prev_rows[yy].cells@.len() == 10);
                assert(self.rows@[yy].cells@.len() == 10);
                assert(self.grid()[yy] == self.rows@[yy].cells@);
                assert(grid_of(prev_rows)[yy] == prev_rows[yy].cells@);
                assert(g0[yy].len() == 10);
                assert forall|xx: int| 0 <= xx < BOARD_WIDTH implies #[trigger] self.grid()[yy][xx]
                    == next[yy][xx] by {
                    assert(covers_upto(piece, (i + 1) as nat, xx, yy) == (covers_upto(
                        piece,
                        i as nat,
                        xx,
                        yy,
                    ) || (x as int == xx && y as int == yy)));
                    assert(grid_of(prev_rows)[yy][xx] == painted_upto(g0, piece, i as nat)[yy][xx]);
                    if inside && x as int == xx && y as int == yy {
                        assert(self.rows@[yy].cells@[xx] == color);
                    } else {
                        assert(self.rows@[yy].cells@[xx] == prev_rows[yy].cells@[xx]);
                    }
                }
            }
            assert(self.grid() =~= next);
            i += 1;
        }
        self.clear_full_rows();
    }

    /// Removes full rows, moving the rows above them down.
    fn clear_full_rows(&mut self)
        requires
            old(self).wf(),
        ensures
            final(self).wf(),
            final(self).grid() == cleared(old(self).grid()),
            final(self).next_pieces == old(self).next_pieces,
    {
        let ghost g = self.grid();
        let mut kept: Vec<Row> = Vec::new();
        let mut i: usize = 0;
        while i < BOARD_ROWS
            invariant
                i <= BOARD_ROWS,
                self.wf(),
                g == self.grid(),
                grid_of(kept@) == unfilled_rows(g.take(i as int)),
                kept@.len() <= i,
            decreases BOARD_ROWS - i,
        {
            let row = self.rows[i];
            let full = Self::row_is_full(&row);
            assert(g.take(i as int + 1).drop_last() =~= g.take(i as int));
            let ghost before = kept@;
            if !full {
                kept.push(row);
                assert(grid_of(kept@) =~= grid_of(before).push(row.cells@));
            }
            assert(grid_of(kept@) =~= unfilled_rows(g.take(i as int + 1)));
            i += 1;
        }
        assert(g.take(BOARD_ROWS as int) =~= g);
        let ghost k = unfilled_rows(g);
        let ghost n = kept@.len();
        while kept.len() < BOARD_ROWS
            invariant
                n <= kept@.len() <= BOARD_ROWS,
                grid_of(kept@) == k + Seq::new((kept@.len() - n) as nat, |y: int| empty_row()),
                k.len() == n,
            decreases BOARD_ROWS - kept@.len(),
        {
            let row = Row { cells: [CellColor::Empty; 10] };
            assert(row.cells@ =~= empty_row());
            let ghost before = kept@;
            kept.push(row);
            assert(grid_of(kept@) =~= grid_of(before).push(row.cells@));
            assert(grid_of(kept@) =~= k + Seq::new((kept@.len() - n) as nat, |y: int| empty_row()));
        }
        self.rows = kept;
    }

    /// Pushes the board up by one row and fills the bottom row with garbage,
    /// leaving a hole at column `col`.
    pub fn add_garbage(&mut self, col: usize)
        requires
            old(self).wf(),
        ensures
            final(self).wf(),
            final(self).grid() == with_garbage(old(self).grid(), col as int),
            final(self).next_pieces == old(self).next_pieces,
    {
        let mut row = Row { cells: [CellColor::Garbage; 10] };
        if col < BOARD_WIDTH {
            row.cells[col] = CellColor::Empty;
        }
        assert(row.cells@ =~= garbage_row(col as int));
        let ghost g = self.grid();
        self.rows.pop();
        self.rows.insert(0, row);
        assert(self.grid() =~= with_garbage(g, col as int));
    }

    /// Moves the queue on by one piece, handing back the one that left.
    pub fn advance_queue(&mut self) -> (r: Option<Piece>)
        ensures
            final(self).rows == old(self).rows,
            old(self).next_pieces@.len() == 0 ==> r is None && final(self).next_pieces@
                == old(self).next_pieces@,
            old(self).next_pieces@.len() > 0 ==> r == Some(old(self).next_pieces@[0])
                && final(self).next_pieces@ == old(self).next_pieces@.drop_first(),
    {
        if self.next_pieces.len() == 0 {
            None
        } else {
            Some(self.next_pieces.remove(0))
        }
    }

    /// Appends a piece to the end of the queue.
    pub fn add_next_piece(&mut self, p: Piece)
        ensures
            final(self).rows == old(self).rows,
            final(self).next_pieces@ == old(self).next_pieces@.push(p),
    {
        self.next_pieces.push(p);
    }

    /// The colour at column `x` of row `y`.
    pub fn cell_color(&self, x: usize, y: usize) -> (r: CellColor)
        requires
            self.wf(),
            x < BOARD_WIDTH,
            y < BOARD_ROWS,
        ensures
            r == self.grid()[y as int][x as int],
    {
        self.rows[y].cells[x]
    }
}

} // verus!
