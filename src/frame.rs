//! Rendering: a pure description of what one frame shows.
use vstd::prelude::*;
use crate::fade::{opacity, opacity_steps, TICKS_PER_SECOND};
use crate::lock::AttackText;
use crate::piece::{piece_color, CellColor, FallingPiece, Piece};
use crate::player::{
    initial_model, reset_model, Info, Phase, PhaseModel, PlayerModel, PlayerUi,
};
use crate::statistics::Statistics;

verus! {

/// Rows of the board that are drawn, bottom first.
pub const VISIBLE_ROWS: usize = 21;

/// The visible board height in half cells (20.5 cells), the scale of the
/// garbage bar.
pub const BOARD_HEIGHT_HALVES: u64 = 41;

/// One skin cell to draw at column `x`, row `y` (row 0 at the bottom).
#[derive(Clone, Copy, Debug, PartialEq, Eq, Structural)]
pub struct DrawCell {
    pub x: i32,
    pub y: i32,
    pub color: CellColor,
    pub is_ghost: bool,
}

/// What the engine currently holds, read afresh every frame.
#[derive(Clone, Debug)]
pub struct LiveGame {
    pub hold: Option<Piece>,
    pub next: Vec<Piece>,
    pub garbage_queue: u32,
}

/// A figure of the statistics panel.
#[derive(Clone, Copy, Debug, PartialEq, Eq, Structural)]
pub enum StatValue {
    /// A count, shown as an integer.
    Count(u64),
    /// The rate `num * scale / den`, shown with `decimals` decimals; it has no
    /// value when `den` is zero.
    Rate { num: u64, den: u64, scale: u64, decimals: u32 },
    /// An empty cell.
    Blank,
}

/// One row of the statistics panel: its label and its figure.
#[derive(Clone, Copy, Debug)]
pub struct StatRow {
    pub label: &'static str,
    pub value: StatValue,
}

/// The rows of the statistics panel: counts, rates over elapsed time (pieces
/// per second, attack per minute) and attack per piece, the clear-type
/// counts, and, when bot figures are present, a blank separator row followed
/// by search depth, node count and original rank.
pub open spec fn stat_rows(s: Statistics, time: u32, info: Option<Info>) -> Seq<(Seq<char>, StatValue)> {
    let t = TICKS_PER_SECOND as u64;
    let base = seq![
        ("Pieces"@, StatValue::Count(s.pieces)),
        ("PPS"@, StatValue::Rate { num: s.pieces, den: time as u64, scale: t, decimals: 1 }),
        ("Lines"@, StatValue::Count(s.lines)),
        ("Attack"@, StatValue::Count(s.attack)),
        ("APM"@, StatValue::Rate { num: s.attack, den: time as u64, scale: (t * 60) as u64, decimals: 1 }),
        ("APP"@, StatValue::Rate { num: s.attack, den: s.pieces, scale: 1, decimals: 3 }),
        ("Max Ren"@, StatValue::Count(s.max_combo)),
        ("Single"@, StatValue::Count(s.singles)),
        ("Double"@, StatValue::Count(s.doubles)),
        ("Triple"@, StatValue::Count(s.triples)),
        ("Tetris"@, StatValue::Count(s.tetrises)),
        ("T-Spin 0"@, StatValue::Count(s.tspin_zeros)),
        ("T-Spin 1"@, StatValue::Count(s.tspin_singles)),
        ("T-Spin 2"@, StatValue::Count(s.tspin_doubles)),
        ("T-Spin 3"@, StatValue::Count(s.tspin_triples)),
        ("Perfect"@, StatValue::Count(s.perfect_clears)),
    ];
    match info {
        Some(i) => base + seq![
            (""@, StatValue::Blank),
            ("Depth"@, StatValue::Count(i.depth)),
            ("Nodes"@, StatValue::Count(i.nodes)),
            ("O. Rank"@, StatValue::Count(i.original_rank)),
        ],
        None => base,
    }
}

pub open spec fn rows_view(rows: Seq<StatRow>) -> Seq<(Seq<char>, StatValue)> {
    rows.map_values(|r: StatRow| (r.label@, r.value))
}

fn push_row(rows: &mut Vec<StatRow>, label: &'static str, value: StatValue)
    ensures
        rows_view(final(rows)@) == rows_view(old(rows)@).push((label@, value)),
{
    rows.push(StatRow { label, value });
    assert(rows_view(rows@) =~= rows_view(old(rows)@).push((label@, value)));
}

/// The statistics panel for `s` after `time` ticks, with the bot figures if any.
pub fn statistics_rows(s: &Statistics, time: u32, info: Option<Info>) -> (r: Vec<StatRow>)
    ensures
        rows_view(r@) == stat_rows(*s, time, info),
{
    let t = TICKS_PER_SECOND as u64;
    let mut rows: Vec<StatRow> = Vec::new();
    push_row(&mut rows, "Pieces", StatValue::Count(s.pieces));
    push_row(&mut rows, "PPS", StatValue::Rate { num: s.pieces, den: time as u64, scale: t, decimals: 1 });
    push_row(&mut rows, "Lines", StatValue::Count(s.lines));
    push_row(&mut rows, "Attack", StatValue::Count(s.attack));
    push_row(&mut rows, "APM", StatValue::Rate { num: s.attack, den: time as u64, scale: t * 60, decimals: 1 });
    push_row(&mut rows, "APP", StatValue::Rate { num: s.attack, den: s.pieces, scale: 1, decimals: 3 });
    push_row(&mut rows, "Max Ren", StatValue::Count(s.max_combo));
    push_row(&mut rows, "Single", StatValue::Count(s.singles));
    push_row(&mut rows, "Double", StatValue::Count(s.doubles));
    push_row(&mut rows, "Triple", StatValue::Count(s.triples));
    push_row(&mut rows, "Tetris", StatValue::Count(s.tetrises));
    push_row(&mut rows, "T-Spin 0", StatValue::Count(s.tspin_zeros));
    push_row(&mut rows, "T-Spin 1", StatValue::Count(s.tspin_singles));
    push_row(&mut rows, "T-Spin 2", StatValue::Count(s.tspin_doubles));
    push_row(&mut rows, "T-Spin 3", StatValue::Count(s.tspin_triples));
    push_row(&mut rows, "Perfect", StatValue::Count(s.perfect_clears));
    if let Some(i) = info {
        push_row(&mut rows, "", StatValue::Blank);
        push_row(&mut rows, "Depth", StatValue::Count(i.depth));
        push_row(&mut rows, "Nodes", StatValue::Count(i.nodes));
        push_row(&mut rows, "O. Rank", StatValue::Count(i.original_rank));
    }
    assert(rows_view(rows@) =~= stat_rows(*s, time, info));
    rows
}

/// Everything one frame shows.
#[derive(Debug)]
pub struct Frame {
    /// Board cells in drawing order: the visible window row by row from the
    /// bottom, then the ghost, then the piece.
    pub cells: Vec<DrawCell>,
    pub hold: Option<Piece>,
    pub queue: Vec<Piece>,
    /// Fill of the garbage bar as a fraction `(numerator, denominator)` of
    /// its height.
    pub garbage_fill: (u64, u64),
    /// Attack banner and its opacity in steps of `1 / FADE_TICKS`.
    pub attack_text: Option<(AttackText, u32)>,
    /// Combo count banner and its opacity in steps of `1 / FADE_TICKS`.
    pub combo_text: Option<(u32, u32)>,
    pub statistics: Statistics,
    /// Ticks since the game started, for rates.
    pub time: u32,
    pub info: Option<Info>,
    /// The statistics panel.
    pub stat_rows: Vec<StatRow>,
}

/// The colour a stored cell is drawn in: every filled cell turns
/// unclearable once the game is over.
pub open spec fn shown_color(m: PlayerModel, c: CellColor) -> CellColor {
    if m.phase is GameOver && c != CellColor::Empty {
        CellColor::Unclearable
    } else {
        c
    }
}

pub open spec fn cell_draw(m: PlayerModel, i: int) -> DrawCell {
    DrawCell {
        x: (i % 10) as i32,
        y: (i / 10) as i32,
        color: shown_color(m, m.grid[i / 10][i % 10]),
        is_ghost: false,
    }
}

pub open spec fn piece_draws(p: FallingPiece, is_ghost: bool) -> Seq<DrawCell> {
    Seq::new(
        4,
        |j: int| DrawCell { x: p.cells@[j].0, y: p.cells@[j].1, color: piece_color(p.piece), is_ghost },
    )
}

/// The falling piece over its ghost while falling, the clearing piece during
/// a line clear, nothing otherwise.
pub open spec fn overlay_draws(m: PlayerModel) -> Seq<DrawCell> {
    match m.phase {
        PhaseModel::Falling(p, g) => piece_draws(g, true) + piece_draws(p, false),
        PhaseModel::LineClearDelay { piece, .. } => piece_draws(piece, false),
        _ => Seq::empty(),
    }
}

pub open spec fn board_draws(m: PlayerModel) -> Seq<DrawCell> {
    Seq::new((VISIBLE_ROWS * 10) as nat, |i: int| cell_draw(m, i)) + overlay_draws(m)
}

pub open spec fn attack_banner(m: PlayerModel) -> Option<(AttackText, u32)> {
    match m.last_attack_type {
        Some((t, then)) => Some((t, opacity_steps(then, m.time) as u32)),
        None => None,
    }
}

pub open spec fn combo_banner(m: PlayerModel) -> Option<(u32, u32)> {
    match m.last_combo {
        Some((c, then)) => Some((c, opacity_steps(then, m.time) as u32)),
        None => None,
    }
}

fn push_piece(out: &mut Vec<DrawCell>, p: FallingPiece, is_ghost: bool)
    ensures
        final(out)@ == old(out)@ + piece_draws(p, is_ghost),
{
    let color = p.piece.color();
    let mut j: usize = 0;
    while j < 4
        invariant
            j <= 4,
            color == piece_color(p.piece),
            out@ == old(out)@ + piece_draws(p, is_ghost).take(j as int),
        decreases 4 - j,
    {
        let (x, y) = p.cells[j];
        out.push(DrawCell { x, y, color, is_ghost });
        assert(piece_draws(p, is_ghost).take(j as int + 1) =~= piece_draws(p, is_ghost).take(j as int).push(
            DrawCell { x, y, color, is_ghost },
        ));
        j += 1;
    }
    assert(piece_draws(p, is_ghost).take(4) =~= piece_draws(p, is_ghost));
}

impl PlayerUi {
    fn draw_board(&self) -> (r: Vec<DrawCell>)
        requires
            self.wf(),
        ensures
            r@ == board_draws(self@),
    {
        let game_over = matches!(self.phase, Phase::GameOver);
        let mut out: Vec<DrawCell> = Vec::new();
        let mut i: usize = 0;
        while i < VISIBLE_ROWS * 10
            invariant
                i <= VISIBLE_ROWS * 10,
                self.wf(),
                game_over == (self@.phase is GameOver),
                out@ == Seq::new(i as nat, |k: int| cell_draw(self@, k)),
            decreases VISIBLE_ROWS * 10 - i,
        {
            let x = i % 10;
            let y = i / 10;
            let stored = self.board.cell_color(x, y);
            let color = if game_over && stored != CellColor::Empty {
                CellColor::Unclearable
            } else {
                stored
            };
            out.push(DrawCell { x: x as i32, y: y as i32, color, is_ghost: false });
            assert(out@ =~= Seq::new((i + 1) as nat, |k: int| cell_draw(self@, k)));
            i += 1;
        }
        match &self.phase {
            Phase::Falling(piece, ghost_piece) => {
                push_piece(&mut out, *ghost_piece, true);
                push_piece(&mut out, *piece, false);
                assert(out@ =~= board_draws(self@));
            },
            Phase::LineClearDelay { piece, .. } => {
                push_piece(&mut out, *piece, false);
            },
            _ => {
                assert(out@ =~= board_draws(self@));
            },
        }
        out
    }

    /// Describes the frame for the current state and what the engine holds
    /// now. Reads the state and changes nothing.
    pub fn render(&self, live: &LiveGame) -> (r: Frame)
        requires
            self.wf(),
        ensures
            r.cells@ == board_draws(self@),
            r.hold == live.hold,
            r.queue@ == live.next@,
            r.garbage_fill == ((2 * live.garbage_queue) as u64, BOARD_HEIGHT_HALVES),
            r.attack_text == attack_banner(self@),
            r.combo_text == combo_banner(self@),
            r.statistics == self.statistics,
            r.time == self.time,
            r.info == self.info,
            rows_view(r.stat_rows@) == stat_rows(self.statistics, self.time, self.info),
    {
        let attack_text = match self.last_attack_type {
            Some((t, then)) => Some((t, opacity(then, self.time))),
            None => None,
        };
        let combo_text = match self.last_combo {
            Some((c, then)) => Some((c, opacity(then, self.time))),
            None => None,
        };
        Frame {
            cells: self.draw_board(),
            hold: live.hold,
            queue: live.next.clone(),
            garbage_fill: (2 * live.garbage_queue as u64, BOARD_HEIGHT_HALVES),
            attack_text,
            combo_text,
            statistics: self.statistics,
            time: self.time,
            info: self.info,
            stat_rows: statistics_rows(&self.statistics, self.time, self.info),
        }
    }
}

/// A reset viewport renders exactly as a new one: whatever state `m` was in,
/// the frame after `reset` has the same board, banners, statistics, clock and
/// bot figures as the frame of a fresh viewport.
pub proof fn lemma_reset_renders_as_new(m: PlayerModel)
    ensures
        board_draws(reset_model(m)) == board_draws(initial_model()),
        attack_banner(reset_model(m)) == attack_banner(initial_model()),
        combo_banner(reset_model(m)) == combo_banner(initial_model()),
        reset_model(m).statistics == initial_model().statistics,
        reset_model(m).time == initial_model().time,
        reset_model(m).info == initial_model().info,
        stat_rows(reset_model(m).statistics, reset_model(m).time, reset_model(m).info) == stat_rows(
            initial_model().statistics,
            initial_model().time,
            initial_model().info,
        ),
{
    assert(board_draws(reset_model(m)) =~= board_draws(initial_model()));
}

} // verus!
