//! The viewport's state machine: events in, state and sound cues out.
use vstd::prelude::*;
use crate::board::{cleared, empty_grid, painted, with_garbage, Board};
use crate::lock::{attack_text_of, AttackText, LockResult};
use crate::piece::{CellColor, FallingPiece, Piece};
use crate::statistics::{updated, updated_all, zero_statistics, Statistics};

verus! {

/// What the viewport shows of the current piece.
#[derive(Clone, Debug)]
pub enum Phase {
    /// A piece is in the air, with its ghost (where it would land).
    Falling(FallingPiece, FallingPiece),
    /// Between a lock and the next piece; no piece is drawn.
    SpawnDelay,
    /// Lines are clearing; the piece that cleared them is still drawn.
    LineClearDelay { since: u32, lines: Vec<i32>, piece: FallingPiece },
    /// Terminal: the stack is drawn in the unclearable tint.
    GameOver,
}

/// The phase as a mathematical value.
pub enum PhaseModel {
    Falling(FallingPiece, FallingPiece),
    SpawnDelay,
    LineClearDelay { since: u32, lines: Seq<i32>, piece: FallingPiece },
    GameOver,
}

impl Phase {
    pub open spec fn view(&self) -> PhaseModel {
        match *self {
            Phase::Falling(p, g) => PhaseModel::Falling(p, g),
            Phase::SpawnDelay => PhaseModel::SpawnDelay,
            Phase::LineClearDelay { since, lines, piece } => PhaseModel::LineClearDelay {
                since,
                lines: lines@,
                piece,
            },
            Phase::GameOver => PhaseModel::GameOver,
        }
    }
}

/// One event of the game engine's stream.
#[derive(Clone, Debug)]
pub enum Event {
    PieceMoved,
    SoftDropped,
    PieceRotated,
    GameOver,
    /// The active piece and its ghost.
    PieceFalling(FallingPiece, FallingPiece),
    /// Garbage rows arrived, one per entry, each with its hole at that column.
    GarbageAdded(Vec<usize>),
    PiecePlaced { piece: FallingPiece, locked: LockResult, hard_drop_distance: Option<u32> },
    EndOfLineClearDelay,
    /// Any event kind this viewport does not react to.
    Other,
}

/// A sound effect to start.
#[derive(Clone, Copy, Debug, PartialEq, Eq, Structural)]
pub enum Sound {
    Move,
    HardDrop,
    LineClear,
}

/// Diagnostic figures from the bot that plays this board.
#[derive(Clone, Copy, Debug, PartialEq, Eq, Structural)]
pub struct Info {
    pub depth: u64,
    pub nodes: u64,
    pub original_rank: u64,
}

/// The viewport's state: its board, statistics, phase, banner records and
/// tick clock.
#[derive(Debug)]
pub struct PlayerUi {
    pub board: Board,
    pub statistics: Statistics,
    pub phase: Phase,
    /// Headline of the last hard clear or perfect clear, with its tick.
    pub last_attack_type: Option<(AttackText, u32)>,
    /// Last combo count above zero, with its tick.
    pub last_combo: Option<(u32, u32)>,
    pub info: Option<Info>,
    pub time: u32,
    /// Whether a move cue has been started and not yet reported finished.
    pub move_cue_pending: bool,
}

/// The viewport's state as a mathematical value.
pub struct PlayerModel {
    pub grid: Seq<Seq<CellColor>>,
    pub next_pieces: Seq<Piece>,
    pub statistics: Statistics,
    pub phase: PhaseModel,
    pub last_attack_type: Option<(AttackText, u32)>,
    pub last_combo: Option<(u32, u32)>,
    pub info: Option<Info>,
    pub time: u32,
    pub move_cue_pending: bool,
}

pub open spec fn initial_model() -> PlayerModel {
    PlayerModel {
        grid: empty_grid(),
        next_pieces: Seq::empty(),
        statistics: zero_statistics(),
        phase: PhaseModel::SpawnDelay,
        last_attack_type: None,
        last_combo: None,
        info: None,
        time: 0,
        move_cue_pending: false,
    }
}

/// What `reset` leaves: a fresh game, except that a move cue still playing
/// stays pending.
pub open spec fn reset_model(m: PlayerModel) -> PlayerModel {
    PlayerModel { move_cue_pending: m.move_cue_pending, ..initial_model() }
}

pub open spec fn is_movement(e: Event) -> bool {
    e is PieceMoved || e is SoftDropped || e is PieceRotated
}

/// The grid after garbage rows with holes at `cols`, in order.
pub open spec fn with_garbage_all(g: Seq<Seq<CellColor>>, cols: Seq<usize>) -> Seq<Seq<CellColor>>
    decreases cols.len(),
{
    if cols.len() == 0 {
        g
    } else {
        with_garbage(with_garbage_all(g, cols.drop_last()), cols.last() as int)
    }
}

pub open spec fn advanced(q: Seq<Piece>) -> Seq<Piece> {
    if q.len() == 0 {
        q
    } else {
        q.drop_first()
    }
}

/// The state after one event. Once the game is over every event is ignored.
pub open spec fn step(m: PlayerModel, e: Event) -> PlayerModel {
    if m.phase is GameOver {
        m
    } else {
        match e {
            Event::PieceMoved | Event::SoftDropped | Event::PieceRotated => PlayerModel {
                move_cue_pending: true,
                ..m
            },
            Event::GameOver => PlayerModel { phase: PhaseModel::GameOver, ..m },
            Event::PieceFalling(p, g) => PlayerModel { phase: PhaseModel::Falling(p, g), ..m },
            Event::GarbageAdded(cols) => PlayerModel { grid: with_garbage_all(m.grid, cols@), ..m },
            Event::PiecePlaced { piece, locked, hard_drop_distance } => {
                let no_lines = locked.cleared_lines@.len() == 0;
                PlayerModel {
                    grid: if no_lines {
                        cleared(painted(m.grid, piece))
                    } else {
                        m.grid
                    },
                    next_pieces: advanced(m.next_pieces),
                    statistics: updated(m.statistics, locked),
                    phase: if no_lines {
                        PhaseModel::SpawnDelay
                    } else {
                        PhaseModel::LineClearDelay {
                            since: m.time,
                            lines: locked.cleared_lines@,
                            piece,
                        }
                    },
                    last_attack_type: if locked.placement_kind.spec_is_hard()
                        || locked.perfect_clear {
                        Some((attack_text_of(locked), m.time))
                    } else {
                        m.last_attack_type
                    },
                    last_combo: match locked.combo {
                        Some(c) => if c > 0 {
                            Some((c, m.time))
                        } else {
                            m.last_combo
                        },
                        None => m.last_combo,
                    },
                    ..m
                }
            },
            Event::EndOfLineClearDelay => match m.phase {
                PhaseModel::LineClearDelay { piece, .. } => PlayerModel {
                    grid: cleared(painted(m.grid, piece)),
                    phase: PhaseModel::SpawnDelay,
                    ..m
                },
                _ => m,
            },
            Event::Other => m,
        }
    }
}

/// The sounds one event starts. A move cue starts only when none is pending.
pub open spec fn cues(m: PlayerModel, e: Event) -> Seq<Sound> {
    if m.phase is GameOver {
        Seq::empty()
    } else {
        match e {
            Event::PieceMoved | Event::SoftDropped | Event::PieceRotated => if m.move_cue_pending {
                Seq::empty()
            } else {
                seq![Sound::Move]
            },
            Event::PiecePlaced { locked, hard_drop_distance, .. } => (if hard_drop_distance is Some {
                seq![Sound::HardDrop]
            } else {
                Seq::empty()
            }) + (if locked.placement_kind.spec_is_clear() {
                seq![Sound::LineClear]
            } else {
                Seq::empty()
            }),
            _ => Seq::empty(),
        }
    }
}

/// The state and the sounds started after `es`, in order, from `m`.
pub open spec fn run(m: PlayerModel, es: Seq<Event>) -> (PlayerModel, Seq<Sound>)
    decreases es.len(),
{
    if es.len() == 0 {
        (m, Seq::empty())
    } else {
        let (m1, s1) = run(m, es.drop_last());
        (step(m1, es.last()), s1 + cues(m1, es.last()))
    }
}

/// The state at the start of a tick: the clock moves on, fresh bot figures
/// replace the old ones, and a move cue reported finished is no longer pending.
pub open spec fn tick(m: PlayerModel, info: Option<Info>, move_cue_finished: bool) -> PlayerModel {
    PlayerModel {
        time: (m.time + 1) as u32,
        info: if info is Some {
            info
        } else {
            m.info
        },
        move_cue_pending: m.move_cue_pending && !move_cue_finished,
        ..m
    }
}

/// Whether every recorded tick lies no later than the clock.
pub open spec fn model_wf(m: PlayerModel) -> bool {
    &&& m.grid.len() == crate::board::BOARD_ROWS
    &&& (m.last_attack_type matches Some((_, t)) ==> t <= m.time)
    &&& (m.last_combo matches Some((_, t)) ==> t <= m.time)
    &&& (m.phase matches PhaseModel::LineClearDelay { since, .. } ==> since <= m.time)
}

impl PlayerUi {
    pub open spec fn view(&self) -> PlayerModel {
        PlayerModel {
            grid: self.board.grid(),
            next_pieces: self.board.next_pieces@,
            statistics: self.statistics,
            phase: self.phase@,
            last_attack_type: self.last_attack_type,
            last_combo: self.last_combo,
            info: self.info,
            time: self.time,
            move_cue_pending: self.move_cue_pending,
        }
    }

    pub open spec fn wf(&self) -> bool {
        &&& self.board.wf()
        &&& model_wf(self@)
    }

    /// A viewport for a game that has not started: empty board, zero
    /// statistics, waiting for the first piece.
    pub fn new() -> (r: PlayerUi)
        ensures
            r.wf(),
            r@ == initial_model(),
    {
        PlayerUi {
            board: Board::new(),
            statistics: Statistics::new(),
            phase: Phase::SpawnDelay,
            last_attack_type: None,
            last_combo: None,
            info: None,
            time: 0,
            move_cue_pending: false,
        }
    }

    /// Starts over for a new game.
    pub fn reset(&mut self)
        ensures
            final(self).wf(),
            final(self)@ == reset_model(old(self)@),
    {
        self.board = Board::new();
        self.statistics = Statistics::new();
        self.phase = Phase::SpawnDelay;
        self.last_attack_type = None;
        self.last_combo = None;
        self.info = None;
        self.time = 0;
    }

    /// Applies one event, appending the sounds it starts to `sounds`.
    pub fn apply(&mut self, e: &Event, sounds: &mut Vec<Sound>)
        requires
            old(self).wf(),
        ensures
            final(self).wf(),
            final(self)@ == step(old(self)@, *e),
            final(sounds)@ == old(sounds)@ + cues(old(self)@, *e),
    {
        if let Phase::GameOver = self.phase {
            assert(sounds@ =~= old(sounds)@ + cues(old(self)@, *e));
            return;
        }
        let ghost m = self@;
        match e {
            Event::PieceMoved | Event::SoftDropped | Event::PieceRotated => {
                if !self.move_cue_pending {
                    sounds.push(Sound::Move);
                    self.move_cue_pending = true;
                }
                assert(sounds@ =~= old(sounds)@ + cues(m, *e));
            },
            Event::GameOver => {
                self.phase = Phase::GameOver;
                assert(sounds@ =~= old(sounds)@ + cues(m, *e));
            },
            Event::PieceFalling(piece, ghost_piece) => {
                self.phase = Phase::Falling(*piece, *ghost_piece);
                assert(sounds@ =~= old(sounds)@ + cues(m, *e));
            },
            Event::GarbageAdded(cols) => {
                let mut i: usize = 0;
                while i < cols.len()
                    invariant
                        i <= cols@.len(),
                        self.board.wf(),
                        self.board.grid() == with_garbage_all(m.grid, cols@.take(i as int)),
                        self.board.next_pieces == old(self).board.next_pieces,
                        self.statistics == old(self).statistics,
                        self.phase == old(self).phase,
                        self.last_attack_type == old(self).last_attack_type,
                        self.last_combo == old(self).last_combo,
                        self.info == old(self).info,
                        self.time == old(self).time,
                        self.move_cue_pending == old(self).move_cue_pending,
                        m == old(self)@,
                    decreases cols@.len() - i,
                {
                    assert(cols@.take(i as int + 1).drop_last() =~= cols@.take(i as int));
                    self.board.add_garbage(cols[i]);
                    i += 1;
                }
                assert(cols@.take(cols@.len() as int) =~= cols@);
                assert(sounds@ =~= old(sounds)@ + cues(m, *e));
            },
            Event::PiecePlaced { piece, locked, hard_drop_distance } => {
                self.statistics.update(locked);
                if hard_drop_distance.is_some() {
                    sounds.push(Sound::HardDrop);
                }
                if locked.placement_kind.is_clear() {
                    sounds.push(Sound::LineClear);
                }
                assert(sounds@ =~= old(sounds)@ + cues(m, *e));
                if locked.cleared_lines.len() == 0 {
                    self.board.lock_piece(*piece);
                    self.phase = Phase::SpawnDelay;
                } else {
                    self.phase = Phase::LineClearDelay {
                        since: self.time,
                        lines: locked.cleared_lines.clone(),
                        piece: *piece,
                    };
                }
                if locked.placement_kind.is_hard() || locked.perfect_clear {
                    self.last_attack_type = Some((AttackText::of(locked), self.time));
                }
                if let Some(c) = locked.combo {
                    if c > 0 {
                        self.last_combo = Some((c, self.time));
                    }
                }
                let _ = self.board.advance_queue();
            },
            Event::EndOfLineClearDelay => {
                if let Phase::LineClearDelay { piece, .. } = &self.phase {
                    let p = *piece;
                    self.board.lock_piece(p);
                    self.phase = Phase::SpawnDelay;
                }
                assert(sounds@ =~= old(sounds)@ + cues(m, *e));
            },
            Event::Other => {
                assert(sounds@ =~= old(sounds)@ + cues(m, *e));
            },
        }
    }

    /// Advances the clock by one tick, keeps `info` if it is present, and
    /// applies `events` in order. `move_cue_finished` says whether the last
    /// move cue started has finished playing. Returns the sounds to start,
    /// in order.
    pub fn update(&mut self, events: &Vec<Event>, info: Option<Info>, move_cue_finished: bool) -> (r:
        Vec<Sound>)
        requires
            old(self).wf(),
            old(self).time < u32::MAX,
        ensures
            final(self).wf(),
            (final(self)@, r@) == run(tick(old(self)@, info, move_cue_finished), events@),
    {
        if info.is_some() {
            self.info = info;
        }
        self.time = self.time + 1;
        if move_cue_finished {
            self.move_cue_pending = false;
        }
        let ghost m0 = self@;
        assert(m0 == tick(old(self)@, info, move_cue_finished));
        let mut sounds: Vec<Sound> = Vec::new();
        let mut i: usize = 0;
        while i < events.len()
            invariant
                i <= events@.len(),
                self.wf(),
                (self@, sounds@) == run(m0, events@.take(i as int)),
            decreases events@.len() - i,
        {
            assert(events@.take(i as int + 1).drop_last() =~= events@.take(i as int));
            self.apply(&events[i], &mut sounds);
            i += 1;
        }
        assert(events@.take(events@.len() as int) =~= events@);
        sounds
    }
}


/// Phase transitions: a new falling piece makes the phase `Falling`; a
/// placement makes it `SpawnDelay` when it cleared no line and otherwise
/// `LineClearDelay` with the same rows and piece, stamped with the current
/// tick; the end of a line clear delay leads to `SpawnDelay`; `GameOver` is
/// reached from any phase and never left; no other event changes the phase.
pub proof fn lemma_phase_transitions(m: PlayerModel, e: Event)
    ensures
        m.phase is GameOver ==> step(m, e).phase is GameOver,
        e is GameOver ==> step(m, e).phase is GameOver,
        !(m.phase is GameOver) ==> match e {
            Event::PieceFalling(p, g) => step(m, e).phase == PhaseModel::Falling(p, g),
            Event::PiecePlaced { piece, locked, .. } => if locked.cleared_lines@.len() == 0 {
                step(m, e).phase == PhaseModel::SpawnDelay
            } else {
                step(m, e).phase == (PhaseModel::LineClearDelay {
                    since: m.time,
                    lines: locked.cleared_lines@,
                    piece,
                })
            },
            Event::EndOfLineClearDelay => if m.phase is LineClearDelay {
                step(m, e).phase == PhaseModel::SpawnDelay
            } else {
                step(m, e).phase == m.phase
            },
            Event::GameOver => step(m, e).phase == PhaseModel::GameOver,
            _ => step(m, e).phase == m.phase,
        },
{
}

/// The end of a line clear delay outside the `LineClearDelay` phase changes
/// nothing at all, and starts no sound.
pub proof fn lemma_end_of_delay_outside_clear_is_no_op(m: PlayerModel)
    requires
        !(m.phase is LineClearDelay),
    ensures
        step(m, Event::EndOfLineClearDelay) == m,
        cues(m, Event::EndOfLineClearDelay) == Seq::<Sound>::empty(),
{
}

/// Move cue debounce: two movement events with no completion reported
/// between them start at most one move cue, and exactly one when none was
/// pending before; this holds within one tick and across two ticks.
pub proof fn lemma_move_cue_debounce(
    m: PlayerModel,
    e1: Event,
    e2: Event,
    info: Option<Info>,
)
    requires
        !(m.phase is GameOver),
        is_movement(e1),
        is_movement(e2),
    ensures
        run(m, seq![e1, e2]).1 == (if m.move_cue_pending {
            Seq::<Sound>::empty()
        } else {
            seq![Sound::Move]
        }),
        run(tick(run(m, seq![e1]).0, info, false), seq![e2]).1 == Seq::<Sound>::empty(),
{
    let empty = Seq::<Event>::empty();
    assert(seq![e1, e2].drop_last() =~= seq![e1]);
    assert(seq![e1].drop_last() =~= empty);
    assert(seq![e2].drop_last() =~= empty);
    assert(run(m, empty) == (m, Seq::<Sound>::empty()));
    let m1 = step(m, e1);
    let c1 = cues(m, e1);
    assert(run(m, seq![e1]) == (m1, Seq::<Sound>::empty() + c1));
    assert(Seq::<Sound>::empty() + c1 =~= c1);
    assert(m1.move_cue_pending && !(m1.phase is GameOver));
    assert(cues(m1, e2) =~= Seq::<Sound>::empty());
    assert(run(m, seq![e1, e2]) == (step(m1, e2), c1 + cues(m1, e2)));
    assert(c1 + Seq::<Sound>::empty() =~= c1);
    let t = tick(m1, info, false);
    assert(t.move_cue_pending && !(t.phase is GameOver));
    assert(run(t, empty) == (t, Seq::<Sound>::empty()));
    assert(run(t, seq![e2]) == (step(t, e2), Seq::<Sound>::empty() + cues(t, e2)));
    assert(Seq::<Sound>::empty() + Seq::<Sound>::empty() =~= Seq::<Sound>::empty());
}

/// The lock results that a sequence of placement events carries.
pub open spec fn locks_of(es: Seq<Event>) -> Seq<LockResult> {
    es.map_values(|e: Event| e->PiecePlaced_locked)
}

/// Statistics follow the placements: after a run of placement events on a
/// game that is not over, the statistics are those of counting each event's
/// lock result in order (so the piece count grows by the number of events,
/// and each clear-type bucket by the number of placements of its kind).
pub proof fn lemma_statistics_follow_placements(m: PlayerModel, es: Seq<Event>)
    requires
        !(m.phase is GameOver),
        forall|i: int| 0 <= i < es.len() ==> #[trigger] es[i] is PiecePlaced,
    ensures
        run(m, es).0.statistics == updated_all(m.statistics, locks_of(es)),
        !(run(m, es).0.phase is GameOver),
    decreases es.len(),
{
    if es.len() > 0 {
        let rest = es.drop_last();
        assert forall|i: int| 0 <= i < rest.len() implies #[trigger] rest[i] is PiecePlaced by {
            assert(rest[i] == es[i]);
        }
        lemma_statistics_follow_placements(m, rest);
        assert(locks_of(es).drop_last() =~= locks_of(rest));
        assert(es.last() is PiecePlaced);
    }
}

} // verus!
