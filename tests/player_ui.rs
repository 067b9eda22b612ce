use player_ui::board::Board;
use player_ui::fade::{opacity, FADE_TICKS};
use player_ui::frame::{statistics_rows, LiveGame, StatValue, BOARD_HEIGHT_HALVES, VISIBLE_ROWS};
use player_ui::lock::{AttackText, LockResult, PlacementKind};
use player_ui::piece::{CellColor, FallingPiece, Piece};
use player_ui::player::{Event, Info, Phase, PlayerUi, Sound};
use player_ui::statistics::Statistics;

fn t_piece() -> FallingPiece {
    // A flat T at the bottom left: three cells on row 0, one on row 1.
    FallingPiece { piece: Piece::T, cells: [(0, 0), (1, 0), (2, 0), (1, 1)] }
}

fn t_ghost() -> FallingPiece {
    t_piece()
}

fn i_vertical() -> FallingPiece {
    FallingPiece { piece: Piece::I, cells: [(0, 0), (0, 1), (0, 2), (0, 3)] }
}

fn lock(kind: PlacementKind, lines: Vec<i32>, combo: Option<u32>) -> LockResult {
    LockResult {
        placement_kind: kind,
        cleared_lines: lines,
        combo,
        b2b: false,
        perfect_clear: false,
        garbage_sent: 0,
    }
}

fn placed(piece: FallingPiece, locked: LockResult, hard: Option<u32>) -> Event {
    Event::PiecePlaced { piece, locked, hard_drop_distance: hard }
}

fn live() -> LiveGame {
    LiveGame { hold: Some(Piece::O), next: vec![Piece::I, Piece::S], garbage_queue: 3 }
}

fn cell(ui: &PlayerUi, x: usize, y: usize) -> CellColor {
    ui.board.cell_color(x, y)
}

#[test]
fn falling_then_placed_without_clear() {
    let mut ui = PlayerUi::new();
    ui.update(&vec![Event::PieceFalling(t_piece(), t_ghost())], None, false);
    assert!(matches!(ui.phase, Phase::Falling(_, _)));
    let sounds = ui.update(
        &vec![placed(t_piece(), lock(PlacementKind::Nothing, vec![], Some(0)), None)],
        None,
        false,
    );
    assert!(sounds.is_empty());
    assert!(matches!(ui.phase, Phase::SpawnDelay));
    assert_eq!(cell(&ui, 0, 0), CellColor::T);
    assert_eq!(cell(&ui, 1, 0), CellColor::T);
    assert_eq!(cell(&ui, 2, 0), CellColor::T);
    assert_eq!(cell(&ui, 1, 1), CellColor::T);
    assert_eq!(cell(&ui, 3, 0), CellColor::Empty);
    assert_eq!(ui.statistics.pieces, 1);
    assert!(ui.last_attack_type.is_none());
    assert!(ui.last_combo.is_none());
}

#[test]
fn back_to_back_tetris_clears_after_delay() {
    let mut ui = PlayerUi::new();
    ui.update(&vec![Event::GarbageAdded(vec![0, 0])], None, false);
    assert_eq!(cell(&ui, 0, 0), CellColor::Empty);
    assert_eq!(cell(&ui, 1, 0), CellColor::Garbage);
    assert_eq!(cell(&ui, 1, 1), CellColor::Garbage);
    let mut locked = lock(PlacementKind::Clear4, vec![0, 1], Some(1));
    locked.b2b = true;
    locked.garbage_sent = 5;
    let sounds = ui.update(&vec![placed(i_vertical(), locked, Some(12))], None, false);
    assert_eq!(sounds, vec![Sound::HardDrop, Sound::LineClear]);
    match &ui.phase {
        Phase::LineClearDelay { since, lines, piece } => {
            assert_eq!(*since, 2);
            assert_eq!(lines, &vec![0, 1]);
            assert_eq!(piece.piece, Piece::I);
        }
        _ => panic!("expected a line clear delay"),
    }
    // The board is untouched until the delay ends.
    assert_eq!(cell(&ui, 0, 0), CellColor::Empty);
    ui.update(&vec![Event::EndOfLineClearDelay], None, false);
    assert!(matches!(ui.phase, Phase::SpawnDelay));
    // Both garbage rows are gone; the two upper I cells dropped to the bottom.
    assert_eq!(cell(&ui, 0, 0), CellColor::I);
    assert_eq!(cell(&ui, 0, 1), CellColor::I);
    assert_eq!(cell(&ui, 1, 0), CellColor::Empty);
    assert_eq!(cell(&ui, 0, 2), CellColor::Empty);
    let (text, _) = ui.last_attack_type.unwrap();
    assert_eq!(text, AttackText::BackToBack(PlacementKind::Clear4));
    assert_eq!(text.text(), "Back-To-Back Tetris");
    assert_eq!(ui.last_combo, Some((1, 2)));
    assert_eq!(ui.statistics.tetrises, 1);
    assert_eq!(ui.statistics.lines, 2);
    assert_eq!(ui.statistics.attack, 5);
}

#[test]
fn end_of_delay_outside_line_clear_is_ignored() {
    let mut ui = PlayerUi::new();
    ui.update(&vec![placed(t_piece(), lock(PlacementKind::Nothing, vec![], None), None)], None, false);
    ui.update(&vec![Event::EndOfLineClearDelay], None, false);
    assert!(matches!(ui.phase, Phase::SpawnDelay));
    assert_eq!(cell(&ui, 0, 0), CellColor::T);
    assert_eq!(cell(&ui, 0, 1), CellColor::Empty);
    ui.update(&vec![Event::PieceFalling(t_piece(), t_ghost()), Event::EndOfLineClearDelay], None, false);
    assert!(matches!(ui.phase, Phase::Falling(_, _)));
    assert_eq!(cell(&ui, 0, 1), CellColor::Empty);
}

#[test]
fn opacity_holds_then_fades_to_zero() {
    assert_eq!(opacity(10, 10), FADE_TICKS);
    assert_eq!(opacity(10, 70), FADE_TICKS);
    assert_eq!(opacity(10, 71), FADE_TICKS - 1);
    assert_eq!(opacity(10, 80), 5);
    assert_eq!(opacity(10, 84), 1);
    assert_eq!(opacity(10, 85), 0);
    assert_eq!(opacity(10, 1000), 0);
}

#[test]
fn move_cue_is_debounced() {
    let mut ui = PlayerUi::new();
    let sounds = ui.update(&vec![Event::PieceMoved, Event::PieceRotated], None, false);
    assert_eq!(sounds, vec![Sound::Move]);
    let sounds = ui.update(&vec![Event::SoftDropped], None, false);
    assert!(sounds.is_empty());
    let sounds = ui.update(&vec![Event::SoftDropped, Event::PieceMoved], None, true);
    assert_eq!(sounds, vec![Sound::Move]);
}

#[test]
fn statistics_count_each_kind() {
    let mut ui = PlayerUi::new();
    let mut perfect = lock(PlacementKind::Clear2, vec![0, 1], Some(2));
    perfect.perfect_clear = true;
    let events = vec![
        placed(t_piece(), lock(PlacementKind::Clear1, vec![0], Some(1)), None),
        placed(t_piece(), lock(PlacementKind::Clear1, vec![0], Some(3)), None),
        placed(t_piece(), lock(PlacementKind::Tspin2, vec![0, 1], None), None),
        placed(t_piece(), lock(PlacementKind::Nothing, vec![], None), None),
        placed(t_piece(), perfect, None),
    ];
    ui.update(&events, None, false);
    let s = ui.statistics;
    assert_eq!(s.pieces, 5);
    assert_eq!(s.singles, 2);
    assert_eq!(s.doubles, 1);
    assert_eq!(s.tspin_doubles, 1);
    assert_eq!(s.triples, 0);
    assert_eq!(s.perfect_clears, 1);
    assert_eq!(s.lines, 6);
    assert_eq!(s.max_combo, 3);
    assert_eq!(s.combo, 2);
    assert!(matches!(ui.last_attack_type, Some((AttackText::PerfectClear, 1))));
}

#[test]
fn reset_renders_like_a_new_viewport() {
    let mut ui = PlayerUi::new();
    let mut locked = lock(PlacementKind::Clear4, vec![0], Some(4));
    locked.garbage_sent = 4;
    let info = Info { depth: 3, nodes: 1200, original_rank: 2 };
    ui.update(&vec![Event::GarbageAdded(vec![3]), Event::PieceMoved], Some(info), false);
    ui.update(&vec![placed(t_piece(), locked, None), Event::GameOver], None, false);
    ui.reset();
    let fresh = PlayerUi::new();
    let a = ui.render(&live());
    let b = fresh.render(&live());
    assert_eq!(a.cells, b.cells);
    assert_eq!(a.attack_text, b.attack_text);
    assert_eq!(a.combo_text, b.combo_text);
    assert_eq!(a.statistics, b.statistics);
    assert_eq!(a.time, b.time);
    assert_eq!(a.info, b.info);
    assert_eq!(format!("{:?}", a), format!("{:?}", b));
}

#[test]
fn render_overlays_ghost_then_piece() {
    let mut ui = PlayerUi::new();
    let ghost = FallingPiece { piece: Piece::T, cells: [(4, 0), (5, 0), (6, 0), (5, 1)] };
    let piece = FallingPiece { piece: Piece::T, cells: [(4, 15), (5, 15), (6, 15), (5, 16)] };
    ui.update(&vec![Event::PieceFalling(piece, ghost)], None, false);
    let frame = ui.render(&live());
    assert_eq!(frame.cells.len(), VISIBLE_ROWS * 10 + 8);
    let first = frame.cells[0];
    assert_eq!((first.x, first.y, first.color, first.is_ghost), (0, 0, CellColor::Empty, false));
    let eleventh = frame.cells[11];
    assert_eq!((eleventh.x, eleventh.y), (1, 1));
    let g = frame.cells[210];
    assert_eq!((g.x, g.y, g.color, g.is_ghost), (4, 0, CellColor::T, true));
    let p = frame.cells[217];
    assert_eq!((p.x, p.y, p.color, p.is_ghost), (5, 16, CellColor::T, false));
    assert_eq!(frame.hold, Some(Piece::O));
    assert_eq!(frame.queue, vec![Piece::I, Piece::S]);
    assert_eq!(frame.garbage_fill, (6, BOARD_HEIGHT_HALVES));
    assert_eq!(frame.time, 1);
}

#[test]
fn line_clear_delay_draws_piece_without_ghost() {
    let mut ui = PlayerUi::new();
    ui.update(&vec![placed(i_vertical(), lock(PlacementKind::Clear1, vec![0], None), None)], None, false);
    let frame = ui.render(&live());
    assert_eq!(frame.cells.len(), VISIBLE_ROWS * 10 + 4);
    assert!(frame.cells[210..].iter().all(|c| !c.is_ghost && c.color == CellColor::I));
}

#[test]
fn game_over_tints_stack_and_ignores_later_events() {
    let mut ui = PlayerUi::new();
    ui.update(&vec![placed(t_piece(), lock(PlacementKind::Nothing, vec![], None), None)], None, false);
    ui.update(&vec![Event::GameOver], None, false);
    let sounds = ui.update(
        &vec![
            Event::PieceMoved,
            Event::PieceFalling(t_piece(), t_ghost()),
            placed(t_piece(), lock(PlacementKind::Clear1, vec![0], None), Some(3)),
        ],
        None,
        false,
    );
    assert!(sounds.is_empty());
    assert!(matches!(ui.phase, Phase::GameOver));
    assert_eq!(ui.statistics.pieces, 1);
    let frame = ui.render(&live());
    assert_eq!(frame.cells.len(), VISIBLE_ROWS * 10);
    assert_eq!(frame.cells[0].color, CellColor::Unclearable);
    assert_eq!(frame.cells[3].color, CellColor::Empty);
}

#[test]
fn banners_fade_with_ticks() {
    let mut ui = PlayerUi::new();
    let mut pc = lock(PlacementKind::Clear4, vec![0, 1, 2, 3], Some(2));
    pc.perfect_clear = true;
    ui.update(&vec![placed(i_vertical(), pc, None)], None, false);
    let frame = ui.render(&live());
    assert_eq!(frame.attack_text, Some((AttackText::PerfectClear, FADE_TICKS)));
    assert_eq!(frame.combo_text, Some((2, FADE_TICKS)));
    for _ in 0..65 {
        ui.update(&vec![], None, false);
    }
    let frame = ui.render(&live());
    assert_eq!(frame.attack_text, Some((AttackText::PerfectClear, FADE_TICKS - 5)));
    for _ in 0..100 {
        ui.update(&vec![], None, false);
    }
    let frame = ui.render(&live());
    assert_eq!(frame.combo_text, Some((2, 0)));
    assert_eq!(AttackText::PerfectClear.text(), "Perfect Clear");
}

#[test]
fn soft_clears_do_not_replace_banners() {
    let mut ui = PlayerUi::new();
    ui.update(&vec![placed(t_piece(), lock(PlacementKind::Clear2, vec![0, 1], Some(0)), None)], None, false);
    assert!(ui.last_attack_type.is_none());
    assert!(ui.last_combo.is_none());
    assert_eq!(AttackText::of(&lock(PlacementKind::Tspin1, vec![0], None)), AttackText::Plain(PlacementKind::Tspin1));
    assert_eq!(AttackText::Plain(PlacementKind::Tspin1).text(), "T-Spin Single");
}

#[test]
fn placement_kind_classes_and_names() {
    assert!(PlacementKind::Clear1.is_clear());
    assert!(!PlacementKind::Tspin.is_clear());
    assert!(!PlacementKind::Nothing.is_clear());
    assert!(PlacementKind::Clear4.is_hard());
    assert!(PlacementKind::MiniTspin1.is_hard());
    assert!(!PlacementKind::Clear3.is_hard());
    assert_eq!(PlacementKind::Clear3.name(), "Triple");
    assert_eq!(PlacementKind::MiniTspin2.name(), "Mini T-Spin Double");
    assert_eq!(PlacementKind::Nothing.name(), "");
    assert_eq!(Piece::Z.color(), CellColor::Z);
}

#[test]
fn garbage_pushes_rows_up() {
    let mut board = Board::new();
    board.lock_piece(t_piece());
    board.add_garbage(7);
    assert_eq!(board.cell_color(7, 0), CellColor::Empty);
    assert_eq!(board.cell_color(0, 0), CellColor::Garbage);
    assert_eq!(board.cell_color(0, 1), CellColor::T);
    assert_eq!(board.cell_color(1, 2), CellColor::T);
    board.add_garbage(10);
    assert!((0..10).all(|x| board.cell_color(x, 0) == CellColor::Garbage));
    assert_eq!(board.rows.len(), 40);
}

#[test]
fn queue_advances_front_first() {
    let mut board = Board::new();
    assert_eq!(board.advance_queue(), None);
    board.add_next_piece(Piece::L);
    board.add_next_piece(Piece::J);
    assert_eq!(board.advance_queue(), Some(Piece::L));
    assert_eq!(board.next_pieces, vec![Piece::J]);
}

#[test]
fn cells_outside_the_board_are_dropped() {
    let mut board = Board::new();
    let piece = FallingPiece { piece: Piece::O, cells: [(-1, 0), (10, 0), (0, 40), (9, 39)] };
    board.lock_piece(piece);
    assert_eq!(board.cell_color(9, 39), CellColor::O);
    assert_eq!(board.cell_color(0, 0), CellColor::Empty);
}

#[test]
fn bot_info_is_kept_until_replaced() {
    let mut ui = PlayerUi::new();
    let info = Info { depth: 7, nodes: 99, original_rank: 1 };
    ui.update(&vec![], Some(info), false);
    ui.update(&vec![], None, false);
    assert_eq!(ui.info, Some(info));
    assert_eq!(ui.time, 2);
}

#[test]
fn statistics_start_at_zero_and_saturate() {
    let mut s = Statistics::default();
    assert_eq!(s, Statistics::new());
    s.attack = u64::MAX - 1;
    let mut l = lock(PlacementKind::Clear1, vec![0], None);
    l.garbage_sent = 10;
    s.update(&l);
    assert_eq!(s.attack, u64::MAX);
    assert_eq!(s.singles, 1);
}

#[test]
fn statistics_panel_rows() {
    let mut s = Statistics::new();
    s.pieces = 4;
    s.attack = 6;
    s.tetrises = 1;
    let rows = statistics_rows(&s, 120, None);
    assert_eq!(rows.len(), 16);
    assert_eq!(rows[0].label, "Pieces");
    assert_eq!(rows[0].value, StatValue::Count(4));
    assert_eq!(rows[1].label, "PPS");
    assert_eq!(rows[1].value, StatValue::Rate { num: 4, den: 120, scale: 60, decimals: 1 });
    assert_eq!(rows[4].value, StatValue::Rate { num: 6, den: 120, scale: 3600, decimals: 1 });
    assert_eq!(rows[5].value, StatValue::Rate { num: 6, den: 4, scale: 1, decimals: 3 });
    assert_eq!(rows[10].label, "Tetris");
    assert_eq!(rows[10].value, StatValue::Count(1));
    assert_eq!(rows[15].label, "Perfect");
    let info = Info { depth: 5, nodes: 4000, original_rank: 0 };
    let rows = statistics_rows(&s, 120, Some(info));
    assert_eq!(rows.len(), 20);
    assert_eq!(rows[16].label, "");
    assert_eq!(rows[16].value, StatValue::Blank);
    assert_eq!(rows[17].label, "Depth");
    assert_eq!(rows[18].value, StatValue::Count(4000));
    assert_eq!(rows[19].label, "O. Rank");
}
