use tic_tac_gpu::game::{grid_position, App, SAMPLE_LIMIT};
use tic_tac_gpu::backend::Color;
use tic_tac_gpu::board::{is_terminal, Cell, Faction};
use tic_tac_gpu::event::{
    ControlFlow, ElementState, Event, HandleEvent, MouseButton, PhysicalSize, PresentMode,
    Request, SurfaceConfiguration,
};

const E: Cell = Cell::Empty;
const X: Cell = Cell::Cross;
const O: Cell = Cell::Ring;

const WINDOW: PhysicalSize = PhysicalSize { width: 400, height: 400 };

const RELEASE: Event =
    Event::MouseInput { state: ElementState::Released, button: MouseButton::Left };

fn marks(board: &[Cell; 9]) -> usize {
    board.iter().filter(|cell| **cell != E).count()
}

fn flags(board: &[Cell; 9], mark: Cell) -> Vec<bool> {
    board.iter().map(|cell| *cell == mark).collect()
}

fn assert_pieces_shown(app: &App) {
    let board = app.board();
    assert_eq!(app.backend().cross_shape().visibility(9), flags(&board, X));
    assert_eq!(app.backend().ring_shape().visibility(9), flags(&board, O));
    assert_eq!(app.backend().grid_shape().visibility(1), vec![true]);
}

fn hover(app: &mut App, column: u8, row: u8) {
    let x = i64::from(column) * 133 + 60;
    let y = i64::from(2 - row) * 133 + 60;
    let mut flow = ControlFlow::Poll;
    let request = app.handle(Event::CursorMoved { x, y, window: WINDOW }, &mut flow);
    assert_eq!(request, Request::Nothing);
    assert_eq!(app.selected_field(), (column, row));
}

fn click(app: &mut App) -> Request {
    let mut flow = ControlFlow::Poll;
    let request = app.handle(RELEASE, &mut flow);
    assert_eq!(flow, ControlFlow::Poll);
    request
}

#[test]
fn human_as_ring_starts_on_an_empty_board() {
    let app = App::with_faction(Faction::Ring, WINDOW);
    assert_eq!(app.board(), [E; 9]);
    assert!(!app.game_over());
    assert_eq!(app.user_faction(), Faction::Ring);
    assert_eq!(app.selected_field(), (1, 1));
    assert_eq!(app.backend().background(), Color::round_background());
    assert_eq!(app.backend().window_size(), WINDOW);
    assert_pieces_shown(&app);
}

#[test]
fn human_as_cross_finds_one_ring_on_the_board() {
    for _ in 0..50 {
        let app = App::with_faction(Faction::Cross, WINDOW);
        let board = app.board();
        assert_eq!(marks(&board), 1);
        assert_eq!(board.iter().filter(|cell| **cell == O).count(), 1);
        assert!(!app.game_over());
        assert_eq!(app.user_faction(), Faction::Cross);
        assert_pieces_shown(&app);
    }
}

#[test]
fn new_game_draws_a_faction() {
    for _ in 0..50 {
        let app = App::new(WINDOW);
        let board = app.board();
        match app.user_faction() {
            Faction::Ring => assert_eq!(board, [E; 9]),
            Faction::Cross => {
                assert_eq!(marks(&board), 1);
                assert_eq!(board.iter().filter(|cell| **cell == O).count(), 1);
            }
        }
        assert!(!app.game_over());
        assert_eq!(app.backend().background(), Color::round_background());
        assert_pieces_shown(&app);
    }
}

#[test]
fn first_move_of_ring_is_answered_by_cross() {
    for _ in 0..50 {
        let mut app = App::with_faction(Faction::Ring, WINDOW);
        assert!(app.apply_move(0));
        let board = app.board();
        assert_eq!(board[0], O);
        assert_eq!(marks(&board), 2);
        let reply: Vec<usize> = (1..9).filter(|&i| board[i] == X).collect();
        assert_eq!(reply.len(), 1);
        assert_ne!(reply[0], 0);
        assert!(!app.game_over());
        assert_eq!(app.backend().background(), Color::round_background());
        assert_pieces_shown(&app);
    }
}

#[test]
fn move_on_a_marked_cell_changes_nothing() {
    let board = [O, X, E, E, X, E, E, E, O];
    let mut app = App::from_board(board, Faction::Ring, WINDOW);
    assert!(!app.game_over());
    assert!(!app.apply_move(0));
    assert!(!app.apply_move(1));
    assert!(!app.apply_move(4));
    assert_eq!(app.board(), board);
    assert!(!app.game_over());
    assert_eq!(app.user_faction(), Faction::Ring);
    assert_eq!(app.backend().background(), Color::round_background());
    assert_pieces_shown(&app);
}

#[test]
fn move_after_the_round_is_over_changes_nothing() {
    let board = [O, O, O, X, X, E, E, E, E];
    let mut app = App::from_board(board, Faction::Cross, WINDOW);
    assert!(app.game_over());
    for index in 0..9 {
        assert!(!app.apply_move(index));
        assert_eq!(app.board(), board);
        assert!(app.game_over());
    }
    assert_eq!(app.backend().background(), Color::game_over_background());
    assert_pieces_shown(&app);
}

#[test]
fn winning_move_ends_the_round_without_an_answer() {
    let board = [O, O, E, X, X, E, E, E, E];
    let mut app = App::from_board(board, Faction::Ring, WINDOW);
    assert!(app.apply_move(2));
    assert_eq!(app.board(), [O, O, O, X, X, E, E, E, E]);
    assert!(app.game_over());
    assert_eq!(app.backend().background(), Color::game_over_background());
    assert_pieces_shown(&app);
}

#[test]
fn last_free_cell_ends_the_round_in_a_draw() {
    let board = [X, O, X, X, O, O, O, X, E];
    let mut app = App::from_board(board, Faction::Cross, WINDOW);
    assert!(!app.game_over());
    assert!(app.apply_move(8));
    assert_eq!(app.board(), [X, O, X, X, O, O, O, X, X]);
    assert!(app.game_over());
    assert_eq!(app.backend().background(), Color::game_over_background());
}

#[test]
fn answer_of_the_opponent_can_end_the_round() {
    let board = [X, X, E, O, O, E, E, E, E];
    let mut ended = 0;
    for _ in 0..200 {
        let mut app = App::from_board(board, Faction::Ring, WINDOW);
        assert!(app.apply_move(8));
        let after = app.board();
        assert_eq!(marks(&after), 6);
        assert_eq!(after[8], O);
        assert_eq!(app.game_over(), is_terminal(&after));
        if after[2] == X {
            assert!(app.game_over());
            assert_eq!(app.backend().background(), Color::game_over_background());
            ended += 1;
        } else {
            assert!(!app.game_over());
            assert_eq!(app.backend().background(), Color::round_background());
        }
    }
    assert!(ended > 0);
}

#[test]
fn opponent_takes_the_only_free_cell() {
    for free in 0..9 {
        let mut board = [X, O, X, X, O, O, O, X, X];
        board[free] = E;
        for faction in [Faction::Ring, Faction::Cross] {
            for _ in 0..20 {
                let mut app = App::from_board(board, faction, WINDOW);
                assert_eq!(app.ai_turn(), Some(free));
                let mut expected = board;
                expected[free] = Cell::from(faction.opposite());
                assert_eq!(app.board(), expected);
                assert_pieces_shown(&app);
            }
        }
    }
}

#[test]
fn opponent_marks_a_free_cell_with_its_own_sign() {
    let board = [X, E, E, O, E, E, E, E, X];
    let mut seen = [false; 9];
    for _ in 0..500 {
        let mut app = App::from_board(board, Faction::Cross, WINDOW);
        let chosen = app.ai_turn().unwrap();
        assert!(chosen < 9);
        assert_eq!(board[chosen], E);
        let mut expected = board;
        expected[chosen] = O;
        assert_eq!(app.board(), expected);
        assert!(!app.game_over());
        assert_eq!(app.user_faction(), Faction::Cross);
        seen[chosen] = true;
    }
    assert_eq!(seen, [false, true, true, false, true, true, true, true, false]);
}

#[test]
fn opponent_leaves_a_full_board_alone() {
    let board = [X, O, X, X, O, O, O, X, X];
    let mut app = App::from_board(board, Faction::Ring, WINDOW);
    assert_eq!(app.ai_turn(), None);
    assert_eq!(app.board(), board);
}

#[test]
fn place_opponent_takes_a_free_cell_only() {
    let board = [X, E, E, O, E, E, E, E, X];
    let mut app = App::from_board(board, Faction::Cross, WINDOW);
    assert!(!app.place_opponent(0));
    assert!(!app.place_opponent(3));
    assert_eq!(app.board(), board);
    assert!(app.place_opponent(4));
    assert_eq!(app.board(), [X, E, E, O, O, E, E, E, X]);
    assert!(!app.place_opponent(4));
    assert_eq!(app.board(), [X, E, E, O, O, E, E, E, X]);
    assert_pieces_shown(&app);
}

#[test]
fn sample_limit_is_a_thousand() {
    assert_eq!(SAMPLE_LIMIT, 1000);
}

#[test]
fn check_game_over_sees_a_line() {
    let mut app = App::from_board([E, E, O, E, O, E, O, E, E], Faction::Ring, WINDOW);
    assert!(app.game_over());
    assert_eq!(app.backend().background(), Color::game_over_background());
    app.check_game_over();
    assert!(app.game_over());
    let mut open = App::from_board([E, E, O, E, X, E, O, E, E], Faction::Ring, WINDOW);
    assert!(!open.game_over());
    open.check_game_over();
    assert!(!open.game_over());
    assert_eq!(open.backend().background(), Color::round_background());
}

#[test]
fn start_round_clears_the_board() {
    let mut app = App::from_board([O, O, O, X, X, E, E, E, E], Faction::Cross, WINDOW);
    assert!(app.game_over());
    app.start_round(Faction::Ring);
    assert_eq!(app.board(), [E; 9]);
    assert!(!app.game_over());
    assert_eq!(app.user_faction(), Faction::Ring);
    assert_eq!(app.backend().background(), Color::round_background());
    assert_pieces_shown(&app);
    app.start_round(Faction::Cross);
    assert_eq!(marks(&app.board()), 1);
    assert_eq!(app.board().iter().filter(|cell| **cell == O).count(), 1);
    assert!(!app.game_over());
    assert_eq!(app.user_faction(), Faction::Cross);
    assert_pieces_shown(&app);
}

#[test]
fn reset_begins_a_new_round() {
    for _ in 0..50 {
        let mut app = App::from_board([O, O, O, X, X, E, E, E, E], Faction::Cross, WINDOW);
        app.reset();
        assert!(!app.game_over());
        assert_eq!(app.backend().background(), Color::round_background());
        let board = app.board();
        match app.user_faction() {
            Faction::Ring => assert_eq!(board, [E; 9]),
            Faction::Cross => {
                assert_eq!(marks(&board), 1);
                assert_eq!(board.iter().filter(|cell| **cell == O).count(), 1);
            }
        }
        assert_pieces_shown(&app);
    }
}

#[test]
fn click_after_the_round_is_over_begins_a_new_round() {
    for _ in 0..50 {
        let mut app = App::from_board([O, O, O, X, X, E, E, E, E], Faction::Ring, WINDOW);
        assert!(app.game_over());
        assert_eq!(app.backend().background(), Color::game_over_background());
        assert_eq!(click(&mut app), Request::Redraw);
        assert!(!app.game_over());
        assert_eq!(app.backend().background(), Color::round_background());
        let board = app.board();
        match app.user_faction() {
            Faction::Ring => assert_eq!(board, [E; 9]),
            Faction::Cross => {
                assert_eq!(marks(&board), 1);
                assert_eq!(board.iter().filter(|cell| **cell == O).count(), 1);
            }
        }
        assert_pieces_shown(&app);
    }
}

#[test]
fn click_marks_the_cell_under_the_pointer() {
    let mut app = App::with_faction(Faction::Ring, WINDOW);
    assert_eq!(click(&mut app), Request::Redraw);
    assert_eq!(app.board()[4], O);
    assert_eq!(marks(&app.board()), 2);
    assert_eq!(click(&mut app), Request::Nothing);
    assert_eq!(marks(&app.board()), 2);
}

#[test]
fn click_follows_the_pointer() {
    for column in 0..3u8 {
        for row in 0..3u8 {
            let mut app = App::with_faction(Faction::Ring, WINDOW);
            hover(&mut app, column, row);
            assert_eq!(click(&mut app), Request::Redraw);
            assert_eq!(app.board()[usize::from(column) * 3 + usize::from(row)], O);
            assert_eq!(marks(&app.board()), 2);
            assert_pieces_shown(&app);
        }
    }
}

#[test]
fn other_buttons_and_presses_do_nothing() {
    let mut app = App::with_faction(Faction::Ring, WINDOW);
    let events = [
        Event::MouseInput { state: ElementState::Pressed, button: MouseButton::Left },
        Event::MouseInput { state: ElementState::Released, button: MouseButton::Right },
        Event::MouseInput { state: ElementState::Released, button: MouseButton::Middle },
        Event::MouseInput { state: ElementState::Released, button: MouseButton::Other },
        Event::Other,
    ];
    for event in events {
        let mut flow = ControlFlow::Poll;
        assert_eq!(app.handle(event, &mut flow), Request::Nothing);
        assert_eq!(flow, ControlFlow::Poll);
        assert_eq!(app.board(), [E; 9]);
    }
}

#[test]
fn app_passes_window_events_on_to_the_backend() {
    let mut app = App::with_faction(Faction::Ring, WINDOW);
    let mut flow = ControlFlow::Poll;
    let resized = PhysicalSize { width: 640, height: 480 };
    assert_eq!(
        app.handle(Event::Resized(resized), &mut flow),
        Request::Configure(SurfaceConfiguration {
            width: 640,
            height: 480,
            present_mode: PresentMode::Fifo
        })
    );
    assert_eq!(app.backend().window_size(), resized);
    assert_eq!(
        app.handle(Event::ScaleFactorChanged(WINDOW), &mut flow),
        Request::Configure(SurfaceConfiguration {
            width: 400,
            height: 400,
            present_mode: PresentMode::Fifo
        })
    );
    assert_eq!(app.handle(Event::RedrawRequested, &mut flow), Request::Draw);
    assert_eq!(flow, ControlFlow::Poll);
    assert_eq!(app.handle(Event::CloseRequested, &mut flow), Request::Nothing);
    assert_eq!(flow, ControlFlow::Exit);
    assert_eq!(app.board(), [E; 9]);
}

#[test]
fn pointer_maps_to_thirds_of_the_window() {
    assert_eq!(grid_position(0, 0, WINDOW), Some((0, 2)));
    assert_eq!(grid_position(133, 0, WINDOW), Some((0, 2)));
    assert_eq!(grid_position(134, 0, WINDOW), Some((1, 2)));
    assert_eq!(grid_position(266, 0, WINDOW), Some((1, 2)));
    assert_eq!(grid_position(267, 0, WINDOW), Some((2, 2)));
    assert_eq!(grid_position(399, 0, WINDOW), Some((2, 2)));
    assert_eq!(grid_position(0, 133, WINDOW), Some((0, 2)));
    assert_eq!(grid_position(0, 134, WINDOW), Some((0, 1)));
    assert_eq!(grid_position(0, 266, WINDOW), Some((0, 1)));
    assert_eq!(grid_position(0, 267, WINDOW), Some((0, 0)));
    assert_eq!(grid_position(399, 399, WINDOW), Some((2, 0)));
    assert_eq!(grid_position(200, 200, WINDOW), Some((1, 1)));
}

#[test]
fn pointer_outside_the_window_is_over_no_cell() {
    assert_eq!(grid_position(-1, 0, WINDOW), None);
    assert_eq!(grid_position(0, -1, WINDOW), None);
    assert_eq!(grid_position(400, 0, WINDOW), None);
    assert_eq!(grid_position(0, 400, WINDOW), None);
    assert_eq!(grid_position(i64::MIN, i64::MIN, WINDOW), None);
    assert_eq!(grid_position(i64::MAX, i64::MAX, WINDOW), None);
    assert_eq!(grid_position(0, 0, PhysicalSize { width: 0, height: 0 }), None);
    assert_eq!(grid_position(0, 0, PhysicalSize { width: 0, height: 10 }), None);
    assert_eq!(grid_position(0, 0, PhysicalSize { width: 10, height: 0 }), None);
}

#[test]
fn pointer_rows_are_bounded_by_the_height_of_the_window() {
    let wide = PhysicalSize { width: 400, height: 200 };
    assert_eq!(grid_position(10, 199, wide), Some((0, 0)));
    assert_eq!(grid_position(10, 200, wide), None);
    assert_eq!(grid_position(10, 399, wide), None);
    let tall = PhysicalSize { width: 200, height: 400 };
    assert_eq!(grid_position(10, 399, tall), Some((0, 0)));
    assert_eq!(grid_position(10, 200, tall), Some((0, 1)));
    assert_eq!(grid_position(200, 10, tall), None);
}

#[test]
fn pointer_in_the_largest_window() {
    let huge = PhysicalSize { width: u32::MAX, height: u32::MAX };
    let last = i64::from(u32::MAX) - 1;
    assert_eq!(grid_position(last, last, huge), Some((2, 0)));
    assert_eq!(grid_position(0, 0, huge), Some((0, 2)));
}

#[test]
fn pointer_outside_the_window_keeps_the_selection() {
    let mut app = App::with_faction(Faction::Ring, WINDOW);
    hover(&mut app, 2, 0);
    let mut flow = ControlFlow::Poll;
    for (x, y) in [(-5, 10), (10, -5), (400, 10), (10, 400), (1000, 1000)] {
        let request = app.handle(Event::CursorMoved { x, y, window: WINDOW }, &mut flow);
        assert_eq!(request, Request::Nothing);
        assert_eq!(app.selected_field(), (2, 0));
    }
    assert_eq!(app.board(), [E; 9]);
}

#[test]
fn rounds_played_by_clicks_end_and_begin_anew() {
    for _ in 0..30 {
        let mut app = App::new(WINDOW);
        let mut rounds = 0;
        let mut clicks = 0;
        while rounds < 3 {
            clicks += 1;
            assert!(clicks < 1000);
            let before = app.board();
            let faction = app.user_faction();
            if app.game_over() {
                assert!(is_terminal(&before));
                assert_eq!(app.backend().background(), Color::game_over_background());
                assert_eq!(click(&mut app), Request::Redraw);
                assert!(!app.game_over());
                assert!(marks(&app.board()) <= 1);
                rounds += 1;
            } else {
                assert!(!is_terminal(&before));
                assert_eq!(app.backend().background(), Color::round_background());
                let field = (clicks % 3, (clicks / 3) % 3);
                hover(&mut app, field.0 as u8, field.1 as u8);
                let index = field.0 * 3 + field.1;
                let request = click(&mut app);
                let after = app.board();
                if before[index] == E {
                    assert_eq!(request, Request::Redraw);
                    assert_eq!(after[index], Cell::from(faction));
                    assert!(marks(&after) == marks(&before) + 1 || marks(&after) == marks(&before) + 2);
                    for i in 0..9 {
                        if before[i] != E {
                            assert_eq!(after[i], before[i]);
                        }
                    }
                } else {
                    assert_eq!(request, Request::Nothing);
                    assert_eq!(after, before);
                }
                assert_eq!(app.game_over(), is_terminal(&after));
                assert_eq!(app.user_faction(), faction);
            }
            assert_pieces_shown(&app);
        }
    }
}
