//! The game: whose turn it is, what a click does, when a round ends, and
//! what the opponent answers.
//!
//! Ring moves first. The human plays one faction, drawn at random when a
//! round begins; the opponent plays the other and answers each move of the
//! human by marking a free cell drawn at random.

use crate::backend::{lemma_shown_pieces, marked, Backend, Color};
use crate::board::{is_full, is_terminal, terminal, Cell, Faction};
use crate::event::{
    ControlFlow, ElementState, Event, HandleEvent, MouseButton, PhysicalSize, Request,
};
use crate::random::{coin_flip, index_below};
use crate::shape::replay;
use vstd::prelude::*;

verus! {

/// How often the opponent draws one of the nine cells at random before it
/// draws among the free cells only. With one free cell among nine, a
/// thousand draws all miss it less than once in ten to the power of fifty
/// rounds.
pub const SAMPLE_LIMIT: u32 = 1000;

/// The empty board.
pub open spec fn empty_board() -> Seq<Cell> {
    Seq::new(9, |i: int| Cell::Empty)
}

/// `after` is `before` with `mark` put on one cell that was free.
pub open spec fn marks_free_cell(before: Seq<Cell>, after: Seq<Cell>, mark: Cell) -> bool {
    exists|cell: int|
        0 <= cell < before.len() && before[cell] == Cell::Empty && after == #[trigger] before.update(
            cell,
            mark,
        )
}

/// `cell` is the one free cell of `board`.
pub open spec fn sole_free_cell(board: Seq<Cell>, cell: int) -> bool {
    &&& 0 <= cell < board.len()
    &&& board[cell] == Cell::Empty
    &&& forall|i: int| 0 <= i < board.len() && i != cell ==> #[trigger] board[i] != Cell::Empty
}

/// The cell under the pixel `(x, y)` of a window of the size `window`, as
/// column and row. The pixel is counted from the top left corner, the rows
/// of the board from the bottom. There is a cell only under a pixel of the
/// window.
pub open spec fn cell_under(x: int, y: int, window: PhysicalSize) -> Option<(u8, u8)> {
    if 0 <= x < window.width && 0 <= y < window.height {
        Some(((x * 3 / window.width as int) as u8, (2 - y * 3 / window.height as int) as u8))
    } else {
        None
    }
}

/// The cell under the pixel `(x, y)` of a window of the size `window`: a
/// third of the width is one column, a third of the height one row, and the
/// rows count upwards. A pixel outside the window is under no cell.
pub fn grid_position(x: i64, y: i64, window: PhysicalSize) -> (position: Option<(u8, u8)>)
    ensures
        position == cell_under(x as int, y as int, window),
        position matches Some(cell) ==> cell.0 <= 2 && cell.1 <= 2,
{
    if !(x < 0 || x >= window.width as i64 || y < 0 || y >= window.height as i64) {
        let column: i64 = x * 3 / window.width as i64;
        let row: i64 = y * 3 / window.height as i64;
        assert(0 <= column <= 2 && 0 <= row <= 2) by (nonlinear_arith)
            requires
                0 <= x < window.width,
                0 <= y < window.height,
                column == x * 3 / window.width as int,
                row == y * 3 / window.height as int,
        ;
        Some((column as u8, (2 - row) as u8))
    } else {
        None
    }
}

/// A board without a mark.
fn cleared_board() -> (board: [Cell; 9])
    ensures
        board@ == empty_board(),
{
    let board = [
        Cell::Empty,
        Cell::Empty,
        Cell::Empty,
        Cell::Empty,
        Cell::Empty,
        Cell::Empty,
        Cell::Empty,
        Cell::Empty,
        Cell::Empty,
    ];
    assert(board@ =~= empty_board());
    board
}

/// The free cells of `board`, from first to last.
fn free_cells(board: &[Cell; 9]) -> (cells: Vec<usize>)
    ensures
        forall|k: int|
            0 <= k < cells@.len() ==> (#[trigger] cells@[k]) < 9 && board@[cells@[k] as int]
                == Cell::Empty,
        is_full(board@) <==> cells@.len() == 0,
{
    let mut cells: Vec<usize> = Vec::new();
    let mut i: usize = 0;
    while i < 9
        invariant
            i <= 9,
            forall|k: int|
                0 <= k < cells@.len() ==> (#[trigger] cells@[k]) < 9 && board@[cells@[k] as int]
                    == Cell::Empty,
            cells@.len() == 0 <==> forall|j: int| 0 <= j < i ==> board@[j] != Cell::Empty,
        decreases 9 - i,
    {
        if board[i].is_empty() {
            cells.push(i);
        }
        i += 1;
    }
    cells
}

/// The state of the game together with the renderer that shows it.
#[derive(Debug)]
pub struct App {
    selected_field: (u8, u8),
    board: [Cell; 9],
    game_over: bool,
    user_faction: Faction,
    backend: Backend,
}

impl App {
    /// The nine cells of the board.
    pub closed spec fn cells(&self) -> Seq<Cell> {
        self.board@
    }

    /// Whether the round is over.
    pub closed spec fn over(&self) -> bool {
        self.game_over
    }

    /// The faction of the human.
    pub closed spec fn human(&self) -> Faction {
        self.user_faction
    }

    /// The cell under the pointer, as column and row.
    pub closed spec fn hovered(&self) -> (u8, u8) {
        self.selected_field
    }

    /// The renderer.
    pub closed spec fn renderer(&self) -> Backend {
        self.backend
    }

    /// The board has nine cells, the cell under the pointer is one of them,
    /// and the renderer is set up and shows the pieces of the board. Every
    /// constructor gives such a value and every method keeps it so.
    pub open spec fn wf(&self) -> bool {
        &&& self.cells().len() == 9
        &&& self.hovered().0 <= 2
        &&& self.hovered().1 <= 2
        &&& self.renderer().assembled()
        &&& self.renderer().shows(self.cells())
    }

    /// The index of the cell under the pointer.
    pub open spec fn hovered_index(&self) -> int {
        self.hovered().0 * 3 + self.hovered().1
    }

    /// The flag that the round is over and the background both go by the
    /// board: the round is over exactly if the board ends it, and the
    /// background says whether it is.
    pub open spec fn settled(&self) -> bool {
        &&& self.over() == terminal(self.cells())
        &&& self.renderer().clear_color() == if self.over() {
            Color::finished()
        } else {
            Color::playing()
        }
    }

    /// Nothing but the pieces on show and the background differs between
    /// the renderer of `self` and that of `before`.
    pub open spec fn surface_kept(&self, before: &App) -> bool {
        &&& self.renderer().grid() == before.renderer().grid()
        &&& self.renderer().size() == before.renderer().size()
        &&& self.renderer().cross().indices() == before.renderer().cross().indices()
        &&& self.renderer().ring().indices() == before.renderer().ring().indices()
    }

    /// A round has just begun with the human as `faction`: the board is
    /// empty if the human moves first, and holds one mark of the opponent
    /// otherwise.
    pub open spec fn round_begun(&self, faction: Faction) -> bool {
        &&& self.wf()
        &&& self.human() == faction
        &&& !self.over()
        &&& self.renderer().clear_color() == Color::playing()
        &&& if faction == Faction::Ring {
            self.cells() == empty_board()
        } else {
            marks_free_cell(empty_board(), self.cells(), faction.other().mark())
        }
    }

    /// The human has just marked the free cell `index` in the state
    /// `before`, which was not over. If that ended the round, the round is
    /// over and the background says so. If not, the opponent has marked a
    /// free cell in answer, and the round is over if that ended it.
    pub open spec fn moved_from(&self, before: &App, index: int) -> bool {
        let marked = before.cells().update(index, before.human().mark());
        &&& self.wf()
        &&& self.human() == before.human()
        &&& self.hovered() == before.hovered()
        &&& self.surface_kept(before)
        &&& if terminal(marked) {
            &&& self.cells() == marked
            &&& self.over()
            &&& self.renderer().clear_color() == Color::finished()
        } else {
            &&& marks_free_cell(marked, self.cells(), before.human().other().mark())
            &&& self.over() == terminal(self.cells())
            &&& self.renderer().clear_color() == if self.over() {
                Color::finished()
            } else {
                before.renderer().clear_color()
            }
        }
    }

    /// A new game in a window of the size `window_size`, with the human's
    /// faction drawn at random.
    pub fn new(window_size: PhysicalSize) -> (app: App)
        ensures
            app.round_begun(app.human()),
            app.settled(),
            app.hovered() == (1u8, 1u8),
            app.renderer().size() == window_size,
    {
        let user_faction = Faction::sample(coin_flip());
        App::with_faction(user_faction, window_size)
    }

    /// A new game in a window of the size `window_size`, with the human as
    /// `user_faction`. The pointer counts as over the middle cell until it
    /// moves.
    pub fn with_faction(user_faction: Faction, window_size: PhysicalSize) -> (app: App)
        ensures
            app.round_begun(user_faction),
            app.settled(),
            app.hovered() == (1u8, 1u8),
            app.renderer().size() == window_size,
    {
        let mut app = App {
            selected_field: (1, 1),
            board: cleared_board(),
            game_over: false,
            user_faction,
            backend: Backend::new(window_size),
        };
        app.start_round(user_faction);
        app
    }

    /// A game on the given board, with the human as `user_faction`. The
    /// round is over if the board ends it.
    pub fn from_board(board: [Cell; 9], user_faction: Faction, window_size: PhysicalSize) -> (app:
        App)
        ensures
            app.wf(),
            app.settled(),
            app.cells() == board@,
            app.human() == user_faction,
            app.hovered() == (1u8, 1u8),
            app.over() == terminal(board@),
            app.renderer().size() == window_size,
            app.renderer().clear_color() == if terminal(board@) {
                Color::finished()
            } else {
                Color::playing()
            },
    {
        let mut backend = Backend::new(window_size);
        backend.update_instances(board.as_slice());
        let mut app = App {
            selected_field: (1, 1),
            board,
            game_over: false,
            user_faction,
            backend,
        };
        app.check_game_over();
        app
    }

    /// The nine cells of the board.
    pub fn board(&self) -> (board: [Cell; 9])
        ensures
            board@ == self.cells(),
    {
        self.board
    }

    /// Whether the round is over.
    pub fn game_over(&self) -> (over: bool)
        ensures
            over == self.over(),
    {
        self.game_over
    }

    /// The faction of the human.
    pub fn user_faction(&self) -> (faction: Faction)
        ensures
            faction == self.human(),
    {
        self.user_faction
    }

    /// The cell under the pointer, as column and row.
    pub fn selected_field(&self) -> (field: (u8, u8))
        ensures
            field == self.hovered(),
    {
        self.selected_field
    }

    /// The renderer.
    pub fn backend(&self) -> (backend: &Backend)
        ensures
            *backend == self.renderer(),
    {
        &self.backend
    }

    /// Puts `with` on the cell `index` and tells the renderer.
    fn mark_field(&mut self, index: usize, with: Cell)
        requires
            index < 9,
        ensures
            final(self).cells() == old(self).cells().update(index as int, with),
            final(self).over() == old(self).over(),
            final(self).human() == old(self).human(),
            final(self).hovered() == old(self).hovered(),
            final(self).renderer().shows(final(self).cells()),
            final(self).renderer().clear_color() == old(self).renderer().clear_color(),
            final(self).surface_kept(old(self)),
    {
        self.board[index] = with;
        self.backend.update_instances(self.board.as_slice());
    }

    /// Lets the opponent mark the cell `attempt` if it is free, and says
    /// whether it was.
    pub fn place_opponent(&mut self, attempt: usize) -> (placed: bool)
        requires
            old(self).wf(),
            attempt < 9,
        ensures
            placed == (old(self).cells()[attempt as int] == Cell::Empty),
            !placed ==> *final(self) == *old(self),
            placed ==> final(self).cells() == old(self).cells().update(
                attempt as int,
                old(self).human().other().mark(),
            ),
            final(self).wf(),
            final(self).over() == old(self).over(),
            final(self).human() == old(self).human(),
            final(self).hovered() == old(self).hovered(),
            final(self).renderer().clear_color() == old(self).renderer().clear_color(),
            final(self).surface_kept(old(self)),
    {
        if self.board[attempt].is_empty() {
            self.mark_field(attempt, Cell::from(self.user_faction.opposite()));
            true
        } else {
            false
        }
    }

    /// The opponent's move: marks one free cell and says which. Cells are
    /// drawn at random until a free one comes up. Should `SAMPLE_LIMIT`
    /// draws in a row miss, one of the free cells is drawn instead, so that
    /// the move always ends and every free cell stays as likely as any
    /// other. On a full board nothing happens.
    pub fn ai_turn(&mut self) -> (chosen: Option<usize>)
        requires
            old(self).wf(),
        ensures
            final(self).wf(),
            final(self).over() == old(self).over(),
            final(self).human() == old(self).human(),
            final(self).hovered() == old(self).hovered(),
            final(self).renderer().clear_color() == old(self).renderer().clear_color(),
            final(self).surface_kept(old(self)),
            match chosen {
                Some(cell) => {
                    &&& cell < 9
                    &&& old(self).cells()[cell as int] == Cell::Empty
                    &&& final(self).cells() == old(self).cells().update(
                        cell as int,
                        old(self).human().other().mark(),
                    )
                },
                None => is_full(old(self).cells()) && *final(self) == *old(self),
            },
            chosen is Some ==> marks_free_cell(
                old(self).cells(),
                final(self).cells(),
                old(self).human().other().mark(),
            ),
            forall|cell: int|
                sole_free_cell(old(self).cells(), cell) ==> chosen == Some(cell as usize),
    {
        let free = free_cells(&self.board);
        if free.len() == 0 {
            return None;
        }
        let mut misses: u32 = 0;
        while misses < SAMPLE_LIMIT
            invariant
                *self == *old(self),
                self.wf(),
                free@.len() > 0,
                forall|k: int|
                    0 <= k < free@.len() ==> (#[trigger] free@[k]) < 9 && self.cells()[free@[k] as int]
                        == Cell::Empty,
            decreases SAMPLE_LIMIT - misses,
        {
            let attempt: usize = index_below(9);
            if self.place_opponent(attempt) {
                return Some(attempt);
            }
            misses += 1;
        }
        let cell: usize = free[index_below(free.len())];
        self.place_opponent(cell);
        Some(cell)
    }

    /// Looks whether the board ends the round. If it does, the round is
    /// over and the background changes to say so.
    pub fn check_game_over(&mut self)
        requires
            old(self).wf(),
        ensures
            final(self).wf(),
            final(self).cells() == old(self).cells(),
            final(self).human() == old(self).human(),
            final(self).hovered() == old(self).hovered(),
            final(self).over() == (old(self).over() || terminal(old(self).cells())),
            final(self).renderer().clear_color() == if terminal(old(self).cells()) {
                Color::finished()
            } else {
                old(self).renderer().clear_color()
            },
            final(self).renderer().cross() == old(self).renderer().cross(),
            final(self).renderer().ring() == old(self).renderer().ring(),
            final(self).surface_kept(old(self)),
    {
        if is_terminal(&self.board) {
            self.game_over = true;
            self.backend.set_background(Color::game_over_background());
        }
    }

    /// The human's move on the cell `index`. It counts only while the round
    /// is not over and the cell is free; otherwise nothing changes. A move
    /// that does not end the round is answered by the opponent at once.
    pub fn apply_move(&mut self, index: usize) -> (moved: bool)
        requires
            old(self).wf(),
            index < 9,
        ensures
            moved == (!old(self).over() && old(self).cells()[index as int] == Cell::Empty),
            !moved ==> *final(self) == *old(self),
            moved ==> final(self).moved_from(old(self), index as int),
            old(self).settled() ==> final(self).settled(),
    {
        if self.game_over || !self.board[index].is_empty() {
            return false;
        }
        self.mark_field(index, Cell::from(self.user_faction));
        self.check_game_over();
        if !self.game_over {
            self.ai_turn();
            self.check_game_over();
        }
        proof {
            if old(self).settled() {
                lemma_move_settles(*self, *old(self), index as int);
            }
        }
        true
    }

    /// Begins a new round with the human as `user_faction`: the board is
    /// cleared, the background is that of a round in play, and the opponent
    /// moves at once unless the human moves first.
    pub fn start_round(&mut self, user_faction: Faction)
        requires
            old(self).wf(),
        ensures
            final(self).round_begun(user_faction),
            final(self).settled(),
            final(self).hovered() == old(self).hovered(),
            final(self).surface_kept(old(self)),
    {
        self.board = cleared_board();
        self.backend.update_instances(self.board.as_slice());
        self.game_over = false;
        self.backend.set_background(Color::round_background());
        self.user_faction = user_faction;
        if !self.user_faction.goes_first() {
            let reply = self.ai_turn();
            assert(reply is Some) by {
                if reply is None {
                    assert(empty_board()[0] == Cell::Empty);
                }
            }
        }
        proof {
            lemma_begun_is_settled(*self, user_faction);
        }
    }

    /// Begins a new round with the human's faction drawn at random.
    pub fn reset(&mut self)
        requires
            old(self).wf(),
        ensures
            final(self).round_begun(final(self).human()),
            final(self).settled(),
            final(self).hovered() == old(self).hovered(),
            final(self).surface_kept(old(self)),
    {
        let user_faction = Faction::sample(coin_flip());
        self.start_round(user_faction);
    }
}

impl HandleEvent for App {
    /// The game takes an event whenever it is well-formed.
    open spec fn ready(&self) -> bool {
        self.wf()
    }

    /// A pointer that moves over the window selects the cell under it. The
    /// primary button, when it comes up, makes the human's move on the
    /// selected cell, or begins a new round if the last one is over; either
    /// way the window is asked for a redraw, unless the move did not count.
    /// Every event is then passed on to the renderer.
    fn handle(&mut self, event: Event, flow: &mut ControlFlow) -> (request: Request)
        ensures
            old(self).settled() ==> final(self).settled(),
            *final(flow) == match event {
                Event::CloseRequested => ControlFlow::Exit,
                _ => *old(flow),
            },
            match event {
                Event::CursorMoved { x, y, window } => {
                    &&& request == Request::Nothing
                    &&& final(self).hovered() == match cell_under(x as int, y as int, window) {
                        Some(cell) => cell,
                        None => old(self).hovered(),
                    }
                    &&& final(self).cells() == old(self).cells()
                    &&& final(self).over() == old(self).over()
                    &&& final(self).human() == old(self).human()
                    &&& final(self).renderer() == old(self).renderer()
                },
                Event::MouseInput { state: ElementState::Released, button: MouseButton::Left } => {
                    if old(self).over() {
                        &&& request == Request::Redraw
                        &&& final(self).round_begun(final(self).human())
                        &&& final(self).hovered() == old(self).hovered()
                        &&& final(self).surface_kept(old(self))
                    } else if old(self).cells()[old(self).hovered_index()] == Cell::Empty {
                        &&& request == Request::Redraw
                        &&& final(self).moved_from(old(self), old(self).hovered_index())
                    } else {
                        &&& request == Request::Nothing
                        &&& *final(self) == *old(self)
                    }
                },
                Event::Resized(size) | Event::ScaleFactorChanged(size) => {
                    &&& request == Request::Configure(final(self).renderer().configuration())
                    &&& final(self).renderer().size() == size
                    &&& final(self).cells() == old(self).cells()
                    &&& final(self).over() == old(self).over()
                    &&& final(self).human() == old(self).human()
                    &&& final(self).hovered() == old(self).hovered()
                    &&& final(self).renderer().clear_color() == old(self).renderer().clear_color()
                    &&& final(self).renderer().grid() == old(self).renderer().grid()
                    &&& final(self).renderer().cross() == old(self).renderer().cross()
                    &&& final(self).renderer().ring() == old(self).renderer().ring()
                },
                Event::RedrawRequested => request == Request::Draw && *final(self) == *old(self),
                _ => request == Request::Nothing && *final(self) == *old(self),
            },
    {
        let mut redraw = false;
        match event {
            Event::CursorMoved { x, y, window } => {
                if let Some(position) = grid_position(x, y, window) {
                    self.selected_field = position;
                }
            },
            Event::MouseInput { state: ElementState::Released, button: MouseButton::Left } => {
                if !self.game_over {
                    let field_index: u8 = self.selected_field.0 * 3 + self.selected_field.1;
                    redraw = self.apply_move(field_index as usize);
                } else {
                    self.reset();
                    redraw = true;
                }
            },
            _ => (),
        }
        let forwarded = self.backend.handle(event, flow);
        if redraw {
            Request::Redraw
        } else {
            forwarded
        }
    }
}

/// The renderer of a well-formed game has, replayed cell by cell, a cross on
/// show exactly where the board holds a cross and a ring exactly where it
/// holds a ring.
pub proof fn lemma_pieces_on_show(app: App)
    requires
        app.wf(),
    ensures
        replay(app.renderer().cross().active(), 9) == marked(app.cells(), Cell::Cross),
        replay(app.renderer().ring().active(), 9) == marked(app.cells(), Cell::Ring),
{
    lemma_shown_pieces(app.renderer(), app.cells());
}

/// A board with one mark at most does not end a round.
pub proof fn lemma_opening_is_open(board: Seq<Cell>, mark: Cell)
    requires
        board == empty_board() || marks_free_cell(empty_board(), board, mark),
    ensures
        !terminal(board),
{
    if board == empty_board() {
        assert(board[0] == Cell::Empty);
    } else {
        let cell: int = choose|cell: int|
            0 <= cell < 9 && empty_board()[cell] == Cell::Empty && board == #[trigger] empty_board().update(
                cell,
                mark,
            );
        assert(forall|i: int| 0 <= i < 9 && i != cell ==> board[i] == Cell::Empty);
        if cell == 0 {
            assert(board[1] == Cell::Empty);
        } else {
            assert(board[0] == Cell::Empty);
        }
    }
}

/// A round that has just begun is settled: it is not over, and the board
/// does not end it.
pub proof fn lemma_begun_is_settled(app: App, faction: Faction)
    requires
        app.round_begun(faction),
    ensures
        app.settled(),
{
    lemma_opening_is_open(app.cells(), faction.other().mark());
}

/// A move in a settled round that is not over leaves a settled round.
pub proof fn lemma_move_settles(after: App, before: App, index: int)
    requires
        before.settled(),
        !before.over(),
        after.moved_from(&before, index),
    ensures
        after.settled(),
{
}

} // verus!
