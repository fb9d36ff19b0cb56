//! The host side of the renderer: which instances of which shape a frame
//! shows, on what background, and what to do when the surface changes or
//! fails.

use crate::board::Cell;
use crate::event::{
    ControlFlow, Event, HandleEvent, PhysicalSize, PresentMode, Request, SurfaceConfiguration,
};
use crate::mesh::{cross_index_list, grid_index_list, CIRCLE_VERTEX_COUNT};
use crate::shape::{lemma_replay_of_runs, lists_runs, replay, DrawCall, Shape};
use vstd::prelude::*;

verus! {

/// A colour with its parts in thousandths: 1000 is full intensity.
#[derive(Debug, Copy, Clone, PartialEq, Eq, Structural)]
pub struct Color {
    pub r: u16,
    pub g: u16,
    pub b: u16,
    pub a: u16,
}

impl Color {
    /// The background while a round is played.
    pub open spec fn playing() -> Color {
        Color { r: 40, g: 90, b: 90, a: 1000 }
    }

    /// The background once a round is over.
    pub open spec fn finished() -> Color {
        Color { r: 300, g: 350, b: 350, a: 1000 }
    }

    /// The background while a round is played: a dark green.
    pub fn round_background() -> (color: Color)
        ensures
            color == Color::playing(),
    {
        Color { r: 40, g: 90, b: 90, a: 1000 }
    }

    /// The background once a round is over: a lighter grey.
    pub fn game_over_background() -> (color: Color)
        ensures
            color == Color::finished(),
    {
        Color { r: 300, g: 350, b: 350, a: 1000 }
    }
}

/// Why no surface image could be acquired.
#[derive(Debug, Copy, Clone, PartialEq, Eq, Structural)]
pub enum SurfaceError {
    /// Acquiring the image took too long.
    Timeout,
    /// The surface has changed since it was configured.
    Outdated,
    /// The surface has been lost.
    Lost,
    /// No memory is left for a new image.
    OutOfMemory,
}

/// Why no frame was drawn.
#[derive(Debug, Copy, Clone, PartialEq, Eq, Structural)]
pub enum BackendDrawError {
    /// The surface is outdated or lost and has to be configured anew.
    SurfaceOutdated,
    /// Any other failure to acquire the surface image.
    SurfaceTextureError(SurfaceError),
}

impl BackendDrawError {
    /// The draw error that a failure to acquire the surface image stands
    /// for: a surface that is outdated or lost can be recovered, anything
    /// else is passed on.
    pub open spec fn of(source: SurfaceError) -> BackendDrawError {
        match source {
            SurfaceError::Outdated | SurfaceError::Lost => BackendDrawError::SurfaceOutdated,
            e => BackendDrawError::SurfaceTextureError(e),
        }
    }
}

impl vstd::std_specs::convert::FromSpecImpl<SurfaceError> for BackendDrawError {
    open spec fn obeys_from_spec() -> bool {
        true
    }

    open spec fn from_spec(source: SurfaceError) -> BackendDrawError {
        BackendDrawError::of(source)
    }
}

impl From<SurfaceError> for BackendDrawError {
    fn from(source: SurfaceError) -> (error: BackendDrawError) {
        match source {
            SurfaceError::Outdated | SurfaceError::Lost => BackendDrawError::SurfaceOutdated,
            e => BackendDrawError::SurfaceTextureError(e),
        }
    }
}

/// The three shapes of a frame.
#[derive(Debug, Copy, Clone, PartialEq, Eq, Structural)]
pub enum ShapeKind {
    Grid,
    Cross,
    Ring,
}

/// The draw calls of one shape.
#[derive(Debug)]
pub struct ShapeDraw {
    pub shape: ShapeKind,
    pub calls: Vec<DrawCall>,
}

/// One frame: the colour that the surface is cleared to, then the shapes in
/// the order in which they are drawn.
#[derive(Debug)]
pub struct Frame {
    pub clear: Color,
    pub shapes: Vec<ShapeDraw>,
}

/// Which cells of `board` carry `mark`, one flag per cell.
pub open spec fn marked(board: Seq<Cell>, mark: Cell) -> Seq<bool> {
    Seq::new(board.len(), |i: int| board[i] == mark)
}

/// Which cells of `board` carry `mark`, one flag per cell.
pub fn marked_cells(board: &[Cell], mark: Cell) -> (flags: Vec<bool>)
    ensures
        flags@ == marked(board@, mark),
{
    let mut flags: Vec<bool> = Vec::new();
    let mut i: usize = 0;
    while i < board.len()
        invariant
            i <= board@.len(),
            flags@.len() == i,
            forall|j: int| 0 <= j < i ==> flags@[j] == (board@[j] == mark),
        decreases board@.len() - i,
    {
        flags.push(board[i] == mark);
        i += 1;
    }
    assert(flags@ =~= marked(board@, mark));
    flags
}

/// The host side of the renderer.
#[derive(Debug)]
pub struct Backend {
    grid: Shape,
    cross: Shape,
    ring: Shape,
    window_size: PhysicalSize,
    background: Color,
}

impl Backend {
    /// The lines of the board.
    pub closed spec fn grid(&self) -> Shape {
        self.grid
    }

    /// The cross pieces.
    pub closed spec fn cross(&self) -> Shape {
        self.cross
    }

    /// The ring pieces.
    pub closed spec fn ring(&self) -> Shape {
        self.ring
    }

    /// The size that the surface is configured to.
    pub closed spec fn size(&self) -> PhysicalSize {
        self.window_size
    }

    /// The colour that a frame is cleared to.
    pub closed spec fn clear_color(&self) -> Color {
        self.background
    }

    /// The pieces on show are those of `board`: the visible crosses are the
    /// cells marked with a cross, the visible rings those marked with a ring.
    pub open spec fn shows(&self, board: Seq<Cell>) -> bool {
        &&& lists_runs(self.cross().active(), marked(board, Cell::Cross))
        &&& lists_runs(self.ring().active(), marked(board, Cell::Ring))
    }

    /// The renderer is set up: the one instance of the grid is on show, and
    /// each shape has as many indices as its mesh.
    pub open spec fn assembled(&self) -> bool {
        &&& self.grid().active().len() == 1
        &&& self.grid().active()[0] == (0u32..1u32)
        &&& self.grid().indices() == grid_index_list().len()
        &&& self.cross().indices() == cross_index_list().len()
        &&& self.ring().indices() == 6 * CIRCLE_VERTEX_COUNT
    }

    /// The configuration of the surface: the size of the window, and frames
    /// presented first in, first out.
    pub open spec fn configuration(&self) -> SurfaceConfiguration {
        SurfaceConfiguration {
            width: self.size().width,
            height: self.size().height,
            present_mode: PresentMode::Fifo,
        }
    }

    /// The frame that shows the present state: cleared to the background,
    /// then the grid, then the crosses, then the rings.
    pub open spec fn frame_matches(&self, frame: Frame) -> bool {
        &&& frame.clear == self.clear_color()
        &&& frame.shapes@.len() == 3
        &&& frame.shapes@[0].shape == ShapeKind::Grid
        &&& frame.shapes@[0].calls@ == self.grid().draws()
        &&& frame.shapes@[1].shape == ShapeKind::Cross
        &&& frame.shapes@[1].calls@ == self.cross().draws()
        &&& frame.shapes@[2].shape == ShapeKind::Ring
        &&& frame.shapes@[2].calls@ == self.ring().draws()
    }

    /// The backend of a window of the size `window_size`. The grid is on
    /// show, no piece is, and the background is that of a round in play.
    pub fn new(window_size: PhysicalSize) -> (backend: Backend)
        ensures
            backend.size() == window_size,
            backend.clear_color() == Color::playing(),
            backend.assembled(),
            backend.cross().active().len() == 0,
            backend.ring().active().len() == 0,
    {
        let mut grid = Shape::grid();
        let always: Vec<bool> = vec![true];
        grid.update_instances(always.as_slice());
        let cross = Shape::cross();
        let ring = Shape::ring();
        Backend { grid, cross, ring, window_size, background: Color::round_background() }
    }

    /// The size that the surface is configured to.
    pub fn window_size(&self) -> (size: PhysicalSize)
        ensures
            size == self.size(),
    {
        self.window_size
    }

    /// The colour that a frame is cleared to.
    pub fn background(&self) -> (color: Color)
        ensures
            color == self.clear_color(),
    {
        self.background
    }

    /// The grid lines.
    pub fn grid_shape(&self) -> (shape: &Shape)
        ensures
            *shape == self.grid(),
    {
        &self.grid
    }

    /// The cross pieces.
    pub fn cross_shape(&self) -> (shape: &Shape)
        ensures
            *shape == self.cross(),
    {
        &self.cross
    }

    /// The ring pieces.
    pub fn ring_shape(&self) -> (shape: &Shape)
        ensures
            *shape == self.ring(),
    {
        &self.ring
    }

    /// Updates which pieces are visible on the screen: from now on those of
    /// `board`.
    pub fn update_instances(&mut self, board: &[Cell])
        requires
            board@.len() <= u32::MAX,
        ensures
            final(self).shows(board@),
            final(self).cross().indices() == old(self).cross().indices(),
            final(self).ring().indices() == old(self).ring().indices(),
            final(self).grid() == old(self).grid(),
            final(self).size() == old(self).size(),
            final(self).clear_color() == old(self).clear_color(),
    {
        let rings = marked_cells(board, Cell::Ring);
        self.ring.update_instances(rings.as_slice());
        let crosses = marked_cells(board, Cell::Cross);
        self.cross.update_instances(crosses.as_slice());
    }

    /// Sets a new background colour, overwriting the previous one.
    pub fn set_background(&mut self, color: Color)
        ensures
            final(self).clear_color() == color,
            final(self).grid() == old(self).grid(),
            final(self).cross() == old(self).cross(),
            final(self).ring() == old(self).ring(),
            final(self).size() == old(self).size(),
    {
        self.background = color;
    }

    /// The configuration that the surface needs now.
    pub fn reconfigure_surface(&self) -> (configuration: SurfaceConfiguration)
        ensures
            configuration == self.configuration(),
    {
        SurfaceConfiguration {
            width: self.window_size.width,
            height: self.window_size.height,
            present_mode: PresentMode::Fifo,
        }
    }

    /// What a frame holds, given how acquiring the surface image went. With
    /// an image at hand it is the frame that shows the present state. Without
    /// one there is no frame, and the error says whether the surface can be
    /// recovered.
    pub fn draw(&self, acquired: Result<(), SurfaceError>) -> (frame: Result<
        Frame,
        BackendDrawError,
    >)
        ensures
            match acquired {
                Ok(_) => frame is Ok && self.frame_matches(frame->Ok_0),
                Err(source) => frame == Err::<Frame, BackendDrawError>(
                    BackendDrawError::of(source),
                ),
            },
    {
        match acquired {
            Ok(_) => {
                let mut shapes: Vec<ShapeDraw> = Vec::new();
                shapes.push(ShapeDraw { shape: ShapeKind::Grid, calls: self.grid.draw() });
                shapes.push(ShapeDraw { shape: ShapeKind::Cross, calls: self.cross.draw() });
                shapes.push(ShapeDraw { shape: ShapeKind::Ring, calls: self.ring.draw() });
                Ok(Frame { clear: self.background, shapes })
            },
            Err(source) => Err(BackendDrawError::from(source)),
        }
    }

    /// What follows an attempt to draw. After a frame nothing is left to do.
    /// A surface that is outdated or lost is configured anew, and the next
    /// redraw tries again. Any other failure ends the event loop.
    pub fn drawn(&self, outcome: Result<(), BackendDrawError>, flow: &mut ControlFlow) -> (request:
        Request)
        ensures
            match outcome {
                Ok(_) => request == Request::Nothing && *final(flow) == *old(flow),
                Err(BackendDrawError::SurfaceOutdated) => request == Request::Configure(
                    self.configuration(),
                ) && *final(flow) == *old(flow),
                Err(BackendDrawError::SurfaceTextureError(_)) => request == Request::Nothing
                    && *final(flow) == ControlFlow::Exit,
            },
    {
        match outcome {
            Err(BackendDrawError::SurfaceOutdated) => Request::Configure(self.reconfigure_surface()),
            Err(_) => {
                *flow = ControlFlow::Exit;
                Request::Nothing
            },
            _ => Request::Nothing,
        }
    }
}

/// A renderer that shows a board has, replayed slot by slot, a cross on show
/// exactly where the board holds a cross, and a ring exactly where it holds a
/// ring.
pub proof fn lemma_shown_pieces(backend: Backend, board: Seq<Cell>)
    requires
        backend.shows(board),
    ensures
        replay(backend.cross().active(), board.len()) == marked(board, Cell::Cross),
        replay(backend.ring().active(), board.len()) == marked(board, Cell::Ring),
{
    lemma_replay_of_runs(backend.cross().active(), marked(board, Cell::Cross));
    lemma_replay_of_runs(backend.ring().active(), marked(board, Cell::Ring));
}

impl HandleEvent for Backend {
    /// The renderer takes an event in every state.
    open spec fn ready(&self) -> bool {
        true
    }

    /// Closing the window ends the event loop. A new size is taken over and
    /// the surface configured to it. A wish for a redraw is answered by a
    /// draw. Everything else is ignored.
    fn handle(&mut self, event: Event, flow: &mut ControlFlow) -> (request: Request)
        ensures
            final(self).grid() == old(self).grid(),
            final(self).cross() == old(self).cross(),
            final(self).ring() == old(self).ring(),
            final(self).clear_color() == old(self).clear_color(),
            final(self).size() == match event {
                Event::Resized(size) | Event::ScaleFactorChanged(size) => size,
                _ => old(self).size(),
            },
            !(event is Resized || event is ScaleFactorChanged) ==> *final(self) == *old(self),
            *final(flow) == match event {
                Event::CloseRequested => ControlFlow::Exit,
                _ => *old(flow),
            },
            request == match event {
                Event::Resized(_) | Event::ScaleFactorChanged(_) => Request::Configure(
                    final(self).configuration(),
                ),
                Event::RedrawRequested => Request::Draw,
                _ => Request::Nothing,
            },
    {
        match event {
            Event::CloseRequested => {
                *flow = ControlFlow::Exit;
                Request::Nothing
            },
            Event::Resized(new_inner_size) => {
                self.window_size = new_inner_size;
                Request::Configure(self.reconfigure_surface())
            },
            Event::ScaleFactorChanged(new_inner_size) => {
                self.window_size = new_inner_size;
                Request::Configure(self.reconfigure_surface())
            },
            Event::RedrawRequested => Request::Draw,
            _ => Request::Nothing,
        }
    }
}

} // verus!
