//! The simulation as its user drives it: paused or running, edited with the
//! mouse while paused, stepped by the clock while running.
//!
//! The window, the pointer's pixel position and the zoom belong to the
//! program around the library. It turns what the window reports into the
//! buttons and grid positions taken here, and does what an [`Effect`] asks.

use crate::board::Board;
use crate::cell::{Block, Location};
use crate::grid::Grid;
use crate::BLOCK_SIZE;
use vstd::prelude::*;

verus! {

/// A mouse button, as far as the simulation tells them apart.
#[derive(Clone, Copy, Debug, PartialEq, Eq, Structural)]
pub enum MouseButton {
    Left,
    Right,
    Other,
}

/// A key, as far as the simulation tells them apart.
#[derive(Clone, Copy, Debug, PartialEq, Eq, Structural)]
pub enum Key {
    R,
    P,
    Return,
    Other,
}

/// Something that can be pressed and released.
#[derive(Clone, Copy, Debug, PartialEq, Eq, Structural)]
pub enum Button {
    Keyboard(Key),
    Mouse(MouseButton),
    Other,
}

/// What is left for the window to do once a button was released.
#[derive(Clone, Copy, Debug, PartialEq, Eq, Structural)]
pub enum Effect {
    /// Nothing.
    Nothing,
    /// The grid was cleared; the pointer goes back to the origin.
    Cleared,
    /// The title is to say whether the simulation is paused.
    Title { paused: bool },
}

/// The simulation: a grid, whether it runs, and which mouse buttons are
/// held down.
pub struct App {
    width: u32,
    height: u32,
    grid: Grid,
    started: bool,
    mouse_down: (bool, bool),
}

/// What an [`App`] holds at one moment.
pub struct AppView {
    pub width: u32,
    pub height: u32,
    pub board: Board,
    pub started: bool,
    pub left: bool,
    pub right: bool,
}

impl AppView {
    /// The state in which a simulation for a window of `width` by `height`
    /// pixels starts, and to which a reset returns its grid.
    pub open spec fn initial(width: u32, height: u32) -> AppView {
        AppView {
            width,
            height,
            board: Board::empty(
                (height as int / BLOCK_SIZE as int) as nat,
                (width as int / BLOCK_SIZE as int) as nat,
            ),
            started: false,
            left: false,
            right: false,
        }
    }

    /// The pointer edits the grid: the simulation is paused and a button
    /// that paints is held down.
    pub open spec fn painting(self) -> bool {
        !self.started && (self.left || self.right)
    }

    /// A mouse button goes down. The left and the right button exclude each
    /// other; any other button changes nothing.
    pub open spec fn mouse_press(self, button: MouseButton) -> AppView {
        match button {
            MouseButton::Left => AppView { left: true, right: false, ..self },
            MouseButton::Right => AppView { left: false, right: true, ..self },
            MouseButton::Other => self,
        }
    }

    /// A mouse button comes up.
    pub open spec fn mouse_release(self, button: MouseButton) -> AppView {
        match button {
            MouseButton::Left => AppView { left: false, ..self },
            MouseButton::Right => AppView { right: false, ..self },
            MouseButton::Other => self,
        }
    }

    /// A button goes down. Only mouse buttons count.
    pub open spec fn press(self, button: Button) -> AppView {
        match button {
            Button::Mouse(b) => self.mouse_press(b),
            _ => self,
        }
    }

    /// A key comes up. `R` clears the grid to its first size and pauses;
    /// `P` and `Return` switch between paused and running.
    pub open spec fn key_release(self, key: Key) -> AppView {
        match key {
            Key::R => AppView {
                board: AppView::initial(self.width, self.height).board,
                started: false,
                ..self
            },
            Key::P | Key::Return => AppView { started: !self.started, ..self },
            Key::Other => self,
        }
    }

    /// What the window has to do after `key` came up.
    pub open spec fn key_effect(self, key: Key) -> Effect {
        match key {
            Key::R => Effect::Cleared,
            Key::P | Key::Return => Effect::Title { paused: self.started },
            Key::Other => Effect::Nothing,
        }
    }

    /// A button comes up.
    pub open spec fn release(self, button: Button) -> AppView {
        match button {
            Button::Keyboard(key) => self.key_release(key),
            Button::Mouse(b) => self.mouse_release(b),
            Button::Other => self,
        }
    }

    /// What the window has to do after `button` came up.
    pub open spec fn release_effect(self, button: Button) -> Effect {
        match button {
            Button::Keyboard(key) => self.key_effect(key),
            _ => Effect::Nothing,
        }
    }

    /// The pointer is at `(x, y)`. While it paints, the left button brings
    /// the cell to life and the right button clears it.
    pub open spec fn mouse_paint(self, x: int, y: int) -> AppView {
        if !self.painting() {
            self
        } else if self.left {
            AppView { board: self.board.insert(x, y), ..self }
        } else {
            AppView { board: self.board.remove(x, y), ..self }
        }
    }

    /// The clock ticks: a running simulation moves on by one generation.
    pub open spec fn update(self) -> AppView {
        if self.started {
            AppView { board: self.board.step(), ..self }
        } else {
            self
        }
    }

    /// The grid makes room for `rows` by `cols` positions.
    pub open spec fn ensure_capacity(self, rows: nat, cols: nat) -> AppView {
        AppView { board: self.board.grow(rows, cols), ..self }
    }
}

impl View for App {
    type V = AppView;

    closed spec fn view(&self) -> AppView {
        AppView {
            width: self.width,
            height: self.height,
            board: self.grid@,
            started: self.started,
            left: self.mouse_down.0,
            right: self.mouse_down.1,
        }
    }
}

impl App {
    /// The grid is in order and the window's size is made of whole cells.
    pub closed spec fn wf(&self) -> bool {
        &&& self.grid.wf()
        &&& self.width as int % BLOCK_SIZE as int == 0
        &&& self.height as int % BLOCK_SIZE as int == 0
    }

    /// A paused simulation on an empty grid, for a window of `width` by
    /// `height` pixels. Both must be multiples of [`BLOCK_SIZE`].
    #[inline]
    pub fn new(width: u32, height: u32) -> (app: App)
        requires
            width as int % BLOCK_SIZE as int == 0,
            height as int % BLOCK_SIZE as int == 0,
        ensures
            app.wf(),
            app@ == AppView::initial(width, height),
    {
        App {
            width,
            height,
            grid: Grid::new(width as usize, height as usize),
            started: false,
            mouse_down: (false, false),
        }
    }

    /// The width of the window, in pixels.
    pub fn width(&self) -> (w: u32)
        ensures
            w == self@.width,
    {
        self.width
    }

    /// The height of the window, in pixels.
    pub fn height(&self) -> (h: u32)
        ensures
            h == self@.height,
    {
        self.height
    }

    /// Whether the simulation runs.
    pub fn started(&self) -> (on: bool)
        ensures
            on == self@.started,
    {
        self.started
    }

    /// The grid, to be read.
    pub fn grid(&self) -> (grid: &Grid)
        requires
            self.wf(),
        ensures
            grid.wf(),
            grid@ == self@.board,
    {
        &self.grid
    }

    /// Whether the pointer edits the grid at present.
    pub fn painting(&self) -> (on: bool)
        ensures
            on == self@.painting(),
    {
        let (left, right) = self.mouse_down;
        !self.started && (left || right)
    }

    /// Takes note that `button` went down.
    pub fn press(&mut self, button: &Button)
        requires
            old(self).wf(),
        ensures
            final(self).wf(),
            final(self)@ == old(self)@.press(*button),
    {
        match *button {
            Button::Mouse(button) => self.mouse_press(button),
            _ => {},
        }
    }

    /// Takes note that `button` came up, and says what the window has to do.
    pub fn release(&mut self, button: &Button) -> (effect: Effect)
        requires
            old(self).wf(),
        ensures
            final(self).wf(),
            final(self)@ == old(self)@.release(*button),
            effect == old(self)@.release_effect(*button),
    {
        match *button {
            Button::Keyboard(key) => self.key_release(key),
            Button::Mouse(button) => {
                self.mouse_release(button);
                Effect::Nothing
            },
            _ => Effect::Nothing,
        }
    }

    /// Acts on a key that came up: `R` clears the grid and pauses, `P` and
    /// `Return` pause or resume. The result says what the window has to do.
    pub fn key_release(&mut self, key: Key) -> (effect: Effect)
        requires
            old(self).wf(),
        ensures
            final(self).wf(),
            final(self)@ == old(self)@.key_release(key),
            effect == old(self)@.key_effect(key),
    {
        match key {
            Key::R => {
                self.grid = Grid::new(self.width as usize, self.height as usize);
                self.started = false;
                Effect::Cleared
            },
            Key::P | Key::Return => {
                if self.started {
                    self.started = false;
                    Effect::Title { paused: true }
                } else {
                    self.started = true;
                    Effect::Title { paused: false }
                }
            },
            Key::Other => Effect::Nothing,
        }
    }

    fn mouse_press(&mut self, button: MouseButton)
        requires
            old(self).wf(),
        ensures
            final(self).wf(),
            final(self)@ == old(self)@.mouse_press(button),
    {
        let (left, right) = self.mouse_down;
        self.mouse_down =
        match button {
            MouseButton::Left => (true, false),
            MouseButton::Right => (false, true),
            MouseButton::Other => (left, right),
        };
    }

    fn mouse_release(&mut self, button: MouseButton)
        requires
            old(self).wf(),
        ensures
            final(self).wf(),
            final(self)@ == old(self)@.mouse_release(button),
    {
        let (left, right) = self.mouse_down;
        self.mouse_down =
        match button {
            MouseButton::Left => (false, right),
            MouseButton::Right => (left, false),
            MouseButton::Other => (left, right),
        };
    }

    /// Edits the cell under the pointer, which is at `at`: while the
    /// simulation is paused, the left button brings it to life and the right
    /// button clears it. Otherwise nothing happens.
    pub fn mouse_paint(&mut self, at: Location)
        requires
            old(self).wf(),
        ensures
            final(self).wf(),
            final(self)@ == old(self)@.mouse_paint(at.x as int, at.y as int),
    {
        let (left, right) = self.mouse_down;
        if !self.started && (left || right) {
            let block = Block::new(at);
            if left {
                self.grid.insert(block);
            } else {
                self.grid.remove(&block);
            }
        }
    }

    #[inline]
    fn update_logic(&mut self)
        requires
            old(self).wf(),
        ensures
            final(self).wf(),
            final(self)@ == (AppView { board: old(self)@.board.step(), ..old(self)@ }),
    {
        self.grid.advance();
    }

    /// One tick of the clock: a running simulation moves on by one
    /// generation, a paused one stays as it is.
    pub fn update(&mut self)
        requires
            old(self).wf(),
        ensures
            final(self).wf(),
            final(self)@ == old(self)@.update(),
    {
        if self.started {
            self.update_logic();
        }
    }

    /// Makes room on the grid for at least `rows` by `cols` positions.
    pub fn ensure_capacity(&mut self, rows: usize, cols: usize)
        requires
            old(self).wf(),
        ensures
            final(self).wf(),
            final(self)@ == old(self)@.ensure_capacity(rows as nat, cols as nat),
    {
        self.grid.ensure_capacity(rows, cols);
    }
}

} // verus!
