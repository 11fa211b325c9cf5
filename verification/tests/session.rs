use game_of_life::cell::{Block, Location};
use game_of_life::session::{App, Button, Effect, Key, MouseButton};

fn at(x: usize, y: usize) -> Location {
    Location::new(x, y)
}

fn lives(app: &App, x: usize, y: usize) -> bool {
    app.grid().contains(&Block::new(at(x, y)))
}

fn population(app: &App) -> usize {
    app.grid().live_blocks().len()
}

fn left() -> Button {
    Button::Mouse(MouseButton::Left)
}

fn right() -> Button {
    Button::Mouse(MouseButton::Right)
}

#[test]
fn new_app_is_paused_and_empty() {
    let app = App::new(640, 480);
    assert_eq!(app.width(), 640);
    assert_eq!(app.height(), 480);
    assert!(!app.started());
    assert!(!app.painting());
    assert_eq!(app.grid().cols(), 64);
    assert_eq!(app.grid().rows(), 48);
    assert_eq!(population(&app), 0);
}

#[test]
fn left_button_paints() {
    let mut app = App::new(100, 100);
    app.mouse_paint(at(1, 1));
    assert_eq!(population(&app), 0);
    app.press(&left());
    assert!(app.painting());
    app.mouse_paint(at(2, 3));
    app.mouse_paint(at(4, 4));
    assert!(lives(&app, 2, 3));
    assert!(lives(&app, 4, 4));
    assert_eq!(population(&app), 2);
}

#[test]
fn right_button_erases() {
    let mut app = App::new(100, 100);
    app.press(&left());
    app.mouse_paint(at(2, 3));
    app.mouse_paint(at(4, 4));
    app.press(&right());
    assert!(app.painting());
    app.mouse_paint(at(2, 3));
    assert!(!lives(&app, 2, 3));
    assert!(lives(&app, 4, 4));
    app.mouse_paint(at(7, 7));
    assert_eq!(population(&app), 1);
}

#[test]
fn left_and_right_exclude_each_other() {
    let mut app = App::new(100, 100);
    app.press(&right());
    app.press(&left());
    app.mouse_paint(at(1, 1));
    assert!(lives(&app, 1, 1));
    assert_eq!(app.release(&right()), Effect::Nothing);
    assert!(app.painting());
    app.mouse_paint(at(2, 2));
    assert!(lives(&app, 2, 2));
}

#[test]
fn released_button_stops_painting() {
    let mut app = App::new(100, 100);
    app.press(&left());
    assert_eq!(app.release(&left()), Effect::Nothing);
    assert!(!app.painting());
    app.mouse_paint(at(1, 1));
    assert_eq!(population(&app), 0);
}

#[test]
fn other_buttons_change_nothing() {
    let mut app = App::new(100, 100);
    app.press(&Button::Mouse(MouseButton::Other));
    assert!(!app.painting());
    app.press(&Button::Other);
    app.press(&Button::Keyboard(Key::P));
    assert!(!app.painting());
    assert!(!app.started());
    app.press(&left());
    app.press(&Button::Mouse(MouseButton::Other));
    assert!(app.painting());
    assert_eq!(app.release(&Button::Mouse(MouseButton::Other)), Effect::Nothing);
    assert_eq!(app.release(&Button::Other), Effect::Nothing);
    assert!(app.painting());
}

#[test]
fn painting_off_the_grid_is_ignored() {
    let mut app = App::new(100, 100);
    app.press(&left());
    app.mouse_paint(at(10, 0));
    app.mouse_paint(at(0, 10));
    app.mouse_paint(at(usize::MAX, usize::MAX));
    assert_eq!(population(&app), 0);
    app.press(&right());
    app.mouse_paint(at(10, 10));
    assert_eq!(population(&app), 0);
}

#[test]
fn p_and_return_toggle_running() {
    let mut app = App::new(100, 100);
    assert_eq!(app.key_release(Key::P), Effect::Title { paused: false });
    assert!(app.started());
    assert_eq!(app.key_release(Key::Return), Effect::Title { paused: true });
    assert!(!app.started());
    assert_eq!(app.release(&Button::Keyboard(Key::Return)), Effect::Title { paused: false });
    assert!(app.started());
    assert_eq!(app.release(&Button::Keyboard(Key::P)), Effect::Title { paused: true });
    assert!(!app.started());
}

#[test]
fn other_keys_change_nothing() {
    let mut app = App::new(100, 100);
    assert_eq!(app.key_release(Key::Other), Effect::Nothing);
    assert!(!app.started());
    app.key_release(Key::P);
    assert_eq!(app.release(&Button::Keyboard(Key::Other)), Effect::Nothing);
    assert!(app.started());
}

#[test]
fn running_ignores_the_pointer() {
    let mut app = App::new(100, 100);
    app.press(&left());
    app.mouse_paint(at(5, 5));
    app.key_release(Key::P);
    assert!(!app.painting());
    app.mouse_paint(at(1, 1));
    assert!(!lives(&app, 1, 1));
    app.press(&right());
    app.mouse_paint(at(5, 5));
    assert!(lives(&app, 5, 5));
}

#[test]
fn update_advances_only_while_running() {
    let mut app = App::new(100, 100);
    app.press(&left());
    for x in 1..4 {
        app.mouse_paint(at(x, 2));
    }
    app.update();
    assert!(lives(&app, 1, 2));
    assert!(lives(&app, 3, 2));
    assert!(!lives(&app, 2, 1));
    app.key_release(Key::P);
    app.update();
    assert!(lives(&app, 2, 1));
    assert!(lives(&app, 2, 2));
    assert!(lives(&app, 2, 3));
    assert_eq!(population(&app), 3);
    app.update();
    assert!(lives(&app, 1, 2));
    assert!(lives(&app, 3, 2));
    app.key_release(Key::P);
    app.update();
    assert!(lives(&app, 1, 2));
    assert_eq!(population(&app), 3);
}

#[test]
fn r_clears_the_grid_and_pauses() {
    let mut app = App::new(100, 50);
    app.press(&left());
    app.mouse_paint(at(1, 1));
    app.mouse_paint(at(2, 1));
    app.ensure_capacity(9, 20);
    app.key_release(Key::P);
    assert_eq!(app.key_release(Key::R), Effect::Cleared);
    assert!(!app.started());
    assert_eq!(population(&app), 0);
    assert_eq!(app.grid().rows(), 5);
    assert_eq!(app.grid().cols(), 10);
    assert_eq!(app.width(), 100);
    assert_eq!(app.height(), 50);
    // The held button is still held.
    assert!(app.painting());
    app.mouse_paint(at(3, 3));
    assert!(lives(&app, 3, 3));
}

#[test]
fn r_while_paused_clears_too() {
    let mut app = App::new(100, 100);
    app.press(&left());
    app.mouse_paint(at(1, 1));
    assert_eq!(app.release(&Button::Keyboard(Key::R)), Effect::Cleared);
    assert!(!app.started());
    assert_eq!(population(&app), 0);
}

#[test]
fn growth_through_the_app_keeps_cells() {
    let mut app = App::new(30, 30);
    app.press(&left());
    app.mouse_paint(at(2, 2));
    app.ensure_capacity(6, 5);
    assert_eq!(app.grid().rows(), 6);
    assert_eq!(app.grid().cols(), 5);
    assert!(lives(&app, 2, 2));
    app.mouse_paint(at(4, 5));
    assert!(lives(&app, 4, 5));
    assert_eq!(population(&app), 2);
    app.ensure_capacity(1, 1);
    assert_eq!(app.grid().rows(), 6);
    assert_eq!(app.grid().cols(), 5);
}
