use game_of_life::config::{
    is_positive, is_valid_width_or_height, window_title, DEFAULT_SPEED, DEFAULT_WINDOW_HEIGHT,
    DEFAULT_WINDOW_WIDTH, WINDOW_TITLE,
};
use game_of_life::BLOCK_SIZE;

fn size(text: &str) -> Result<(), String> {
    is_valid_width_or_height(text.to_string())
}

fn number(text: &str) -> Result<(), String> {
    is_positive(text.to_string())
}

#[test]
fn defaults() {
    assert_eq!(WINDOW_TITLE, "Conway's Game of Life");
    assert_eq!(DEFAULT_WINDOW_WIDTH, 640);
    assert_eq!(DEFAULT_WINDOW_HEIGHT, 480);
    assert_eq!(DEFAULT_SPEED, 2);
    assert_eq!(DEFAULT_WINDOW_WIDTH % BLOCK_SIZE as u32, 0);
    assert_eq!(DEFAULT_WINDOW_HEIGHT % BLOCK_SIZE as u32, 0);
}

#[test]
fn sizes_made_of_whole_cells_are_accepted() {
    assert_eq!(size("640"), Ok(()));
    assert_eq!(size("480"), Ok(()));
    assert_eq!(size("10"), Ok(()));
    assert_eq!(size("0"), Ok(()));
    assert_eq!(size("+20"), Ok(()));
    assert_eq!(size("0030"), Ok(()));
    assert_eq!(size("4294967290"), Ok(()));
}

#[test]
fn sizes_that_split_a_cell_are_refused() {
    assert!(size("645").is_err());
    assert!(size("1").is_err());
    assert!(size("9").is_err());
    assert!(size("4294967295").is_err());
}

#[test]
fn sizes_that_are_no_numbers_are_refused() {
    for text in ["", "+", "-10", "ten", "10px", " 10", "10 ", "1_0", "1.0", "++10", "4294967300"] {
        assert!(size(text).is_err(), "{:?}", text);
    }
}

#[test]
fn refused_size_is_named_in_the_complaint() {
    assert_eq!(
        size("645"),
        Err("645 is not a valid size (must be positive and divisible by 10".to_string())
    );
    assert_eq!(
        size("wide"),
        Err("wide is not a valid size (must be positive and divisible by 10".to_string())
    );
    assert_eq!(
        size(""),
        Err(" is not a valid size (must be positive and divisible by 10".to_string())
    );
}

#[test]
fn numbers_are_accepted() {
    assert_eq!(number("2"), Ok(()));
    assert_eq!(number("0"), Ok(()));
    assert_eq!(number("7"), Ok(()));
    assert_eq!(number("+3"), Ok(()));
    assert_eq!(number("4294967295"), Ok(()));
}

#[test]
fn what_is_no_number_is_refused() {
    assert_eq!(number("-1"), Err("-1 is not a valid number (must be positive)".to_string()));
    assert_eq!(
        number("fast"),
        Err("fast is not a valid number (must be positive)".to_string())
    );
    assert_eq!(number(""), Err(" is not a valid number (must be positive)".to_string()));
    assert_eq!(
        number("4294967296"),
        Err("4294967296 is not a valid number (must be positive)".to_string())
    );
    assert!(number("2.5").is_err());
    assert!(number("+").is_err());
}

#[test]
fn title_says_when_paused() {
    assert_eq!(window_title(false), "Conway's Game of Life");
    assert_eq!(window_title(true), "Conway's Game of Life (paused)");
}
