use atari2600::display::{Colour, Colours};
use atari2600::palette::PaletteError;

fn load(text: &str) -> (Result<(), PaletteError>, Colours) {
    let mut colours = Colours::new();
    let r = colours.load(&text.as_bytes().to_vec());
    (r, colours)
}

#[test]
fn palette_lines_fill_entries() {
    let (r, colours) = load("0 0 0 # black\n255 128 7\n\n1 2 3   \n");
    assert_eq!(r, Ok(()));
    assert_eq!(colours.colours[0], Colour::new(0, 0, 0));
    assert_eq!(colours.colours[1], Colour::new(255, 128, 7));
    assert_eq!(colours.colours[2], Colour::new(0, 0, 0));
    assert_eq!(colours.colours[3], Colour::new(1, 2, 3));
    assert_eq!(colours.get_colour(0x02), Colour::new(255, 128, 7));
}

#[test]
fn palette_rejects_bad_numbers() {
    assert_eq!(load("1 2 300\n").0, Err(PaletteError::Malformed(0)));
    assert_eq!(load("1 2\n").0, Err(PaletteError::Malformed(0)));
    assert_eq!(load("1 2 3\n1  2 3\n").0, Err(PaletteError::Malformed(1)));
    assert_eq!(load("# only a comment\n").0, Err(PaletteError::Malformed(0)));
    assert_eq!(load("a b c").0, Err(PaletteError::Malformed(0)));
}

#[test]
fn palette_error_keeps_table() {
    let mut colours = Colours::new();
    colours.colours[5] = Colour::new(9, 9, 9);
    assert!(colours.load(&b"1 2 x".to_vec()).is_err());
    assert_eq!(colours.colours[5], Colour::new(9, 9, 9));
}

#[test]
fn palette_too_many_lines() {
    let text = "1 1 1\n".repeat(129);
    assert_eq!(load(&text).0, Err(PaletteError::TooManyLines(128)));
    let ok = "1 1 1\n".repeat(128);
    assert_eq!(load(&ok).0, Ok(()));
}
