use wcount::output::write_output;
use wcount::output::DisplaySelection;

#[test]
fn no_flags_shows_all_three() {
    let sel = DisplaySelection::from_flags(false, false, false);
    assert!(sel.lines && sel.words && sel.bytes);
}

#[test]
fn only_words_flag_shows_only_words() {
    let sel = DisplaySelection::from_flags(false, false, true);
    assert!(!sel.lines && sel.words && !sel.bytes);
}

#[test]
fn only_bytes_flag_shows_only_bytes() {
    let sel = DisplaySelection::from_flags(true, false, false);
    assert!(!sel.lines && !sel.words && sel.bytes);
}

#[test]
fn only_lines_flag_shows_only_lines() {
    let sel = DisplaySelection::from_flags(false, true, false);
    assert!(sel.lines && !sel.words && !sel.bytes);
}

#[test]
fn two_flags_show_exactly_those_two() {
    let sel = DisplaySelection::from_flags(true, true, false);
    assert!(sel.lines && !sel.words && sel.bytes);
}

#[test]
fn row_with_all_counts() {
    let sel = DisplaySelection::from_flags(false, false, false);
    let row = write_output(1, 2, 12, &b"a.txt".to_vec(), &sel);
    assert_eq!(row, b"       1       2      12 a.txt\n".to_vec());
}

#[test]
fn row_with_words_only() {
    let sel = DisplaySelection::from_flags(false, false, true);
    let row = write_output(1, 2, 12, &b"a.txt".to_vec(), &sel);
    assert_eq!(row, b"       2 a.txt\n".to_vec());
}

#[test]
fn row_with_nothing_selected_is_space_and_name() {
    let sel = DisplaySelection { lines: false, words: false, bytes: false };
    let row = write_output(1, 2, 12, &b"a.txt".to_vec(), &sel);
    assert_eq!(row, b" a.txt\n".to_vec());
}

#[test]
fn zero_is_right_aligned_in_its_field() {
    let sel = DisplaySelection::from_flags(true, false, false);
    let row = write_output(0, 0, 0, &b"empty".to_vec(), &sel);
    assert_eq!(row, b"       0 empty\n".to_vec());
}

#[test]
fn wide_number_grows_past_the_field() {
    let sel = DisplaySelection::from_flags(false, true, false);
    let row = write_output(123456789, 0, 0, &b"x".to_vec(), &sel);
    assert_eq!(row, b"123456789 x\n".to_vec());
}

#[test]
fn eight_digits_fill_the_field_exactly() {
    let sel = DisplaySelection::from_flags(false, true, false);
    let row = write_output(12345678, 0, 0, &b"x".to_vec(), &sel);
    assert_eq!(row, b"12345678 x\n".to_vec());
}
