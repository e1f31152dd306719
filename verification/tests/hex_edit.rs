use udptcp::hex_edit::HexEdit;

#[test]
fn test_hex_formatting_simple_insert() {
    let current_text = "123";
    let cursor_pos = 3; // After '3'
    let (formatted_text, new_cursor) =
        HexEdit::format_hex_and_calculate_cursor(current_text, cursor_pos);
    assert_eq!(formatted_text, "12 3");
    assert_eq!(new_cursor, 4); // After "12 3|"
}

#[test]
fn test_hex_formatting_insert_with_space() {
    let current_text = "12 345"; // User types '5'
    let cursor_pos = 6; // After '5'
    let (formatted_text, new_cursor) =
        HexEdit::format_hex_and_calculate_cursor(current_text, cursor_pos);
    assert_eq!(formatted_text, "12 34 5");
    assert_eq!(new_cursor, 7); // "12 34 5|"
}

#[test]
fn test_hex_formatting_filter_non_hex() {
    let current_text = "12axby34";
    let cursor_pos = 8;
    let (formatted_text, new_cursor) =
        HexEdit::format_hex_and_calculate_cursor(current_text, cursor_pos);
    assert_eq!(formatted_text, "12 ab 34");
    assert_eq!(new_cursor, 8);
}

#[test]
fn test_cursor_at_beginning_after_delete_all() {
    let current_text = ""; // User deleted everything
    let cursor_pos = 0;
    let (formatted_text, new_cursor) =
        HexEdit::format_hex_and_calculate_cursor(current_text, cursor_pos);
    assert_eq!(formatted_text, "");
    assert_eq!(new_cursor, 0);
}

#[test]
fn test_inserting_in_middle() {
    // Initial: "12 34", cursor: "12 |34" (index 3)
    // User types 'AB': "12 AB34"
    let current_text = "12 AB34";
    let cursor_pos = 5; // "12 AB|34"
    let (formatted_text, new_cursor) =
        HexEdit::format_hex_and_calculate_cursor(current_text, cursor_pos);
    assert_eq!(formatted_text, "12 AB 34");
    assert_eq!(new_cursor, 5); // "12 AB| 34"
}

#[test]
fn grouped_text_keeps_its_cursor() {
    let (text, cursor) = HexEdit::format_hex_and_calculate_cursor("12 34", 2);
    assert_eq!(text, "12 34");
    assert_eq!(cursor, 2);
    let (text, cursor) = HexEdit::format_hex_and_calculate_cursor("12 34", 99);
    assert_eq!(text, "12 34");
    assert_eq!(cursor, 99);
}

#[test]
fn cursor_before_any_digit_goes_to_start() {
    let (text, cursor) = HexEdit::format_hex_and_calculate_cursor("zz1234", 2);
    assert_eq!(text, "12 34");
    assert_eq!(cursor, 0);
}

#[test]
fn cursor_counts_characters_not_bytes() {
    // 'é' is two bytes and one character
    let (text, cursor) = HexEdit::format_hex_and_calculate_cursor("é1é234", 3);
    assert_eq!(text, "12 34");
    assert_eq!(cursor, 1);
}

#[test]
fn new_regroups_and_get_text_strips() {
    let e = HexEdit::new("dead beef0");
    assert_eq!(e.get_text_raw(), "de ad be ef 0");
    assert_eq!(e.get_text(), "deadbeef0");
    let e = HexEdit::new("");
    assert_eq!(e.get_text_raw(), "");
    assert_eq!(e.get_text(), "");
}

#[test]
fn set_text_replaces_and_is_idempotent() {
    let mut e = HexEdit::new("1");
    e.set_text("a-b-c");
    assert_eq!(e.get_text_raw(), "ab c");
    let once = e.get_text_raw();
    e.set_text(&once);
    assert_eq!(e.get_text_raw(), once);
}

#[test]
fn apply_edit_reports_the_cursor_only_on_change() {
    let mut e = HexEdit::new("12 34");
    assert_eq!(e.apply_edit("12 34 5", 7), None);
    assert_eq!(e.get_text_raw(), "12 34 5");
    assert_eq!(e.apply_edit("12x 34 5", 3), Some(2));
    assert_eq!(e.get_text_raw(), "12 34 5");
    assert_eq!(e.apply_edit("123 4", 3), Some(4));
    assert_eq!(e.get_text_raw(), "12 34");
}
