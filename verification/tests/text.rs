use std::sync::Arc;

use fresh_editor::buffer_text::{
    buffer_line_byte_offset, clamp_buffer_text_range, count_lines, get_line_number, text_range,
};
use fresh_editor::documents::{BufferContent, SavedDiff};
use fresh_editor::terminal_grid::terminal_grid_cell_end_in_buffer;
use fresh_editor::text::{decimal, decimal_after};
use fresh_editor::text_map::TextMap;
use fresh_editor::variant_name::VariantNameSink;

#[test]
fn clamp_text_range_passes_through_in_bounds() {
    assert_eq!(clamp_buffer_text_range(0, 165, 165), (0, 165));
    assert_eq!(clamp_buffer_text_range(10, 50, 165), (10, 50));
}

#[test]
fn clamp_text_range_clamps_stale_end_past_buffer() {
    assert_eq!(clamp_buffer_text_range(0, 165_003, 165_002), (0, 165_002));
}

#[test]
fn clamp_text_range_pins_overlarge_start_to_empty() {
    // start beyond the live length must not yield start > end.
    assert_eq!(clamp_buffer_text_range(200, 250, 165), (165, 165));
}

fn content(text: &str, grapheme_starts: Vec<u64>) -> BufferContent {
    BufferContent {
        bytes: text.as_bytes().to_vec(),
        grapheme_starts,
        path: None,
        modified: false,
        line_count: None,
        language: String::new(),
        primary_cursor_line: 0,
        saved_diff: Arc::new(SavedDiff {
            equal: true,
            byte_ranges: Vec::new(),
        }),
        text_properties: Arc::new(Vec::new()),
    }
}

#[test]
fn blank_terminal_cells_do_not_select_the_stored_newline() {
    let buffer = content("e\u{301}\nnext", vec![0, 3, 4, 5, 6, 7]);
    assert_eq!(terminal_grid_cell_end_in_buffer(&buffer, 0), 3);
    assert_eq!(terminal_grid_cell_end_in_buffer(&buffer, 3), 3);
}

#[test]
fn cells_end_at_the_next_character() {
    let buffer = content("ab\n", vec![0, 1, 2]);
    assert_eq!(terminal_grid_cell_end_in_buffer(&buffer, 0), 1);
    assert_eq!(terminal_grid_cell_end_in_buffer(&buffer, 1), 2);
    assert_eq!(terminal_grid_cell_end_in_buffer(&buffer, 2), 2);
    assert_eq!(terminal_grid_cell_end_in_buffer(&buffer, 99), 3);
}

#[test]
fn lines_start_and_end_at_their_newlines() {
    let text = b"one\ntwo\n\nfour".to_vec();
    let len = text.len();
    assert_eq!(buffer_line_byte_offset(&text, len, 0, false), Some(0));
    assert_eq!(buffer_line_byte_offset(&text, len, 0, true), Some(3));
    assert_eq!(buffer_line_byte_offset(&text, len, 1, false), Some(4));
    assert_eq!(buffer_line_byte_offset(&text, len, 1, true), Some(7));
    assert_eq!(buffer_line_byte_offset(&text, len, 2, false), Some(8));
    assert_eq!(buffer_line_byte_offset(&text, len, 2, true), Some(8));
    assert_eq!(buffer_line_byte_offset(&text, len, 3, false), Some(9));
    assert_eq!(buffer_line_byte_offset(&text, len, 3, true), Some(13));
    assert_eq!(buffer_line_byte_offset(&text, len, 4, false), None);
    assert_eq!(buffer_line_byte_offset(&text, len, 4, true), None);
    let empty = Vec::new();
    assert_eq!(buffer_line_byte_offset(&empty, 0, 0, false), Some(0));
    assert_eq!(buffer_line_byte_offset(&empty, 0, 0, true), Some(0));
    assert_eq!(buffer_line_byte_offset(&empty, 0, 1, false), None);
}

#[test]
fn a_final_newline_begins_no_line() {
    assert_eq!(count_lines(&Vec::new()), 1);
    assert_eq!(count_lines(&b"a".to_vec()), 1);
    assert_eq!(count_lines(&b"a\n".to_vec()), 1);
    assert_eq!(count_lines(&b"a\nb".to_vec()), 2);
    assert_eq!(count_lines(&b"\n\n".to_vec()), 2);
}

#[test]
fn offsets_belong_to_lines() {
    let text = b"a\nbc\nd".to_vec();
    assert_eq!(get_line_number(&text, 0), 0);
    assert_eq!(get_line_number(&text, 1), 0);
    assert_eq!(get_line_number(&text, 2), 1);
    assert_eq!(get_line_number(&text, 5), 2);
    assert_eq!(get_line_number(&text, 99), 2);
}

#[test]
fn ranges_are_cut_to_the_text() {
    let text = b"hello".to_vec();
    assert_eq!(text_range(&text, 1, 3), b"el".to_vec());
    assert_eq!(text_range(&text, 3, 99), b"lo".to_vec());
    assert_eq!(text_range(&text, 9, 99), Vec::<u8>::new());
    assert_eq!(text_range(&text, 3, 1), Vec::<u8>::new());
}

#[test]
fn numbers_are_written_in_decimal() {
    assert_eq!(decimal(0), "0");
    assert_eq!(decimal(907), "907");
    assert_eq!(decimal(u64::MAX), "18446744073709551615");
    assert_eq!(decimal_after(1), "2");
    assert_eq!(decimal_after(u64::MAX), "18446744073709551616");
}

#[test]
fn texts_are_found_again() {
    let mut map: TextMap<u64> = TextMap::new();
    assert!(map.get("a").is_none());
    map.insert("a".to_string(), 1);
    map.insert("b".to_string(), 2);
    map.insert("a".to_string(), 3);
    assert_eq!(map.get("a"), Some(&3));
    assert!(map.contains_key("b"));
    assert_eq!(map.remove("a"), Some(3));
    assert_eq!(map.remove("a"), None);
    assert_eq!(map.get("b"), Some(&2));
}

#[test]
fn only_the_name_of_a_command_is_taken_up() {
    let mut sink = VariantNameSink::new();
    assert_eq!(sink.as_str(), "PluginCommand");
    assert!(sink.write_str("Set"));
    assert!(!sink.write_str("Status { message: \"x\" }"));
    assert_eq!(sink.as_str(), "SetStatus");
    let mut long = VariantNameSink::new();
    assert!(!long.write_str("abcdefghijklmnopqrstuvwxyz_ABCDEFGHIJKLMNOPQRSTUVWXYZ"));
    assert_eq!(
        long.as_str(),
        "abcdefghijklmnopqrstuvwxyz_ABCDEFGHIJKLMNOPQRSTU"
    );
    let mut other = VariantNameSink::new();
    assert!(!other.write_str("\u{e9}"));
    assert_eq!(other.as_str(), "PluginCommand");
}
