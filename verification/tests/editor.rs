use basalt::note_editor::markdown_parser::{accept, copy_nodes, from_str, range_fits, Node, NodeKind};
use basalt::note_editor::state::{fold_block, EditorState, Mode, SaveRequest};
use basalt::note_editor::text_buffer::{CursorMove, TextBuffer};
use ratatui::widgets::ScrollbarState;
use tui_textarea::{Input, Key};

fn press(key: Key) -> Input {
    Input { key, ctrl: false, alt: false, shift: false }
}

fn type_text(editor: &mut EditorState, text: &str) {
    for c in text.chars() {
        editor.edit(press(Key::Char(c)));
    }
}

fn node(kind: NodeKind, start: usize, end: usize) -> Node {
    Node::new(kind, start..end)
}

fn lines_of(editor: &EditorState) -> Vec<String> {
    editor.text_buffer().lines()
}

#[test]
fn from_str_gives_heading_and_paragraph() {
    assert_eq!(
        from_str("# A\n\nbody"),
        vec![node(NodeKind::Heading(1), 0, 4), node(NodeKind::Paragraph, 5, 9)]
    );
}

#[test]
fn from_str_gives_every_kind_of_block() {
    let nodes = from_str("## B\n\ntext\n\n- one\n- two\n\n> quote\n\n```\ncode\n```\n");
    let kinds: Vec<NodeKind> = nodes.iter().map(|n| n.kind).collect();
    assert_eq!(
        kinds,
        vec![
            NodeKind::Heading(2),
            NodeKind::Paragraph,
            NodeKind::Item,
            NodeKind::Item,
            NodeKind::BlockQuote,
            NodeKind::CodeBlock
        ]
    );
}

#[test]
fn from_str_of_nothing_gives_no_block() {
    assert_eq!(from_str(""), Vec::<Node>::new());
    assert_eq!(from_str("\n\n  \n"), Vec::<Node>::new());
}

#[test]
fn blocks_lie_inside_the_text_and_do_not_overlap() {
    let text = "# Títle\n\npárrafo uno\nsigue\n\n## Dos\n\n- ítem\n- otro\n\n> cita\n\nfin";
    let nodes = from_str(text);
    assert!(nodes.len() >= 6);
    let mut floor = 0;
    for n in &nodes {
        assert!(floor <= n.source_range.start);
        assert!(n.source_range.start <= n.source_range.end);
        assert!(n.source_range.end <= text.len());
        assert!(text.is_char_boundary(n.source_range.start));
        assert!(text.is_char_boundary(n.source_range.end));
        assert!(range_fits(text, &n.source_range));
        floor = n.source_range.end;
    }
}

#[test]
fn accept_keeps_what_fits_and_follows() {
    let raw = vec![
        node(NodeKind::Paragraph, 0, 2),
        node(NodeKind::Paragraph, 1, 3),
        node(NodeKind::Paragraph, 5, 9),
        node(NodeKind::Item, 2, 3),
        node(NodeKind::Item, 3, 2),
    ];
    assert_eq!(
        accept("abc", raw),
        vec![node(NodeKind::Paragraph, 0, 2), node(NodeKind::Item, 2, 3)]
    );
}

#[test]
fn accept_drops_a_block_that_cuts_a_character() {
    assert_eq!(accept("añb", vec![node(NodeKind::Paragraph, 1, 2)]), Vec::<Node>::new());
    assert_eq!(accept("añb", vec![node(NodeKind::Paragraph, 3, 4)]), Vec::<Node>::new());
    assert_eq!(
        accept("añb", vec![node(NodeKind::Paragraph, 1, 3)]),
        vec![node(NodeKind::Paragraph, 1, 3)]
    );
}

#[test]
fn range_fits_asks_for_boundaries() {
    assert!(range_fits("# A\n\nbody", &(5..9)));
    assert!(range_fits("# A\n\nbody", &(0..0)));
    assert!(!range_fits("# A\n\nbody", &(5..10)));
    assert!(!range_fits("añb", &(0..2)));
}

#[test]
fn copy_nodes_copies() {
    let nodes = from_str("# A\n\nbody");
    assert_eq!(copy_nodes(&nodes), nodes);
}

#[test]
fn fold_block_joins_with_line_feeds() {
    assert_eq!(fold_block("# A\n\nbody", &(5..9), "newbody"), "# A\n\nnewbody\n");
    assert_eq!(fold_block("# A\n\nbody\n\nmore", &(5..10), "body"), "# A\n\nbody\n\nmore");
    assert_eq!(fold_block("# A\n\nbody", &(0..4), "# B"), "\n# B\n\nbody");
    assert_eq!(fold_block("abc", &(1..2), "X"), "\nX\nc");
    assert_eq!(fold_block("", &(0..0), ""), "\n\n");
}

#[test]
fn new_editor_holds_the_text_and_its_blocks() {
    let editor = EditorState::new("# A\n\nbody", String::from("/vault/a.md"));
    assert_eq!(editor.content(), "# A\n\nbody");
    assert_eq!(editor.nodes(), from_str("# A\n\nbody").as_slice());
    assert_eq!(editor.current_row(), 0);
    assert_eq!(editor.mode(), Mode::Read);
    assert!(!editor.modified());
    assert!(!editor.active());
    assert!(!editor.is_editing());
    assert_eq!(editor.save(), None);
    assert_eq!(lines_of(&editor), vec![""]);
}

#[test]
fn default_editor_is_empty() {
    let editor = EditorState::default();
    assert_eq!(editor.content(), "");
    assert!(editor.nodes().is_empty());
    assert_eq!(editor.current_row(), 0);
    assert_eq!(editor.mode(), Mode::Read);
    assert_eq!(editor.scrollbar().position, 0);
}

#[test]
fn editing_the_second_block_changes_the_text() {
    let mut editor = EditorState::new("# A\n\nbody", String::from("/vault/a.md"));
    assert_eq!(editor.nodes().len(), 2);
    assert_eq!(editor.nodes()[0].kind, NodeKind::Heading(1));
    assert_eq!(editor.content_slice(0..4), "# A\n");
    assert_eq!(editor.nodes()[1].kind, NodeKind::Paragraph);
    assert_eq!(editor.content_slice(5..9), "body");
    editor.set_row(1);
    editor.set_mode(Mode::Edit);
    assert_eq!(lines_of(&editor), vec!["body"]);
    editor.edit(press(Key::End));
    for _ in 0..4 {
        editor.edit(press(Key::Backspace));
    }
    type_text(&mut editor, "newbody");
    assert_eq!(lines_of(&editor), vec!["newbody"]);
    editor.exit_insert();
    editor.set_mode(Mode::View);
    // Folding puts a line feed after the block as well as before it.
    assert_eq!(editor.content(), "# A\n\nnewbody\n");
    assert!(editor.content().starts_with("# A\n\nnewbody"));
    assert!(editor.modified());
    assert_eq!(editor.nodes(), from_str("# A\n\nnewbody\n").as_slice());
    assert_eq!(editor.current_row(), 1);
}

#[test]
fn folding_back_the_same_text_changes_nothing() {
    let text = "# A\n\nbody\n\nmore";
    let mut editor = EditorState::new(text, String::from("a.md"));
    let nodes = copy_nodes(editor.nodes());
    editor.set_row(1);
    assert_eq!(lines_of(&editor), vec!["body"]);
    editor.exit_insert();
    assert_eq!(editor.content(), text);
    assert_eq!(editor.nodes(), nodes.as_slice());
    assert!(!editor.modified());
    editor.exit_insert();
    assert_eq!(editor.content(), text);
    assert_eq!(editor.nodes(), nodes.as_slice());
}

#[test]
fn folding_back_twice_after_an_edit_changes_nothing_more() {
    let mut editor = EditorState::new("# A\n\nbody", String::from("a.md"));
    editor.set_row(1);
    type_text(&mut editor, "x");
    editor.exit_insert();
    assert_eq!(editor.content(), "# A\n\nxbody\n");
    let nodes = copy_nodes(editor.nodes());
    editor.exit_insert();
    assert_eq!(editor.content(), "# A\n\nxbody\n");
    assert_eq!(editor.nodes(), nodes.as_slice());
}

#[test]
fn folding_the_first_block_puts_a_line_feed_before_it() {
    let mut editor = EditorState::new("# A\n\nbody", String::from("a.md"));
    editor.update_text_buffer();
    assert_eq!(lines_of(&editor), vec!["# A"]);
    editor.exit_insert();
    assert_eq!(editor.content(), "\n# A\n\nbody");
    assert!(editor.modified());
}

#[test]
fn folding_without_a_block_changes_nothing() {
    let mut editor = EditorState::new("", String::from("a.md"));
    type_text(&mut editor, "typed");
    editor.exit_insert();
    assert_eq!(editor.content(), "");
    assert!(editor.nodes().is_empty());
    assert!(!editor.modified());
}

#[test]
fn deleting_at_the_start_of_a_block_merges_it_into_the_one_before() {
    let text = "# A\n\nbody\n\nmore\n";
    let mut editor = EditorState::new(text, String::from("a.md"));
    assert_eq!(editor.nodes().len(), 3);
    editor.set_row(1);
    assert_eq!(editor.text_buffer().cursor(), (0, 0));
    editor.delete_char();
    assert_eq!(editor.nodes().len(), 2);
    assert_eq!(editor.current_row(), 0);
    assert_eq!(editor.nodes()[0], node(NodeKind::Heading(1), 0, 10));
    assert_eq!(editor.nodes()[1].source_range, 11..16);
    assert_eq!(editor.content(), text);
    assert_eq!(lines_of(&editor), vec!["# A", "", "body"]);
    assert!(!editor.modified());
    editor.cursor_up();
    editor.cursor_up();
    editor.cursor_up();
    assert_eq!(editor.content(), "\n# A\n\nbody\n\nmore\n");
    assert!(editor.modified());
}

#[test]
fn deleting_at_the_start_of_the_first_block_merges_nothing() {
    let text = "# A\n\nbody";
    let mut editor = EditorState::new(text, String::from("a.md"));
    editor.update_text_buffer();
    editor.delete_char();
    assert_eq!(editor.nodes().len(), 2);
    assert_eq!(editor.current_row(), 0);
    assert_eq!(editor.content(), text);
    assert_eq!(lines_of(&editor), vec!["# A"]);
}

#[test]
fn deleting_at_the_start_of_a_blank_buffer_folds_it_back() {
    let mut editor = EditorState::new("a\n\nb", String::from("a.md"));
    editor.set_row(1);
    assert_eq!(lines_of(&editor), vec!["b"]);
    editor.edit(press(Key::End));
    editor.delete_char();
    assert_eq!(lines_of(&editor), vec![""]);
    assert_eq!(editor.content(), "a\n\nb");
    assert_eq!(editor.text_buffer().cursor(), (0, 0));
    editor.delete_char();
    assert_eq!(editor.content(), "a\n\n\n");
    assert_eq!(editor.nodes(), from_str("a\n\n\n").as_slice());
    assert_eq!(editor.nodes().len(), 1);
    assert_eq!(editor.current_row(), 0);
    assert!(editor.modified());
}

#[test]
fn deleting_inside_the_buffer_deletes_one_character() {
    let mut editor = EditorState::new("# A\n\nbody", String::from("a.md"));
    editor.set_row(1);
    editor.edit(press(Key::End));
    editor.delete_char();
    assert_eq!(lines_of(&editor), vec!["bod"]);
    assert_eq!(editor.content(), "# A\n\nbody");
    assert_eq!(editor.nodes().len(), 2);
    editor.cursor_down();
    assert_eq!(editor.content(), "# A\n\nbod\n");
}

#[test]
fn cursor_down_on_the_last_line_of_the_last_block_stays() {
    let mut editor = EditorState::new("# A\n\nbody", String::from("a.md"));
    editor.set_row(1);
    let cursor = editor.text_buffer().cursor();
    editor.cursor_down();
    assert_eq!(editor.current_row(), 1);
    assert_eq!(editor.content(), "# A\n\nbody");
    assert_eq!(lines_of(&editor), vec!["body"]);
    assert_eq!(editor.text_buffer().cursor(), cursor);
    assert!(!editor.modified());
    editor.cursor_down();
    assert_eq!(editor.current_row(), 1);
}

#[test]
fn cursor_up_on_the_first_line_of_the_first_block_stays() {
    let mut editor = EditorState::new("# A\n\nbody", String::from("a.md"));
    editor.update_text_buffer();
    editor.cursor_up();
    assert_eq!(editor.current_row(), 0);
    assert_eq!(lines_of(&editor), vec!["# A"]);
    assert_eq!(editor.content(), "# A\n\nbody");
}

#[test]
fn cursor_down_crosses_into_the_next_block_at_its_top() {
    let mut editor = EditorState::new("# A\n\none\ntwo\n\nend", String::from("a.md"));
    editor.update_text_buffer();
    editor.cursor_down();
    assert_eq!(editor.current_row(), 1);
    assert_eq!(lines_of(&editor), vec!["one", "two"]);
    assert_eq!(editor.text_buffer().cursor().0, 0);
    editor.cursor_down();
    assert_eq!(editor.current_row(), 1);
    assert_eq!(editor.text_buffer().cursor().0, 1);
    editor.cursor_down();
    assert_eq!(editor.current_row(), 2);
    assert_eq!(lines_of(&editor), vec!["end"]);
    assert_eq!(editor.text_buffer().cursor().0, 0);
}

#[test]
fn cursor_up_crosses_into_the_block_before_at_its_bottom() {
    let mut editor = EditorState::new("# A\n\none\ntwo\n\nend", String::from("a.md"));
    editor.set_row(2);
    editor.cursor_up();
    assert_eq!(editor.current_row(), 1);
    assert_eq!(lines_of(&editor), vec!["one", "two"]);
    assert_eq!(editor.text_buffer().cursor().0, 1);
    editor.cursor_up();
    assert_eq!(editor.current_row(), 1);
    assert_eq!(editor.text_buffer().cursor().0, 0);
    editor.cursor_up();
    assert_eq!(editor.current_row(), 0);
    assert_eq!(lines_of(&editor), vec!["# A"]);
}

#[test]
fn leaving_an_edited_block_folds_it_back() {
    let mut editor = EditorState::new("# A\n\nbody\n\nend", String::from("a.md"));
    editor.set_row(1);
    type_text(&mut editor, "my ");
    assert_eq!(editor.content(), "# A\n\nbody\n\nend");
    editor.cursor_down();
    assert_eq!(editor.content(), "# A\n\nmy body\n\nend");
    assert!(editor.modified());
    assert_eq!(editor.current_row(), 2);
    assert_eq!(lines_of(&editor), vec!["end"]);
}

#[test]
fn cursor_left_and_right_move_inside_the_buffer() {
    let mut editor = EditorState::new("# A\n\nbody", String::from("a.md"));
    editor.set_row(1);
    editor.cursor_right();
    editor.cursor_right();
    assert_eq!(editor.text_buffer().cursor(), (0, 2));
    editor.cursor_left();
    assert_eq!(editor.text_buffer().cursor(), (0, 1));
    editor.cursor_left();
    editor.cursor_left();
    assert_eq!(editor.text_buffer().cursor(), (0, 0));
    editor.cursor_move_col(3);
    assert_eq!(editor.text_buffer().cursor(), (0, 3));
    editor.cursor_move_col(-2);
    assert_eq!(editor.text_buffer().cursor(), (0, 1));
    editor.cursor_move_col(-20);
    assert_eq!(editor.text_buffer().cursor(), (0, 0));
    editor.cursor_move_col(20);
    assert_eq!(editor.text_buffer().cursor(), (0, 4));
    assert_eq!(editor.content(), "# A\n\nbody");
}

#[test]
fn cursor_moves_by_words_leave_the_text() {
    let mut editor = EditorState::new("one two three", String::from("a.md"));
    editor.update_text_buffer();
    editor.cursor_word_forward();
    assert_eq!(editor.text_buffer().cursor(), (0, 4));
    editor.cursor_word_forward();
    editor.cursor_word_backward();
    assert_eq!(editor.text_buffer().cursor(), (0, 4));
    assert_eq!(lines_of(&editor), vec!["one two three"]);
}

#[test]
fn set_row_keeps_the_row_inside_the_blocks() {
    let mut editor = EditorState::new("# A\n\nbody", String::from("a.md"));
    editor.set_row(1);
    assert_eq!(editor.current_row(), 1);
    editor.set_row(99);
    assert_eq!(editor.current_row(), 1);
    editor.set_row(0);
    assert_eq!(editor.current_row(), 0);
    assert_eq!(lines_of(&editor), vec!["# A"]);
    let mut empty = EditorState::default();
    empty.set_row(3);
    assert_eq!(empty.current_row(), 3);
    empty.set_content("# A\n\nbody");
    assert_eq!(empty.current_row(), 1);
    assert_eq!(empty.text_buffer().lines(), vec!["body"]);
}

#[test]
fn set_content_loads_another_text() {
    let mut editor = EditorState::new("old", String::from("a.md"));
    editor.set_content("# New\n\ntext");
    assert_eq!(editor.content(), "# New\n\ntext");
    assert_eq!(editor.nodes(), from_str("# New\n\ntext").as_slice());
    assert!(!editor.modified());
    assert_eq!(lines_of(&editor), vec!["# New"]);
}

#[test]
fn save_hands_out_the_text_when_it_was_modified() {
    let mut editor = EditorState::new("# A\n\nbody", String::from("/vault/a.md"));
    assert_eq!(editor.save(), None);
    editor.set_row(1);
    type_text(&mut editor, "x");
    editor.exit_insert();
    assert!(editor.modified());
    assert_eq!(
        editor.save(),
        Some(SaveRequest {
            path: String::from("/vault/a.md"),
            content: String::from("# A\n\nxbody\n")
        })
    );
    // As long as the text was not written, it stays modified.
    assert!(editor.modified());
    assert!(editor.save().is_some());
    editor.saved();
    assert!(!editor.modified());
    assert_eq!(editor.save(), None);
    assert_eq!(editor.content(), "# A\n\nxbody\n");
    editor.exit_insert();
    assert!(!editor.modified());
}

#[test]
fn set_path_names_where_the_text_is_saved() {
    let mut editor = EditorState::new("a\n\nb", String::from("old.md"));
    editor.set_path(String::from("new.md"));
    editor.set_row(1);
    type_text(&mut editor, "x");
    editor.exit_insert();
    assert_eq!(editor.save().map(|q| q.path), Some(String::from("new.md")));
}

#[test]
fn scrolling_saturates() {
    let mut editor = EditorState::default();
    editor.scroll_down(5);
    assert_eq!(editor.scrollbar().position, 5);
    assert_eq!(editor.scrollbar().state, ScrollbarState::new(0).position(5));
    editor.scroll_up(2);
    assert_eq!(editor.scrollbar().position, 3);
    assert_eq!(editor.scrollbar().state, ScrollbarState::new(0).position(3));
    editor.scroll_up(10);
    assert_eq!(editor.scrollbar().position, 0);
    editor.scroll_down(usize::MAX);
    editor.scroll_down(1);
    assert_eq!(editor.scrollbar().position, usize::MAX);
}

#[test]
fn modes_and_focus_are_set() {
    let mut editor = EditorState::default();
    editor.set_mode(Mode::Edit);
    assert!(editor.is_editing());
    assert_eq!(editor.mode(), Mode::Edit);
    editor.set_mode(Mode::View);
    assert!(!editor.is_editing());
    editor.set_active(true);
    assert!(editor.active());
    assert_eq!(Mode::View.to_string(), "VIEW");
    assert_eq!(Mode::Edit.to_string(), "EDIT");
    assert_eq!(Mode::Read.to_string(), "READ");
    assert_eq!(Mode::default(), Mode::Read);
}

#[test]
fn reset_keeps_the_mode_only() {
    let mut editor = EditorState::new("# A\n\nbody", String::from("a.md"));
    editor.set_mode(Mode::View);
    editor.set_row(1);
    editor.set_active(true);
    let editor = editor.reset();
    assert_eq!(editor.mode(), Mode::View);
    assert_eq!(editor.content(), "");
    assert!(editor.nodes().is_empty());
    assert_eq!(editor.current_row(), 0);
    assert!(!editor.active());
}

#[test]
fn update_text_buffer_content_puts_text_before_the_buffer() {
    let mut editor = EditorState::new("# A\n\nbody", String::from("a.md"));
    editor.set_row(1);
    editor.update_text_buffer_content("first\nsecond");
    assert_eq!(lines_of(&editor), vec!["first", "second", "body"]);
    assert_eq!(editor.text_buffer().cursor(), (2, 0));
    assert_eq!(editor.content(), "# A\n\nbody");
}

#[test]
fn text_buffer_as_mut_hands_out_the_buffer() {
    let mut editor = EditorState::new("# A\n\nbody", String::from("a.md"));
    editor.set_row(1);
    editor.text_buffer_as_mut().cursor_move(CursorMove::Right);
    assert_eq!(editor.text_buffer().cursor(), (0, 1));
}

#[test]
fn text_buffer_holds_lines_and_a_cursor() {
    let buffer = TextBuffer::new("one\ntwo\n");
    assert_eq!(buffer.lines(), vec!["one", "two"]);
    assert_eq!(buffer.cursor(), (0, 0));
    assert_eq!(buffer.to_string(), "one\ntwo");
    assert!(!buffer.is_modified());
    assert_eq!(TextBuffer::new("").lines(), vec![""]);
    assert_eq!(TextBuffer::default().lines(), vec![""]);
    assert_eq!(TextBuffer::default().to_string(), "");
}

#[test]
fn text_buffer_places_the_cursor_as_near_as_it_can() {
    assert_eq!(TextBuffer::new("one\ntwo").with_cursor_position((1, 2)).cursor(), (1, 2));
    assert_eq!(TextBuffer::new("one\ntwo").with_cursor_position((5, 9)).cursor(), (1, 3));
    assert_eq!(TextBuffer::new("one\ntwo").with_cursor_position((0, 70000)).cursor(), (0, 3));
    assert_eq!(TextBuffer::new("one\ntwo").with_cursor_position((usize::MAX, 1)).cursor(), (1, 1));
}

#[test]
fn text_buffer_moves_its_cursor() {
    let mut buffer = TextBuffer::new("first\nto\nthird").with_cursor_position((0, 4));
    buffer.cursor_move(CursorMove::Down);
    assert_eq!(buffer.cursor(), (1, 2));
    buffer.cursor_move(CursorMove::Right);
    assert_eq!(buffer.cursor(), (2, 0));
    buffer.cursor_move(CursorMove::Left);
    assert_eq!(buffer.cursor(), (1, 2));
    buffer.cursor_move(CursorMove::Left);
    assert_eq!(buffer.cursor(), (1, 1));
    buffer.cursor_move(CursorMove::Bottom);
    assert_eq!(buffer.cursor(), (2, 1));
    buffer.cursor_move(CursorMove::Down);
    assert_eq!(buffer.cursor(), (2, 1));
    buffer.cursor_move(CursorMove::Top);
    assert_eq!(buffer.cursor(), (0, 1));
    buffer.cursor_move(CursorMove::Up);
    assert_eq!(buffer.cursor(), (0, 1));
    buffer.cursor_move(CursorMove::Jump(1, 9));
    assert_eq!(buffer.cursor(), (1, 2));
    buffer.cursor_move(CursorMove::Right);
    buffer.cursor_move(CursorMove::Up);
    assert_eq!(buffer.cursor(), (1, 0));
    buffer.cursor_move(CursorMove::WordForward);
    buffer.cursor_move(CursorMove::WordBackward);
    assert_eq!(buffer.lines(), vec!["first", "to", "third"]);
    assert!(!buffer.is_modified());
}

#[test]
fn text_buffer_is_modified_by_an_input_that_changes_it() {
    let mut buffer = TextBuffer::new("ab");
    buffer.edit(press(Key::Right));
    assert!(!buffer.is_modified());
    assert_eq!(buffer.lines(), vec!["ab"]);
    buffer.edit(press(Key::Char('x')));
    assert!(buffer.is_modified());
    assert_eq!(buffer.lines(), vec!["axb"]);
    buffer.edit(press(Key::Enter));
    assert_eq!(buffer.lines(), vec!["ax", "b"]);
    assert_eq!(buffer.to_string(), "ax\nb");
    buffer.edit(press(Key::Left));
    assert!(buffer.is_modified());
}

#[test]
fn a_copy_of_the_editor_holds_the_same() {
    let mut editor = EditorState::new("# A\n\nbody", String::from("a.md"));
    editor.set_row(1);
    type_text(&mut editor, "x");
    let mut copy = editor.clone();
    assert_eq!(copy.content(), editor.content());
    assert_eq!(copy.nodes(), editor.nodes());
    assert_eq!(copy.current_row(), 1);
    assert_eq!(copy.text_buffer().lines(), vec!["xbody"]);
    assert_eq!(copy.text_buffer().cursor(), (0, 1));
    assert!(copy.text_buffer().is_modified());
    copy.exit_insert();
    assert_eq!(copy.content(), "# A\n\nxbody\n");
    assert_eq!(editor.content(), "# A\n\nbody");
    let buffer = TextBuffer::new("one\ntwo").with_cursor_position((1, 1));
    let twin = buffer.clone();
    assert_eq!(twin.lines(), buffer.lines());
    assert_eq!(twin.cursor(), (1, 1));
}

#[test]
fn a_buffer_stays_modified_once_an_input_changed_it() {
    let mut buffer = TextBuffer::new("ab");
    buffer.note_change(false);
    assert!(!buffer.is_modified());
    buffer.note_change(true);
    assert!(buffer.is_modified());
    buffer.note_change(false);
    assert!(buffer.is_modified());
    assert_eq!(buffer.lines(), vec!["ab"]);
    assert_eq!(buffer.cursor(), (0, 0));
}

#[test]
fn word_movements_go_where_the_widget_finds_words() {
    let mut editor = EditorState::new("fn foo(a)\n  next", String::from("a.md"));
    editor.update_text_buffer();
    assert_eq!(lines_of(&editor), vec!["fn foo(a)", "  next"]);
    let mut seen = Vec::new();
    for _ in 0..6 {
        editor.cursor_word_forward();
        seen.push(editor.text_buffer().cursor());
    }
    assert_eq!(seen, vec![(0, 3), (0, 6), (0, 7), (0, 8), (1, 0), (1, 2)]);
    seen.clear();
    for _ in 0..4 {
        editor.cursor_word_backward();
        seen.push(editor.text_buffer().cursor());
    }
    assert_eq!(seen, vec![(0, 9), (0, 8), (0, 7), (0, 6)]);
    assert_eq!(editor.content(), "fn foo(a)\n  next");
    assert_eq!(lines_of(&editor), vec!["fn foo(a)", "  next"]);
}

#[test]
fn a_paste_over_a_selection_counts_as_a_change() {
    let mut buffer = TextBuffer::new("abc");
    buffer.edit(Input { key: Key::Right, ctrl: false, alt: false, shift: true });
    assert!(!buffer.is_modified());
    buffer.edit(press(Key::Paste));
    assert_eq!(buffer.lines(), vec!["bc"]);
    assert!(buffer.is_modified());
}

#[test]
fn an_edit_that_the_widget_does_not_report_is_folded_back_all_the_same() {
    let mut editor = EditorState::new("# A\n\nabc", String::from("a.md"));
    editor.set_row(1);
    editor.edit(Input { key: Key::Right, ctrl: false, alt: false, shift: true });
    editor.edit(press(Key::Paste));
    assert_eq!(lines_of(&editor), vec!["bc"]);
    editor.cursor_down();
    assert_eq!(editor.content(), "# A\n\nbc\n");
    assert!(editor.modified());
}

#[test]
fn an_input_that_changes_nothing_leaves_the_buffer_unmodified() {
    let mut buffer = TextBuffer::new("abc");
    buffer.edit(press(Key::Null));
    buffer.edit(press(Key::Backspace));
    buffer.edit(press(Key::Paste));
    assert_eq!(buffer.lines(), vec!["abc"]);
    assert!(!buffer.is_modified());
}

#[test]
fn the_editor_knows_whether_a_note_was_loaded() {
    assert!(!EditorState::default().has_note());
    assert!(EditorState::new("", String::from("a.md")).has_note());
    let mut editor = EditorState::default();
    editor.set_content("text");
    assert!(editor.has_note());
    assert!(!editor.reset().has_note());
}
