use editor_core::buffer::{Buffer, WriteError};
use editor_core::file_text::{read_lines, write_lines};
use editor_core::terminal::TerminalPos;
use editor_core::text_line::{InsertCharError, InsertCharResult};

fn buffer_of(lines: &[&str]) -> Buffer {
    let mut buffer = Buffer::new();
    for (line_idx, line) in lines.iter().enumerate() {
        buffer.insert_newline_at(line_idx, 0);
        for (fragment_idx, character) in line.chars().enumerate() {
            assert!(buffer.insert_character(line_idx, fragment_idx, character).is_ok());
        }
    }
    buffer
}

fn lines_of(buffer: &Buffer) -> Vec<String> {
    (0..buffer.get_total_lines())
        .map(|line_idx| buffer.render_line(line_idx, TerminalPos { x: 0, y: 0 }, 0..u64::MAX).text)
        .collect()
}

#[test]
fn new_buffer_is_empty_untitled_and_clean() {
    let buffer = Buffer::new();
    assert_eq!(buffer.get_total_lines(), 0);
    assert!(buffer.is_untitled_file());
    assert_eq!(buffer.get_filename(), None);
    assert!(!buffer.get_is_dirty());
}

#[test]
fn insert_character_inside_a_line() {
    let mut buffer = buffer_of(&["ab", "cd"]);
    assert_eq!(
        buffer.insert_character(0, 1, 'x'),
        Ok(InsertCharResult { line_len_increased: true })
    );
    assert_eq!(lines_of(&buffer), vec!["axb", "cd"]);
    assert!(buffer.get_is_dirty());
}

#[test]
fn join_line_with_below_line_merges_two_lines() {
    let mut buffer = buffer_of(&["ab", "cd"]);
    buffer.join_line_with_below_line(0);
    assert_eq!(lines_of(&buffer), vec!["abcd"]);
    assert_eq!(buffer.get_total_lines(), 1);
    assert!(buffer.get_is_dirty());
}

#[test]
fn insert_newline_at_splits_a_line() {
    let mut buffer = buffer_of(&["abcd"]);
    buffer.insert_newline_at(0, 1);
    assert_eq!(lines_of(&buffer), vec!["a", "bcd"]);
    assert!(buffer.get_is_dirty());
}

#[test]
fn untitled_buffer_cannot_be_written() {
    let mut buffer = Buffer::new();
    assert!(buffer.insert_character(0, 0, 'a').is_ok());
    assert!(buffer.get_is_dirty());
    match buffer.write_request() {
        Err(error) => assert_eq!(error, WriteError::NoFilename),
        Ok(_) => panic!("an untitled buffer has nowhere to be written"),
    }
    assert!(buffer.get_is_dirty());
}

#[test]
fn typing_on_the_line_after_the_last_adds_a_line() {
    let mut buffer = buffer_of(&["ab"]);
    assert_eq!(
        buffer.insert_character(1, 0, 'z'),
        Ok(InsertCharResult { line_len_increased: true })
    );
    assert_eq!(lines_of(&buffer), vec!["ab", "z"]);
    let mut empty = Buffer::new();
    assert!(empty.insert_character(0, 0, 'q').is_ok());
    assert_eq!(lines_of(&empty), vec!["q"]);
    assert!(empty.get_is_dirty());
}

#[test]
fn insert_at_the_end_of_a_line() {
    let mut buffer = buffer_of(&["ab", "cd"]);
    assert!(buffer.insert_character(1, 2, '!').is_ok());
    assert_eq!(lines_of(&buffer), vec!["ab", "cd!"]);
}

#[test]
fn insert_past_the_end_of_a_line_is_an_invalid_position() {
    let mut buffer = Buffer::new_from_text("notes.txt", "ab\ncd\n");
    assert_eq!(buffer.insert_character(0, 3, 'x'), Err(InsertCharError::InvalidPosition));
    assert_eq!(lines_of(&buffer), vec!["ab", "cd"]);
    assert!(!buffer.get_is_dirty());
}

#[test]
fn insert_past_the_line_after_the_last_is_an_invalid_line() {
    let mut buffer = Buffer::new_from_text("notes.txt", "ab\ncd\n");
    assert_eq!(buffer.insert_character(3, 0, 'x'), Err(InsertCharError::InvalidLine));
    assert_eq!(buffer.insert_character(usize::MAX, 0, 'x'), Err(InsertCharError::InvalidLine));
    assert_eq!(lines_of(&buffer), vec!["ab", "cd"]);
    assert!(!buffer.get_is_dirty());
}

#[test]
fn refused_insert_leaves_a_dirty_buffer_dirty() {
    let mut buffer = buffer_of(&["ab"]);
    assert!(buffer.get_is_dirty());
    assert!(buffer.insert_character(0, 9, 'x').is_err());
    assert!(buffer.get_is_dirty());
}

#[test]
fn remove_character_inside_a_line() {
    let mut buffer = Buffer::new_from_text("notes.txt", "abc\ndef\n");
    buffer.remove_character(1, 1);
    assert_eq!(lines_of(&buffer), vec!["abc", "df"]);
    assert!(buffer.get_is_dirty());
}

#[test]
fn remove_character_on_a_missing_line_does_nothing() {
    let mut buffer = Buffer::new_from_text("notes.txt", "abc\n");
    buffer.remove_character(1, 0);
    buffer.remove_character(7, 0);
    assert_eq!(lines_of(&buffer), vec!["abc"]);
    assert!(!buffer.get_is_dirty());
}

#[test]
fn remove_character_past_the_end_of_a_line_keeps_the_text() {
    let mut buffer = Buffer::new_from_text("notes.txt", "abc\n");
    buffer.remove_character(0, 3);
    assert_eq!(lines_of(&buffer), vec!["abc"]);
    assert!(buffer.get_is_dirty());
}

#[test]
fn insert_then_remove_restores_the_document() {
    let lines = ["ab", "", "c\u{4e2d}d"];
    for line_idx in 0..lines.len() {
        for fragment_idx in 0..=lines[line_idx].chars().count() {
            let mut buffer = buffer_of(&lines);
            assert!(buffer.insert_character(line_idx, fragment_idx, '#').is_ok());
            assert_ne!(lines_of(&buffer), lines.to_vec());
            buffer.remove_character(line_idx, fragment_idx);
            assert_eq!(lines_of(&buffer), lines.to_vec());
        }
    }
}

#[test]
fn insert_then_remove_after_the_last_line_leaves_an_empty_line() {
    let mut buffer = buffer_of(&["ab"]);
    assert!(buffer.insert_character(1, 0, '#').is_ok());
    buffer.remove_character(1, 0);
    assert_eq!(lines_of(&buffer), vec!["ab", ""]);
    assert_eq!(buffer.get_line_len(1), 0);
}

#[test]
fn join_needs_a_line_below() {
    let mut buffer = Buffer::new_from_text("notes.txt", "ab\ncd\n");
    buffer.join_line_with_below_line(1);
    buffer.join_line_with_below_line(2);
    buffer.join_line_with_below_line(usize::MAX);
    assert_eq!(lines_of(&buffer), vec!["ab", "cd"]);
    assert!(!buffer.get_is_dirty());
    let mut empty = Buffer::new();
    empty.join_line_with_below_line(0);
    assert_eq!(empty.get_total_lines(), 0);
    assert!(!empty.get_is_dirty());
}

#[test]
fn join_in_the_middle_keeps_the_other_lines() {
    let mut buffer = buffer_of(&["a", "b", "c", "d"]);
    buffer.join_line_with_below_line(1);
    assert_eq!(lines_of(&buffer), vec!["a", "bc", "d"]);
}

#[test]
fn newline_after_the_last_line_adds_an_empty_line() {
    let mut buffer = buffer_of(&["ab"]);
    buffer.insert_newline_at(1, 0);
    assert_eq!(lines_of(&buffer), vec!["ab", ""]);
    let mut empty = Buffer::new();
    empty.insert_newline_at(0, 5);
    assert_eq!(lines_of(&empty), vec![""]);
    assert!(empty.get_is_dirty());
}

#[test]
fn newline_at_the_ends_of_a_line() {
    let mut buffer = buffer_of(&["ab", "cd"]);
    buffer.insert_newline_at(0, 0);
    assert_eq!(lines_of(&buffer), vec!["", "ab", "cd"]);
    buffer.insert_newline_at(2, 2);
    assert_eq!(lines_of(&buffer), vec!["", "ab", "cd", ""]);
    buffer.insert_newline_at(1, 40);
    assert_eq!(lines_of(&buffer), vec!["", "ab", "", "cd", ""]);
}

#[test]
fn newline_then_join_restores_the_document() {
    let lines = ["ab", "", "c\u{4e2d}d"];
    for line_idx in 0..lines.len() {
        for fragment_idx in 0..=lines[line_idx].chars().count() + 1 {
            let mut buffer = buffer_of(&lines);
            buffer.insert_newline_at(line_idx, fragment_idx);
            assert_eq!(buffer.get_total_lines(), lines.len() + 1);
            buffer.join_line_with_below_line(line_idx);
            assert_eq!(lines_of(&buffer), lines.to_vec());
        }
    }
}

#[test]
fn line_queries_on_existing_and_missing_lines() {
    let buffer = buffer_of(&["a\u{4e2d}b", ""]);
    assert_eq!(buffer.get_total_lines(), 2);
    assert_eq!(buffer.get_line_len(0), 3);
    assert_eq!(buffer.get_line_len(1), 0);
    assert_eq!(buffer.get_line_len(2), 0);
    assert_eq!(buffer.get_line_text_width(0, 0), 0);
    assert_eq!(buffer.get_line_text_width(0, 2), 3);
    assert_eq!(buffer.get_line_text_width(0, 3), 4);
    assert_eq!(buffer.get_line_text_width(0, 50), 4);
    assert_eq!(buffer.get_line_text_width(1, 5), 0);
    assert_eq!(buffer.get_line_text_width(2, 5), 0);
}

#[test]
fn render_line_shows_the_window_or_the_placeholder() {
    let buffer = buffer_of(&["abcdef"]);
    let draw = buffer.render_line(0, TerminalPos { x: 0, y: 4 }, 1..3);
    assert_eq!(draw.pos, TerminalPos { x: 0, y: 4 });
    assert_eq!(draw.text, "bc");
    let below = buffer.render_line(1, TerminalPos { x: 0, y: 5 }, 1..3);
    assert_eq!(below.pos, TerminalPos { x: 0, y: 5 });
    assert_eq!(below.text, "~");
}

#[test]
fn filename_can_be_set_and_read() {
    let mut buffer = Buffer::new();
    buffer.change_filename("draft.txt");
    assert!(!buffer.is_untitled_file());
    assert_eq!(buffer.get_filename(), Some(String::from("draft.txt")));
    assert!(!buffer.get_is_dirty());
    buffer.change_filename("final.txt");
    assert_eq!(buffer.get_filename(), Some(String::from("final.txt")));
}

#[test]
fn buffer_from_text_splits_at_line_feeds() {
    let buffer = Buffer::new_from_text("notes.txt", "ab\ncd\n");
    assert_eq!(lines_of(&buffer), vec!["ab", "cd"]);
    assert_eq!(buffer.get_filename(), Some(String::from("notes.txt")));
    assert!(!buffer.get_is_dirty());
    assert!(!buffer.is_untitled_file());
}

#[test]
fn buffer_from_text_edge_cases() {
    assert_eq!(Buffer::new_from_text("f", "").get_total_lines(), 0);
    assert_eq!(lines_of(&Buffer::new_from_text("f", "\n")), vec![""]);
    assert_eq!(lines_of(&Buffer::new_from_text("f", "ab")), vec!["ab"]);
    assert_eq!(lines_of(&Buffer::new_from_text("f", "a\n\nb")), vec!["a", "", "b"]);
    assert_eq!(lines_of(&Buffer::new_from_text("f", "\n\n")), vec!["", ""]);
    assert_eq!(lines_of(&Buffer::new_from_text("f", "ab\r\ncd\r\n")), vec!["ab", "cd"]);
    assert_eq!(lines_of(&Buffer::new_from_text("f", "ab\r")), vec!["ab\r"]);
    assert_eq!(lines_of(&Buffer::new_from_text("f", "a\rb\n")), vec!["a\rb"]);
    assert_eq!(lines_of(&Buffer::new_from_text("f", "a\r\r\nb")), vec!["a\r", "b"]);
    assert_eq!(lines_of(&Buffer::new_from_text("f", "\r\n")), vec![""]);
}

#[test]
fn buffer_from_text_agrees_with_the_standard_line_splitter() {
    let texts = [
        "",
        "\n",
        "\r",
        "\r\n",
        "one",
        "one\n",
        "one\ntwo",
        "one\r\ntwo\r\n",
        "\n\none\n\n",
        "a\rb\r\r\n\rc\r",
        "tab\there\n \n\u{4e2d}\u{6587}\n",
    ];
    for text in texts {
        let expected: Vec<String> = text.lines().map(String::from).collect();
        assert_eq!(lines_of(&Buffer::new_from_text("f", text)), expected);
    }
}

#[test]
fn write_request_holds_every_line_and_a_line_feed() {
    let mut buffer = buffer_of(&["ab", "", "c\u{4e2d}"]);
    buffer.change_filename("out.txt");
    match buffer.write_request() {
        Ok(request) => {
            assert_eq!(request.filename, "out.txt");
            assert_eq!(request.contents, "ab\n\nc\u{4e2d}\n");
        }
        Err(_) => panic!("a titled buffer can be written"),
    }
    assert!(buffer.get_is_dirty());
}

#[test]
fn write_request_of_an_empty_buffer_is_empty() {
    let mut buffer = Buffer::new();
    buffer.change_filename("out.txt");
    match buffer.write_request() {
        Ok(request) => assert_eq!(request.contents, ""),
        Err(_) => panic!("a titled buffer can be written"),
    }
}

#[test]
fn only_a_completed_write_cleans_the_buffer() {
    let mut buffer = buffer_of(&["ab"]);
    buffer.change_filename("out.txt");
    assert!(buffer.get_is_dirty());
    assert_eq!(
        buffer.write_finished(Err(String::from("disk full"))),
        Err(WriteError::Io(String::from("disk full")))
    );
    assert!(buffer.get_is_dirty());
    assert_eq!(buffer.write_finished(Ok(())), Ok(()));
    assert!(!buffer.get_is_dirty());
    assert_eq!(
        buffer.write_finished(Err(String::from("read-only"))),
        Err(WriteError::Io(String::from("read-only")))
    );
    assert!(!buffer.get_is_dirty());
    assert_eq!(lines_of(&buffer), vec!["ab"]);
    assert_eq!(buffer.get_filename(), Some(String::from("out.txt")));
}

#[test]
fn written_text_reads_back_as_the_same_lines() {
    let mut buffer = buffer_of(&["first", "", "  third\u{4e2d}", "x"]);
    buffer.change_filename("out.txt");
    let contents = match buffer.write_request() {
        Ok(request) => request.contents,
        Err(_) => panic!("a titled buffer can be written"),
    };
    let reread = Buffer::new_from_text("out.txt", &contents);
    assert_eq!(lines_of(&reread), lines_of(&buffer));
    let again = match reread.write_request() {
        Ok(request) => request.contents,
        Err(_) => panic!("a titled buffer can be written"),
    };
    assert_eq!(again, contents);
}

#[test]
fn read_text_is_written_back_with_a_final_line_feed() {
    for (text, written) in [("a\nb\n", "a\nb\n"), ("a\nb", "a\nb\n"), ("", ""), ("\n", "\n")] {
        let buffer = Buffer::new_from_text("f", text);
        match buffer.write_request() {
            Ok(request) => assert_eq!(request.contents, written),
            Err(_) => panic!("a titled buffer can be written"),
        }
    }
}

#[test]
fn write_lines_undoes_read_lines() {
    let lines = read_lines("one\ntwo\n\nfour");
    let texts: Vec<String> = lines.iter().map(|line| line.to_string()).collect();
    assert_eq!(texts, vec!["one", "two", "", "four"]);
    assert_eq!(write_lines(&lines), "one\ntwo\n\nfour\n");
    let again = read_lines(&write_lines(&lines));
    let texts_again: Vec<String> = again.iter().map(|line| line.to_string()).collect();
    assert_eq!(texts_again, texts);
    assert_eq!(write_lines(&Vec::new()), "");
    assert_eq!(read_lines("").len(), 0);
}

#[test]
fn untitled_buffer_takes_no_write_as_done() {
    let mut buffer = Buffer::new();
    assert!(buffer.insert_character(0, 0, 'a').is_ok());
    assert_eq!(buffer.write_finished(Ok(())), Err(WriteError::NoFilename));
    assert!(buffer.get_is_dirty());
    assert_eq!(
        buffer.write_finished(Err(String::from("disk full"))),
        Err(WriteError::NoFilename)
    );
    assert!(buffer.get_is_dirty());
    assert!(buffer.is_untitled_file());
    assert_eq!(buffer.get_total_lines(), 1);
    let mut clean = Buffer::new();
    assert_eq!(clean.write_finished(Ok(())), Err(WriteError::NoFilename));
    assert!(!clean.get_is_dirty());
}
