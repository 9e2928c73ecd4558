use line_slot::slot::{get_reader, init_reader, ReaderSlot};
use line_slot::source::{LineRead, LineSource, SourceKind};

fn line_of(r: LineRead) -> String {
    match r {
        LineRead::Line(s) => s,
        other => panic!("expected a line, got {:?}", other),
    }
}

#[test]
fn hello_line_has_terminator_stripped() {
    let mut slot = ReaderSlot::new();
    init_reader(&mut slot, LineSource::memory("hello\n"));
    assert_eq!(line_of(slot.read_line()), "hello");
    assert!(matches!(slot.read_line(), LineRead::EndOfInput));
}

#[test]
fn carriage_return_before_line_feed_is_stripped() {
    let mut src = LineSource::memory("a\r\nb");
    assert_eq!(line_of(src.read_line()), "a");
    assert_eq!(line_of(src.read_line()), "b");
}

#[test]
fn unterminated_last_line_then_end_of_input() {
    let mut src = LineSource::memory("one\ntwo");
    assert_eq!(line_of(src.read_line()), "one");
    assert_eq!(line_of(src.read_line()), "two");
    assert!(matches!(src.read_line(), LineRead::EndOfInput));
    assert!(matches!(src.read_line(), LineRead::EndOfInput));
}

#[test]
fn empty_line_differs_from_end_of_input() {
    let mut src = LineSource::memory("\n");
    assert_eq!(line_of(src.read_line()), "");
    assert!(matches!(src.read_line(), LineRead::EndOfInput));
}

#[test]
fn empty_buffer_is_end_of_input() {
    let mut src = LineSource::memory("");
    assert!(matches!(src.read_line(), LineRead::EndOfInput));
}

#[test]
fn mock_input_scenario() {
    let mut slot = ReaderSlot::new();
    init_reader(&mut slot, LineSource::memory("This is mock input\nAnother line"));
    assert_eq!(line_of(slot.read_line()), "This is mock input");
    assert_eq!(line_of(slot.read_line()), "Another line");
}

#[test]
fn streamed_source_asks_for_more_until_a_line_is_complete() {
    let mut slot = ReaderSlot::new();
    init_reader(&mut slot, LineSource::stdin());
    assert!(matches!(slot.read_line(), LineRead::NeedsInput));
    slot.feed("hel");
    assert!(matches!(slot.read_line(), LineRead::NeedsInput));
    slot.feed("lo\nwor");
    assert_eq!(line_of(slot.read_line()), "hello");
    assert!(matches!(slot.read_line(), LineRead::NeedsInput));
    slot.finish();
    assert_eq!(line_of(slot.read_line()), "wor");
    assert!(matches!(slot.read_line(), LineRead::EndOfInput));
}

#[test]
fn feed_after_end_is_ignored() {
    let mut src = LineSource::file();
    src.feed("x");
    src.finish();
    src.feed("\ny");
    assert!(src.is_ended());
    assert_eq!(line_of(src.read_line()), "x");
    assert!(matches!(src.read_line(), LineRead::EndOfInput));
}

#[test]
fn non_ascii_text_is_kept() {
    let mut src = LineSource::memory("h\u{e9}llo \u{1f600}\nz");
    assert_eq!(line_of(src.read_line()), "h\u{e9}llo \u{1f600}");
}

#[test]
fn new_slot_has_nothing_installed() {
    let slot = ReaderSlot::new();
    assert!(!slot.is_installed());
}

#[test]
fn current_after_install_is_the_new_source() {
    let mut slot = ReaderSlot::new();
    init_reader(&mut slot, LineSource::stdin());
    assert!(slot.is_installed());
    assert_eq!(get_reader(&slot).kind(), SourceKind::Stdin);
    init_reader(&mut slot, LineSource::memory("m\n"));
    assert_eq!(get_reader(&slot).kind(), SourceKind::Memory);
}

#[test]
fn install_discards_previous_data() {
    let mut slot = ReaderSlot::new();
    init_reader(&mut slot, LineSource::memory("old one\nold two\n"));
    assert_eq!(line_of(slot.read_line()), "old one");
    init_reader(&mut slot, LineSource::memory("new\n"));
    assert_eq!(line_of(slot.read_line()), "new");
    assert!(matches!(slot.read_line(), LineRead::EndOfInput));
}

#[test]
fn missing_file_leaves_stdin_installed() {
    let mut slot = ReaderSlot::new();
    init_reader(&mut slot, LineSource::stdin());
    slot.feed("typed\n");
    // The file could not be opened, so nothing new is installed.
    assert_eq!(get_reader(&slot).kind(), SourceKind::Stdin);
    assert_eq!(line_of(slot.read_line()), "typed");
}
