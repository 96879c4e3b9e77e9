use modal_edit::buffer::{Buffer, BufferError};
use modal_edit::editor::{Editor, EventOutcome, InputEvent, NamedKey};

#[test]
fn loading_and_saving_without_edits_is_byte_identical() {
    let samples = [
        "",
        "one line",
        "alpha\nbeta\ngamma",
        "trailing newline\n",
        "\n\n",
        "mixed\n\nblank lines\n",
        "unicode e\u{301} and flags \u{1F1E6}\u{1F1E9}\nsecond",
    ];
    for text in samples {
        let e = Editor::new(text);
        assert_eq!(e.serialize(), text);
    }
}

#[test]
fn buffer_splits_on_newlines_preserving_empty_lines() {
    let b = Buffer::from_text("a\n\nb\n");
    assert_eq!(b.line_count(), 4);
    let expected = ["a", "", "b", ""];
    for (i, want) in expected.iter().enumerate() {
        let got: String = b.line(i).unwrap().iter().collect();
        assert_eq!(&got, want);
    }
}

#[test]
fn line_accessor_rejects_rows_past_the_end() {
    let b = Buffer::from_text("ab\ncd");
    assert!(b.line(1).is_ok());
    assert_eq!(b.line(2), Err(BufferError::OutOfRange));
    assert_eq!(b.line(usize::MAX), Err(BufferError::OutOfRange));
}

#[test]
fn serialization_joins_lines_with_newlines() {
    let b = Buffer::from_text("x");
    assert_eq!(b.serialize(), "x");
    let b2 = Buffer::from_text("x\ny\nz");
    assert_eq!(b2.serialize(), "x\ny\nz");
}

#[test]
fn an_edit_then_save_round_trips_through_the_buffer() {
    let mut e = Editor::new("ab\ncd");
    e.on_event(InputEvent::Character('i'));
    e.on_event(InputEvent::Character('X'));
    assert_eq!(e.serialize(), "Xab\ncd");
    let out = e.on_event(InputEvent::Named(NamedKey::Escape));
    assert_eq!(out, EventOutcome::Consumed);
    let reloaded = Editor::new(&e.serialize());
    assert_eq!(reloaded.serialize(), "Xab\ncd");
}
