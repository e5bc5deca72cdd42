use ide_diagnostics::text_edit::{AtomTextEdit, TextEdit, TextRange};

#[test]
fn replace_rewrites_span() {
    let edit = TextEdit::replace(TextRange::from_to(2, 5), "XY".to_string());
    assert_eq!(edit.apply("abcdefg"), "abXYfg");
}

#[test]
fn delete_removes_span() {
    let edit = TextEdit::delete(TextRange::from_to(0, 3));
    assert_eq!(edit.apply("abcdef"), "def");
}

#[test]
fn apply_several_operations_in_order() {
    let edit = TextEdit {
        atoms: vec![
            AtomTextEdit { delete: TextRange::from_to(0, 1), insert: "A".to_string() },
            AtomTextEdit { delete: TextRange::from_to(3, 3), insert: "-".to_string() },
            AtomTextEdit { delete: TextRange::from_to(4, 6), insert: String::new() },
        ],
    };
    assert_eq!(edit.apply("abcdefg"), "Abc-dg");
}

#[test]
fn empty_edit_keeps_text() {
    let edit = TextEdit { atoms: Vec::new() };
    assert_eq!(edit.apply("héllo"), "héllo");
}

#[test]
fn offsets_count_characters() {
    let edit = TextEdit::replace(TextRange::from_to(1, 2), "e".to_string());
    assert_eq!(edit.apply("héllo"), "hello");
}

#[test]
fn offset_len_range() {
    assert_eq!(TextRange::offset_len(4, 1), TextRange { start: 4, end: 5 });
}

#[test]
fn overlapping_or_long_edits_do_not_apply() {
    let overlapping = TextEdit {
        atoms: vec![
            AtomTextEdit { delete: TextRange::from_to(0, 3), insert: String::new() },
            AtomTextEdit { delete: TextRange::from_to(2, 4), insert: String::new() },
        ],
    };
    assert!(!overlapping.applies_to("abcdef"));
    let long = TextEdit::delete(TextRange::from_to(2, 9));
    assert!(!long.applies_to("abcdef"));
    assert!(long.applies_to("abcdefghij"));
    let reversed = TextEdit {
        atoms: vec![AtomTextEdit { delete: TextRange { start: 3, end: 1 }, insert: String::new() }],
    };
    assert!(!reversed.applies_to("abcdef"));
}
