use ide_diagnostics::collector::diagnostics;
use ide_diagnostics::diagnostic::{Diagnostic, FileId, FileSystemEdit, RelPath, Severity, SourceRootId};
use ide_diagnostics::semantic::{
    check_function, check_module, BodySourceMap, FieldSource, Function, FunctionDiagnostic, Module,
    ModuleDef, ModuleProblem, Problem,
};
use ide_diagnostics::syntax::{Location, SyntaxError, SyntaxKind, SyntaxNode, SyntaxTree};
use ide_diagnostics::text_edit::TextRange;

fn path(parts: &[&str]) -> RelPath {
    RelPath::new(parts.iter().map(|p| p.to_string()).collect())
}

fn names(p: &RelPath) -> Vec<String> {
    p.components.clone()
}

fn range(start: u32, end: u32) -> TextRange {
    TextRange { start, end }
}

fn unresolved(start: u32, end: u32, candidate: &[&str]) -> ModuleProblem {
    ModuleProblem {
        name_range: range(start, end),
        problem: Problem::UnresolvedModule { candidate: path(candidate) },
    }
}

fn not_dir_owner(start: u32, end: u32, move_to: &[&str], candidate: &[&str]) -> ModuleProblem {
    ModuleProblem {
        name_range: range(start, end),
        problem: Problem::NotDirOwner { move_to: path(move_to), candidate: path(candidate) },
    }
}

fn no_such_field(expr: u32, field: u32) -> FunctionDiagnostic {
    FunctionDiagnostic::NoSuchField { expr, field }
}

fn flat_tree(text: &str) -> SyntaxTree {
    let len = text.chars().count() as u32;
    SyntaxTree {
        text: text.to_string(),
        nodes: vec![SyntaxNode {
            kind: SyntaxKind::SourceFile,
            range: range(0, len),
            parent: None,
            children: Vec::new(),
        }],
        errors: Vec::new(),
    }
}

fn checked(tree: SyntaxTree) -> SyntaxTree {
    assert!(tree.is_well_formed());
    tree
}

fn summary(d: &[Diagnostic]) -> Vec<(TextRange, String, Severity, Option<String>)> {
    d.iter()
        .map(|x| (x.range, x.message.clone(), x.severity, x.fix.as_ref().map(|f| f.label.clone())))
        .collect()
}

#[test]
fn unresolved_module_creates_file() {
    let module = Module { declarations: Vec::new(), problems: vec![unresolved(4, 7, &["foo.rs"])] };
    let mut acc = Vec::new();
    check_module(&mut acc, FileId(1), SourceRootId(9), &module);
    assert_eq!(acc.len(), 1);
    let d = &acc[0];
    assert_eq!(d.range, range(4, 7));
    assert_eq!(d.message, "unresolved module");
    assert_eq!(d.severity, Severity::Error);
    let fix = d.fix.as_ref().unwrap();
    assert_eq!(fix.label, "create module");
    assert!(fix.source_file_edits.is_empty());
    assert!(fix.cursor_position.is_none());
    assert_eq!(fix.file_system_edits.len(), 1);
    match &fix.file_system_edits[0] {
        FileSystemEdit::CreateFile { source_root, path } => {
            assert_eq!(*source_root, SourceRootId(9));
            assert_eq!(names(path), vec!["foo.rs".to_string()]);
        }
        other => panic!("unexpected edit {:?}", other),
    }
}

#[test]
fn not_dir_owner_moves_then_creates() {
    let module = Module {
        declarations: Vec::new(),
        problems: vec![not_dir_owner(10, 13, &["bar", "mod.rs"], &["baz.rs"])],
    };
    let mut acc = Vec::new();
    check_module(&mut acc, FileId(3), SourceRootId(2), &module);
    assert_eq!(acc.len(), 1);
    let d = &acc[0];
    assert_eq!(d.range, range(10, 13));
    assert_eq!(d.message, "can't declare module at this location");
    assert_eq!(d.severity, Severity::Error);
    let fix = d.fix.as_ref().unwrap();
    assert_eq!(fix.label, "move file and create module");
    assert!(fix.source_file_edits.is_empty());
    assert_eq!(fix.file_system_edits.len(), 2);
    match &fix.file_system_edits[0] {
        FileSystemEdit::MoveFile { src, dst_source_root, dst_path } => {
            assert_eq!(*src, FileId(3));
            assert_eq!(*dst_source_root, SourceRootId(2));
            assert_eq!(names(dst_path), vec!["bar".to_string(), "mod.rs".to_string()]);
        }
        other => panic!("unexpected edit {:?}", other),
    }
    match &fix.file_system_edits[1] {
        FileSystemEdit::CreateFile { source_root, path } => {
            assert_eq!(*source_root, SourceRootId(2));
            assert_eq!(
                names(path),
                vec!["bar".to_string(), "mod.rs".to_string(), "baz.rs".to_string()]
            );
        }
        other => panic!("unexpected edit {:?}", other),
    }
}

#[test]
fn one_diagnostic_per_problem_in_order() {
    let module = Module {
        declarations: Vec::new(),
        problems: vec![
            unresolved(0, 1, &["a.rs"]),
            not_dir_owner(2, 3, &["b", "mod.rs"], &["c.rs"]),
            unresolved(4, 5, &["d", "mod.rs"]),
        ],
    };
    let mut acc = Vec::new();
    check_module(&mut acc, FileId(0), SourceRootId(0), &module);
    let ranges: Vec<TextRange> = acc.iter().map(|d| d.range).collect();
    assert_eq!(ranges, vec![range(0, 1), range(2, 3), range(4, 5)]);
    let counts: Vec<usize> =
        acc.iter().map(|d| d.fix.as_ref().unwrap().file_system_edits.len()).collect();
    assert_eq!(counts, vec![1, 2, 1]);
}

#[test]
fn no_such_field_uses_source_map() {
    let function = Function {
        diagnostics: vec![no_such_field(1, 0), no_such_field(2, 5), no_such_field(1, 1)],
        source_map: BodySourceMap {
            fields: vec![
                FieldSource { expr: 1, field: 0, range: range(20, 25) },
                FieldSource { expr: 1, field: 1, range: range(30, 31) },
                FieldSource { expr: 1, field: 1, range: range(40, 41) },
            ],
        },
    };
    let mut acc = Vec::new();
    check_function(&mut acc, &function);
    assert_eq!(
        summary(&acc),
        vec![
            (range(20, 25), "no such field".to_string(), Severity::Error, None),
            (range(30, 31), "no such field".to_string(), Severity::Error, None),
        ]
    );
}

#[test]
fn source_map_first_entry_wins() {
    let map = BodySourceMap {
        fields: vec![
            FieldSource { expr: 7, field: 2, range: range(1, 2) },
            FieldSource { expr: 7, field: 2, range: range(3, 4) },
        ],
    };
    assert_eq!(map.field_syntax(7, 2), Some(range(1, 2)));
    assert_eq!(map.field_syntax(7, 3), None);
}

#[test]
fn syntax_errors_come_first() {
    let mut tree = checked(flat_tree("fn f( {}\nmod foo;"));
    tree.errors = vec![
        SyntaxError { message: "expected R_PAREN".to_string(), location: Location::Offset(5) },
        SyntaxError { message: "bad item".to_string(), location: Location::Range(range(2, 4)) },
    ];
    let module = Module {
        declarations: vec![
            ModuleDef::Other,
            ModuleDef::Function(Function {
                diagnostics: vec![no_such_field(0, 0)],
                source_map: BodySourceMap {
                    fields: vec![FieldSource { expr: 0, field: 0, range: range(6, 7) }],
                },
            }),
        ],
        problems: vec![unresolved(13, 16, &["foo.rs"])],
    };
    let d = diagnostics(FileId(0), SourceRootId(0), &tree, Some(&module));
    assert_eq!(
        summary(&d),
        vec![
            (range(5, 6), "Syntax Error: expected R_PAREN".to_string(), Severity::Error, None),
            (range(2, 4), "Syntax Error: bad item".to_string(), Severity::Error, None),
            (
                range(13, 16),
                "unresolved module".to_string(),
                Severity::Error,
                Some("create module".to_string())
            ),
            (range(6, 7), "no such field".to_string(), Severity::Error, None),
        ]
    );
}

#[test]
fn file_without_module_stops_after_syntax() {
    let mut tree = checked(flat_tree("x"));
    tree.errors =
        vec![SyntaxError { message: "oops".to_string(), location: Location::Offset(0) }];
    let d = diagnostics(FileId(0), SourceRootId(0), &tree, None);
    assert_eq!(summary(&d), vec![(range(0, 1), "Syntax Error: oops".to_string(), Severity::Error, None)]);
}

#[test]
fn unresolved_module_scenario() {
    let tree = checked(flat_tree("mod foo;"));
    let module = Module { declarations: Vec::new(), problems: vec![unresolved(4, 7, &["foo.rs"])] };
    let d = diagnostics(FileId(0), SourceRootId(1), &tree, Some(&module));
    assert_eq!(d.len(), 1);
    assert_eq!(d[0].message, "unresolved module");
    assert_eq!(d[0].severity, Severity::Error);
    match &d[0].fix.as_ref().unwrap().file_system_edits[..] {
        [FileSystemEdit::CreateFile { source_root, path }] => {
            assert_eq!(*source_root, SourceRootId(1));
            assert_eq!(names(path), vec!["foo.rs".to_string()]);
        }
        other => panic!("unexpected edits {:?}", other),
    }
}

#[test]
fn collector_runs_twice_alike() {
    let mut tree = checked(flat_tree("use a;"));
    tree.errors = vec![SyntaxError { message: "e".to_string(), location: Location::Offset(1) }];
    let module = Module {
        declarations: Vec::new(),
        problems: vec![not_dir_owner(0, 1, &["x", "mod.rs"], &["y.rs"])],
    };
    let first = diagnostics(FileId(4), SourceRootId(4), &tree, Some(&module));
    let second = diagnostics(FileId(4), SourceRootId(4), &tree, Some(&module));
    assert_eq!(summary(&first), summary(&second));
    assert_eq!(first.len(), 2);
}

#[test]
fn rel_path_join_appends_components() {
    let joined = path(&["a", "b"]).join(&path(&["c.rs"]));
    assert_eq!(names(&joined), vec!["a".to_string(), "b".to_string(), "c.rs".to_string()]);
    assert_eq!(names(&path(&["a"]).duplicate()), vec!["a".to_string()]);
}
