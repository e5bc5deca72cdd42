//! Checks over the syntax tree: parse errors, braces around a single
//! import, and record-literal fields that can use the shorthand form.
use vstd::prelude::*;
use crate::diagnostic::{
    diagnostic_views, text_fix, Diagnostic, DiagnosticView, FileId, FsEditView, Severity,
    SourceChangeView,
};
use crate::syntax::{Location, SyntaxError, SyntaxKind, SyntaxTree};
use crate::text_edit::{delete_atoms, replace_atoms, TextEdit, TextRange};

verus! {

/// The sequence that holds `o`'s value, if any.
pub open spec fn opt_seq(o: Option<DiagnosticView>) -> Seq<DiagnosticView> {
    match o {
        Some(d) => seq![d],
        None => Seq::empty(),
    }
}

/// A weak warning at `range` whose fix, labelled `label`, applies `edit` to
/// `file_id`.
pub open spec fn weak_warning(
    range: TextRange,
    message: Seq<char>,
    label: Seq<char>,
    file_id: FileId,
    edit: Seq<(TextRange, Seq<char>)>,
) -> DiagnosticView {
    DiagnosticView {
        range,
        message,
        severity: Severity::WeakWarning,
        fix: Some(
            SourceChangeView {
                label,
                source_file_edits: seq![(file_id, edit)],
                file_system_edits: Seq::<FsEditView>::empty(),
                cursor_position: None,
            },
        ),
    }
}

/// The range that a parse error covers: one character at a point, or the
/// range itself.
pub open spec fn location_range(loc: Location) -> TextRange {
    match loc {
        Location::Offset(o) => TextRange { start: o, end: (o + 1) as u32 },
        Location::Range(r) => r,
    }
}

pub open spec fn syntax_error_diagnostic(e: SyntaxError) -> DiagnosticView {
    DiagnosticView {
        range: location_range(e.location),
        message: "Syntax Error: "@ + e.message@,
        severity: Severity::Error,
        fix: None,
    }
}

/// One error diagnostic for each parse error, in order.
pub open spec fn syntax_error_diagnostics(errors: Seq<SyntaxError>) -> Seq<DiagnosticView> {
    errors.map_values(|e: SyntaxError| syntax_error_diagnostic(e))
}

/// Appends to `acc` one diagnostic for each parse error of `tree`.
pub fn syntax_errors(acc: &mut Vec<Diagnostic>, tree: &SyntaxTree)
    requires
        tree.wf(),
    ensures
        diagnostic_views(final(acc)@) == diagnostic_views(old(acc)@) + syntax_error_diagnostics(
            tree.errors@,
        ),
{
    let mut i: usize = 0;
    while i < tree.errors.len()
        invariant
            tree.wf(),
            0 <= i <= tree.errors@.len(),
            diagnostic_views(acc@) == diagnostic_views(old(acc)@) + syntax_error_diagnostics(
                tree.errors@.subrange(0, i as int),
            ),
        decreases tree.errors@.len() - i,
    {
        let err = &tree.errors[i];
        assert(tree.location_wf(tree.errors@[i as int].location));
        let range = match err.location {
            Location::Offset(o) => TextRange::offset_len(o, 1),
            Location::Range(r) => r,
        };
        let mut message = String::from_str("Syntax Error: ");
        message.append(err.message.as_str());
        let d = Diagnostic { range, message, severity: Severity::Error, fix: None };
        let ghost before = acc@;
        acc.push(d);
        proof {
            assert(d@ == syntax_error_diagnostic(tree.errors@[i as int]));
            assert(diagnostic_views(acc@) =~= diagnostic_views(before).push(d@));
            assert(tree.errors@.subrange(0, i + 1) =~= tree.errors@.subrange(0, i as int).push(
                tree.errors@[i as int],
            ));
            assert(syntax_error_diagnostics(tree.errors@.subrange(0, i + 1))
                =~= syntax_error_diagnostics(tree.errors@.subrange(0, i as int)).push(d@));
        }
        i = i + 1;
    }
    assert(tree.errors@.subrange(0, i as int) =~= tree.errors@);
}

/// The element of `s` when it has exactly one.
pub open spec fn sole(s: Seq<usize>) -> Option<usize> {
    if s.len() == 1 {
        Some(s[0])
    } else {
        None
    }
}

/// The element of `v` when it has exactly one.
pub fn sole_element(v: &Vec<usize>) -> (r: Option<usize>)
    ensures
        r == sole(v@),
{
    if v.len() == 1 {
        Some(v[0])
    } else {
        None
    }
}

/// Where the import `u`, alone in the group `list`, is the path `self` and
/// nothing more, the start of the sibling just before the group: deleting
/// from there to the group's end turns `prefix::{self}` into `prefix`.
pub open spec fn self_elision_start(tree: SyntaxTree, list: int, u: int) -> Option<u32> {
    match tree.first_child_spec(u, SyntaxKind::Path) {
        None => None,
        Some(path) => match tree.first_child_spec(path as int, SyntaxKind::PathSegment) {
            None => None,
            Some(seg) => {
                if tree.first_child_spec(path as int, SyntaxKind::Path) is None && tree.children(
                    seg as int,
                ).len() > 0 && tree.kind(tree.children(seg as int)[0] as int) == SyntaxKind::SelfKw {
                    match tree.prev_sibling_spec(list) {
                        Some(prev) => Some(tree.range(prev as int).start),
                        None => None,
                    }
                } else {
                    None
                }
            },
        },
    }
}

/// The edit that removes the braces of the group `list` around its sole
/// import `u`: the self elision where it applies, else the group replaced by
/// the text of `u`.
pub open spec fn braces_edit(tree: SyntaxTree, list: int, u: int) -> Seq<(TextRange, Seq<char>)> {
    match self_elision_start(tree, list, u) {
        Some(start) => delete_atoms(TextRange { start, end: tree.range(list).end }),
        None => replace_atoms(tree.range(list), tree.text_of(u)),
    }
}

/// The diagnostic for node `i` when it is a group of exactly one import.
pub open spec fn braces_diagnostic(file_id: FileId, tree: SyntaxTree, i: int) -> Option<
    DiagnosticView,
> {
    if tree.kind(i) == SyntaxKind::UseTreeList {
        match sole(tree.children_of_kind_spec(i, SyntaxKind::UseTree)) {
            Some(u) => Some(
                weak_warning(
                    tree.range(i),
                    "Unnecessary braces in use statement"@,
                    "Remove unnecessary braces"@,
                    file_id,
                    braces_edit(tree, i, u as int),
                ),
            ),
            None => None,
        }
    } else {
        None
    }
}

/// The span of the self elision is well formed: the sibling before the
/// group starts no later than the group ends.
pub proof fn lemma_self_elision_start(tree: SyntaxTree, list: int, u: int)
    requires
        tree.wf(),
        0 <= list < tree.nodes@.len(),
        self_elision_start(tree, list, u) is Some,
    ensures
        self_elision_start(tree, list, u).unwrap() <= tree.range(list).end,
{
    assert(tree.node_wf(list));
    let p = tree.node(list).parent.unwrap();
    let k = tree.index_among(p as int, list);
    assert(tree.node_wf(p as int));
    assert(tree.children(p as int)[k - 1] != tree.children(p as int)[k]);
    assert(tree.node_wf(tree.children(p as int)[k - 1] as int));
}

/// The self elision edit of the group `list` around its sole import `u`.
fn text_edit_for_remove_unnecessary_braces_with_self_in_use_statement(
    tree: &SyntaxTree,
    list: usize,
    u: usize,
) -> (r: Option<TextEdit>)
    requires
        tree.wf(),
        list < tree.nodes@.len(),
        u < tree.nodes@.len(),
    ensures
        match self_elision_start(*tree, list as int, u as int) {
            Some(start) => r matches Some(e) && e@ == delete_atoms(
                TextRange { start, end: tree.range(list as int).end },
            ) && e.wf(),
            None => r is None,
        },
{
    let path = tree.first_child(u, SyntaxKind::Path)?;
    let seg = tree.first_child(path, SyntaxKind::PathSegment)?;
    if tree.first_child(path, SyntaxKind::Path).is_some() {
        return None;
    }
    assert(tree.node_wf(seg as int));
    if tree.nodes[seg].children.len() == 0 {
        return None;
    }
    let first = tree.nodes[seg].children[0];
    if tree.nodes[first].kind != SyntaxKind::SelfKw {
        return None;
    }
    let prev = tree.prev_sibling(list)?;
    proof {
        lemma_self_elision_start(*tree, list as int, u as int);
    }
    let start = tree.nodes[prev].range.start;
    let end = tree.nodes[list].range.end;
    Some(TextEdit::delete(TextRange::from_to(start, end)))
}

/// Reports node `node` when it is a braced group of exactly one import.
pub fn check_unnecessary_braces_in_use_statement(
    acc: &mut Vec<Diagnostic>,
    file_id: FileId,
    tree: &SyntaxTree,
    node: usize,
)
    requires
        tree.wf(),
        node < tree.nodes@.len(),
    ensures
        diagnostic_views(final(acc)@) == diagnostic_views(old(acc)@) + opt_seq(
            braces_diagnostic(file_id, *tree, node as int),
        ),
{
    if tree.nodes[node].kind != SyntaxKind::UseTreeList {
        assert(diagnostic_views(acc@) =~= diagnostic_views(acc@) + Seq::<DiagnosticView>::empty());
        return;
    }
    let use_trees = tree.children_of_kind(node, SyntaxKind::UseTree);
    match sole_element(&use_trees) {
        None => {
            assert(diagnostic_views(acc@) =~= diagnostic_views(acc@) + Seq::<DiagnosticView>::empty());
        },
        Some(single) => {
            assert(single == use_trees@[0]);
            assert(tree.node_wf(node as int));
            let range = tree.nodes[node].range;
            let self_edit = text_edit_for_remove_unnecessary_braces_with_self_in_use_statement(
                tree,
                node,
                single,
            );
            let edit = match self_edit {
                Some(e) => e,
                None => TextEdit::replace(range, tree.node_text(single)),
            };
            let fix = text_fix(String::from_str("Remove unnecessary braces"), file_id, edit);
            let d = Diagnostic {
                range,
                message: String::from_str("Unnecessary braces in use statement"),
                severity: Severity::WeakWarning,
                fix: Some(fix),
            };
            let ghost before = acc@;
            acc.push(d);
            assert(diagnostic_views(acc@) =~= diagnostic_views(before).push(d@));
        },
    }
}

/// The diagnostic for the field `f` of a record literal when its value is
/// written exactly as its name.
pub open spec fn field_shorthand(file_id: FileId, tree: SyntaxTree, f: int) -> Option<DiagnosticView> {
    match (tree.first_child_spec(f, SyntaxKind::NameRef), tree.first_child_spec(f, SyntaxKind::Expr)) {
        (Some(name), Some(expr)) => {
            if tree.text_of(name as int) == tree.text_of(expr as int) {
                Some(
                    weak_warning(
                        tree.range(f),
                        "Shorthand struct initialization"@,
                        "use struct shorthand initialization"@,
                        file_id,
                        replace_atoms(tree.range(f), tree.text_of(name as int)),
                    ),
                )
            } else {
                None
            }
        },
        _ => None,
    }
}

/// The shorthand diagnostics of the fields `fields`, in order.
pub open spec fn fields_shorthand(file_id: FileId, tree: SyntaxTree, fields: Seq<usize>) -> Seq<
    DiagnosticView,
>
    decreases fields.len(),
{
    if fields.len() == 0 {
        Seq::empty()
    } else {
        fields_shorthand(file_id, tree, fields.drop_last()) + opt_seq(
            field_shorthand(file_id, tree, fields.last() as int),
        )
    }
}

/// The shorthand diagnostics of node `i` when it is a record literal with a
/// field list.
pub open spec fn shorthand_diagnostics(file_id: FileId, tree: SyntaxTree, i: int) -> Seq<
    DiagnosticView,
> {
    if tree.kind(i) == SyntaxKind::StructLit {
        match tree.first_child_spec(i, SyntaxKind::NamedFieldList) {
            Some(list) => fields_shorthand(
                file_id,
                tree,
                tree.children_of_kind_spec(list as int, SyntaxKind::NamedField),
            ),
            None => Seq::empty(),
        }
    } else {
        Seq::empty()
    }
}

/// Reports each field of the record literal `node` whose value is written
/// exactly as the field's name.
pub fn check_struct_shorthand_initialization(
    acc: &mut Vec<Diagnostic>,
    file_id: FileId,
    tree: &SyntaxTree,
    node: usize,
)
    requires
        tree.wf(),
        node < tree.nodes@.len(),
    ensures
        diagnostic_views(final(acc)@) == diagnostic_views(old(acc)@) + shorthand_diagnostics(
            file_id,
            *tree,
            node as int,
        ),
{
    assert(diagnostic_views(acc@) =~= diagnostic_views(acc@) + Seq::<DiagnosticView>::empty());
    if tree.nodes[node].kind != SyntaxKind::StructLit {
        return;
    }
    let list = match tree.first_child(node, SyntaxKind::NamedFieldList) {
        Some(l) => l,
        None => return,
    };
    let fields = tree.children_of_kind(list, SyntaxKind::NamedField);
    let ghost start = diagnostic_views(acc@);
    let mut j: usize = 0;
    while j < fields.len()
        invariant
            tree.wf(),
            0 <= j <= fields@.len(),
            fields@ == tree.children_of_kind_spec(list as int, SyntaxKind::NamedField),
            forall|m: int| 0 <= m < fields@.len() ==> #[trigger] fields@[m] < tree.nodes@.len(),
            diagnostic_views(acc@) == start + fields_shorthand(
                file_id,
                *tree,
                fields@.subrange(0, j as int),
            ),
        decreases fields@.len() - j,
    {
        let f = fields[j];
        assert(fields@.subrange(0, j + 1).drop_last() =~= fields@.subrange(0, j as int));
        assert(fields@[j as int] < tree.nodes@.len());
        let ghost before = diagnostic_views(acc@);
        let name_ref = tree.first_child(f, SyntaxKind::NameRef);
        let expr = tree.first_child(f, SyntaxKind::Expr);
        match (name_ref, expr) {
            (Some(name), Some(e)) => {
                let field_name = tree.node_text(name);
                let field_expr = tree.node_text(e);
                if field_name == field_expr {
                    assert(tree.node_wf(f as int));
                    let range = tree.nodes[f].range;
                    let edit = TextEdit::replace(range, field_name);
                    let fix = text_fix(
                        String::from_str("use struct shorthand initialization"),
                        file_id,
                        edit,
                    );
                    let d = Diagnostic {
                        range,
                        message: String::from_str("Shorthand struct initialization"),
                        severity: Severity::WeakWarning,
                        fix: Some(fix),
                    };
                    let ghost a0 = acc@;
                    acc.push(d);
                    assert(diagnostic_views(acc@) =~= diagnostic_views(a0).push(d@));
                    assert(diagnostic_views(acc@) =~= start + fields_shorthand(
                        file_id,
                        *tree,
                        fields@.subrange(0, j + 1),
                    ));
                } else {
                    assert(diagnostic_views(acc@) =~= start + fields_shorthand(
                        file_id,
                        *tree,
                        fields@.subrange(0, j + 1),
                    ));
                }
            },
            _ => {
                assert(diagnostic_views(acc@) =~= start + fields_shorthand(
                    file_id,
                    *tree,
                    fields@.subrange(0, j + 1),
                ));
            },
        }
        j = j + 1;
    }
    assert(fields@.subrange(0, j as int) =~= fields@);
}

} // verus!
