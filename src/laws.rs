//! Properties that relate the checks, their fixes and the collector.
use vstd::prelude::*;
use crate::checks::{
    braces_diagnostic, field_shorthand, lemma_self_elision_start, self_elision_start, sole,
};
use crate::collector::file_diagnostics;
use crate::diagnostic::{diagnostic_views, Diagnostic, FileId, SourceRootId};
use crate::semantic::{problem_diagnostics, Module, ModuleProblem, Problem};
use crate::syntax::{SyntaxKind, SyntaxTree};
use crate::text_edit::{apply_spec, delete_atoms, replace_atoms, TextRange};

verus! {

/// Applying the replacement of `range` by `t` to `text` gives the text
/// before the range, then `t`, then the text after it.
pub proof fn replace_applies(range: TextRange, t: Seq<char>, text: Seq<char>)
    requires
        range.wf(),
        range.end <= text.len(),
    ensures
        apply_spec(replace_atoms(range, t), text) == text.subrange(0, range.start as int) + t
            + text.subrange(range.end as int, text.len() as int),
{
    let s = replace_atoms(range, t);
    reveal_with_fuel(crate::text_edit::apply_at, 3);
    assert(text.subrange(range.start as int, range.start as int) =~= Seq::<char>::empty());
    assert(apply_spec(s, text) =~= text.subrange(0, range.start as int) + t
        + text.subrange(range.end as int, text.len() as int));
}

/// Applying the deletion of `range` to `text` gives the text before the
/// range, then the text after it.
pub proof fn delete_applies(range: TextRange, text: Seq<char>)
    requires
        range.wf(),
        range.end <= text.len(),
    ensures
        apply_spec(delete_atoms(range), text) == text.subrange(0, range.start as int)
            + text.subrange(range.end as int, text.len() as int),
{
    reveal_with_fuel(crate::text_edit::apply_at, 2);
    assert(apply_spec(delete_atoms(range), text) =~= text.subrange(0, range.start as int)
        + text.subrange(range.end as int, text.len() as int));
}

/// A braced group that does not hold exactly one import is never reported.
pub proof fn braces_only_around_one_import(file_id: FileId, tree: SyntaxTree, i: int)
    requires
        tree.children_of_kind_spec(i, SyntaxKind::UseTree).len() != 1,
    ensures
        braces_diagnostic(file_id, tree, i) is None,
{
}

/// A record field whose value is not written exactly as its name is never
/// reported.
pub proof fn shorthand_only_for_same_text(file_id: FileId, tree: SyntaxTree, f: int)
    requires
        match (tree.first_child_spec(f, SyntaxKind::NameRef), tree.first_child_spec(f, SyntaxKind::Expr)) {
            (Some(name), Some(expr)) => tree.text_of(name as int) != tree.text_of(expr as int),
            _ => true,
        },
    ensures
        field_shorthand(file_id, tree, f) is None,
{
}

/// Applying the fix of a braces diagnostic to the file's text replaces the
/// group by the text of its sole import, which lies strictly inside the
/// group; or, for `prefix::{self}`, deletes from the sibling before the group
/// to the group's end.
pub proof fn braces_fix_removes_group(file_id: FileId, tree: SyntaxTree, i: int)
    requires
        tree.wf(),
        0 <= i < tree.nodes@.len(),
        braces_diagnostic(file_id, tree, i) is Some,
    ensures
        ({
            let u = sole(tree.children_of_kind_spec(i, SyntaxKind::UseTree)).unwrap() as int;
            let edit = braces_diagnostic(file_id, tree, i).unwrap().fix.unwrap().source_file_edits[0].1;
            let text = tree.text@;
            let r = tree.range(i);
            &&& tree.node(u).parent == Some(i as usize)
            &&& r.start <= tree.range(u).start
            &&& tree.range(u).end <= r.end
            &&& apply_spec(edit, text) == match self_elision_start(tree, i, u) {
                Some(start) => text.subrange(0, start as int) + text.subrange(
                    r.end as int,
                    text.len() as int,
                ),
                None => text.subrange(0, r.start as int) + tree.text_of(u) + text.subrange(
                    r.end as int,
                    text.len() as int,
                ),
            }
        }),
{
    let u = sole(tree.children_of_kind_spec(i, SyntaxKind::UseTree)).unwrap() as int;
    assert(tree.node_wf(i));
    assert(tree.children(i).subrange(0, tree.children(i).len() as int) =~= tree.children(i));
    lemma_of_kind_children(tree, i, tree.children(i), SyntaxKind::UseTree);
    assert(tree.children_of_kind_spec(i, SyntaxKind::UseTree)[0] == u);
    assert(tree.children_of_kind_spec(i, SyntaxKind::UseTree).contains(u as usize));
    match self_elision_start(tree, i, u) {
        Some(start) => {
            lemma_self_elision_start(tree, i, u);
            delete_applies(TextRange { start, end: tree.range(i).end }, tree.text@);
        },
        None => {
            replace_applies(tree.range(i), tree.text_of(u), tree.text@);
        },
    }
}

/// Every node of `of_kind(s, k)` is in `s`; for `s` the children of `i`,
/// each is a child of `i` inside its range.
proof fn lemma_of_kind_children(tree: SyntaxTree, i: int, s: Seq<usize>, k: SyntaxKind)
    requires
        tree.wf(),
        0 <= i < tree.nodes@.len(),
        s.len() <= tree.children(i).len(),
        s == tree.children(i).subrange(0, s.len() as int),
    ensures
        forall|c: usize|
            tree.of_kind(s, k).contains(c) ==> {
                &&& c < tree.nodes@.len()
                &&& tree.node(c as int).parent == Some(i as usize)
                &&& tree.range(i).start <= tree.range(c as int).start
                &&& tree.range(c as int).end <= tree.range(i).end
            },
    decreases s.len(),
{
    assert(tree.node_wf(i));
    if s.len() > 0 {
        let t = s.drop_last();
        assert(t =~= tree.children(i).subrange(0, t.len() as int));
        lemma_of_kind_children(tree, i, t, k);
        let ch = tree.children(i);
        assert(s.last() == ch[s.len() - 1]);
        assert(ch[s.len() - 1] < tree.nodes@.len());
        let x = s.last();
        let ot = tree.of_kind(t, k);
        assert forall|c: usize| tree.of_kind(s, k).contains(c) implies {
            &&& c < tree.nodes@.len()
            &&& tree.node(c as int).parent == Some(i as usize)
            &&& tree.range(i).start <= tree.range(c as int).start
            &&& tree.range(c as int).end <= tree.range(i).end
        } by {
            if tree.kind(x as int) == k {
                let idx = choose|idx: int| 0 <= idx < ot.push(x).len() && ot.push(x)[idx] == c;
                if idx < ot.len() {
                    assert(ot.contains(c));
                }
            }
        }
    }
}

/// Applying the fix of a shorthand diagnostic to the file's text replaces
/// the field by its name alone.
pub proof fn shorthand_fix_keeps_name(file_id: FileId, tree: SyntaxTree, f: int)
    requires
        tree.wf(),
        0 <= f < tree.nodes@.len(),
        field_shorthand(file_id, tree, f) is Some,
    ensures
        ({
            let name = tree.first_child_spec(f, SyntaxKind::NameRef).unwrap() as int;
            let edit = field_shorthand(file_id, tree, f).unwrap().fix.unwrap().source_file_edits[0].1;
            let text = tree.text@;
            let r = tree.range(f);
            apply_spec(edit, text) == text.subrange(0, r.start as int) + tree.text_of(name)
                + text.subrange(r.end as int, text.len() as int)
        }),
{
    let name = tree.first_child_spec(f, SyntaxKind::NameRef).unwrap() as int;
    assert(tree.node_wf(f));
    replace_applies(tree.range(f), tree.text_of(name), tree.text@);
}

/// Two runs of the collector on the same inputs give the same diagnostics.
pub proof fn diagnostics_deterministic(
    file_id: FileId,
    root: SourceRootId,
    tree: SyntaxTree,
    module: Option<&Module>,
    first: Seq<Diagnostic>,
    second: Seq<Diagnostic>,
)
    requires
        diagnostic_views(first) == file_diagnostics(file_id, root, tree, module),
        diagnostic_views(second) == file_diagnostics(file_id, root, tree, module),
    ensures
        diagnostic_views(first) == diagnostic_views(second),
{
}

/// Each module problem gives exactly one diagnostic, in the problem's
/// place; its fix creates one file, or moves the current file and then
/// creates one file.
pub proof fn one_diagnostic_per_module_problem(
    file_id: FileId,
    root: SourceRootId,
    ps: Seq<ModuleProblem>,
    k: int,
)
    requires
        0 <= k < ps.len(),
    ensures
        problem_diagnostics(file_id, root, ps).len() == ps.len(),
        ({
            let fs = problem_diagnostics(file_id, root, ps)[k].fix.unwrap().file_system_edits;
            match ps[k].problem {
                Problem::UnresolvedModule { .. } => fs.len() == 1 && fs[0] is CreateFile,
                Problem::NotDirOwner { .. } => fs.len() == 2 && fs[0] is MoveFile
                    && fs[1] is CreateFile,
            }
        }),
{
}

} // verus!
