//! All diagnostics of one file.
use vstd::prelude::*;
use crate::checks::{
    braces_diagnostic, check_struct_shorthand_initialization,
    check_unnecessary_braces_in_use_statement, opt_seq, shorthand_diagnostics,
    syntax_error_diagnostics, syntax_errors,
};
use crate::diagnostic::{diagnostic_views, Diagnostic, DiagnosticView, FileId, SourceRootId};
use crate::semantic::{check_module, module_diagnostics, Module};
use crate::syntax::SyntaxTree;

verus! {

/// The diagnostics of the style checks on node `i`.
pub open spec fn node_checks(file_id: FileId, tree: SyntaxTree, i: int) -> Seq<DiagnosticView> {
    opt_seq(braces_diagnostic(file_id, tree, i)) + shorthand_diagnostics(file_id, tree, i)
}

/// The diagnostics of the style checks on the first `n` nodes, in order.
pub open spec fn nodes_checks(file_id: FileId, tree: SyntaxTree, n: int) -> Seq<DiagnosticView>
    decreases n,
{
    if n <= 0 {
        Seq::empty()
    } else {
        nodes_checks(file_id, tree, n - 1) + node_checks(file_id, tree, n - 1)
    }
}

/// The diagnostics of the module that the file defines, if any.
pub open spec fn owner_diagnostics(file_id: FileId, root: SourceRootId, module: Option<&Module>) -> Seq<
    DiagnosticView,
> {
    match module {
        Some(m) => module_diagnostics(file_id, root, *m),
        None => Seq::empty(),
    }
}

/// The diagnostics of a file: its parse errors, the style checks on each
/// node in order, then those of the module that it defines.
pub open spec fn file_diagnostics(
    file_id: FileId,
    root: SourceRootId,
    tree: SyntaxTree,
    module: Option<&Module>,
) -> Seq<DiagnosticView> {
    syntax_error_diagnostics(tree.errors@) + nodes_checks(file_id, tree, tree.nodes@.len() as int)
        + owner_diagnostics(file_id, root, module)
}

/// The diagnostics of the file `file_id`, parsed as `tree`, in the source
/// root `source_root`, which defines `module` if it defines one.
pub fn diagnostics(
    file_id: FileId,
    source_root: SourceRootId,
    tree: &SyntaxTree,
    module: Option<&Module>,
) -> (r: Vec<Diagnostic>)
    requires
        tree.wf(),
    ensures
        diagnostic_views(r@) == file_diagnostics(file_id, source_root, *tree, module),
{
    let mut res: Vec<Diagnostic> = Vec::new();
    syntax_errors(&mut res, tree);
    let ghost errs = diagnostic_views(res@);
    assert(errs =~= syntax_error_diagnostics(tree.errors@));
    let mut i: usize = 0;
    while i < tree.nodes.len()
        invariant
            tree.wf(),
            0 <= i <= tree.nodes@.len(),
            diagnostic_views(res@) == errs + nodes_checks(file_id, *tree, i as int),
        decreases tree.nodes@.len() - i,
    {
        check_unnecessary_braces_in_use_statement(&mut res, file_id, tree, i);
        check_struct_shorthand_initialization(&mut res, file_id, tree, i);
        assert(diagnostic_views(res@) =~= errs + nodes_checks(file_id, *tree, i + 1));
        i = i + 1;
    }
    let ghost syn = diagnostic_views(res@);
    match module {
        Some(m) => {
            check_module(&mut res, file_id, source_root, m);
        },
        None => {},
    }
    assert(diagnostic_views(res@) =~= syn + owner_diagnostics(file_id, source_root, module));
    res
}

} // verus!
