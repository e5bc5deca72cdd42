//! Checks over the module model: module declarations without a file, and
//! the problems found in function bodies.
use vstd::prelude::*;
use crate::checks::opt_seq;
use crate::diagnostic::{
    diagnostic_views, file_system_fix, Diagnostic, DiagnosticView, FileId, FileSystemEdit,
    FsEditView, RelPath, Severity, SourceChangeView, SourceRootId,
};
use crate::text_edit::TextRange;

verus! {

/// A problem with a module declaration.
#[derive(Debug)]
pub enum Problem {
    /// The declared module has no file; `candidate` is where it would be.
    UnresolvedModule { candidate: RelPath },
    /// The declaring file cannot own sub-modules where it is: it must move to
    /// `move_to`, below which `candidate` is then created.
    NotDirOwner { move_to: RelPath, candidate: RelPath },
}

/// A problem, with the range of the name that declares the module.
#[derive(Debug)]
pub struct ModuleProblem {
    pub name_range: TextRange,
    pub problem: Problem,
}

/// A problem found in a function body.
#[derive(Clone, Copy, Debug, PartialEq, Eq, Structural)]
pub enum FunctionDiagnostic {
    /// The record expression `expr` names, as its field number `field`, a
    /// field that its type does not have.
    NoSuchField { expr: u32, field: u32 },
}

/// Where field number `field` of the record expression `expr` is written.
#[derive(Clone, Copy, Debug, PartialEq, Eq, Structural)]
pub struct FieldSource {
    pub expr: u32,
    pub field: u32,
    pub range: TextRange,
}

/// The map from a body's record fields back to the syntax that wrote them.
/// It may lack entries.
#[derive(Debug)]
pub struct BodySourceMap {
    pub fields: Vec<FieldSource>,
}

/// The first entry of `s` for field `field` of `expr`.
pub open spec fn field_syntax_in(s: Seq<FieldSource>, expr: u32, field: u32) -> Option<TextRange>
    decreases s.len(),
{
    if s.len() == 0 {
        None
    } else {
        match field_syntax_in(s.drop_last(), expr, field) {
            Some(r) => Some(r),
            None => if s.last().expr == expr && s.last().field == field {
                Some(s.last().range)
            } else {
                None
            },
        }
    }
}

impl BodySourceMap {
    /// The range of the syntax that wrote field `field` of `expr`, if known.
    pub fn field_syntax(&self, expr: u32, field: u32) -> (r: Option<TextRange>)
        ensures
            r == field_syntax_in(self.fields@, expr, field),
    {
        let mut r: Option<TextRange> = None;
        let mut i: usize = 0;
        while i < self.fields.len()
            invariant
                0 <= i <= self.fields@.len(),
                r == field_syntax_in(self.fields@.subrange(0, i as int), expr, field),
            decreases self.fields@.len() - i,
        {
            assert(self.fields@.subrange(0, i + 1).drop_last() =~= self.fields@.subrange(0, i as int));
            let e = self.fields[i];
            if r.is_none() && e.expr == expr && e.field == field {
                r = Some(e.range);
            }
            i = i + 1;
        }
        assert(self.fields@.subrange(0, i as int) =~= self.fields@);
        r
    }
}

/// A function of the module: what its body check found, and its source map.
#[derive(Debug)]
pub struct Function {
    pub diagnostics: Vec<FunctionDiagnostic>,
    pub source_map: BodySourceMap,
}

/// An item declared in a module.
#[derive(Debug)]
pub enum ModuleDef {
    Function(Function),
    Other,
}

/// What the module model holds of the module that a file defines.
#[derive(Debug)]
pub struct Module {
    pub declarations: Vec<ModuleDef>,
    pub problems: Vec<ModuleProblem>,
}

/// An error diagnostic at `range` whose fix, labelled `label`, is the
/// file-system operations `edits`.
pub open spec fn fs_error(
    range: TextRange,
    message: Seq<char>,
    label: Seq<char>,
    edits: Seq<FsEditView>,
) -> DiagnosticView {
    DiagnosticView {
        range,
        message,
        severity: Severity::Error,
        fix: Some(
            SourceChangeView {
                label,
                source_file_edits: Seq::empty(),
                file_system_edits: edits,
                cursor_position: None,
            },
        ),
    }
}

/// The diagnostic for a module problem of the file `file_id`, in the source
/// root `root`.
pub open spec fn problem_diagnostic(file_id: FileId, root: SourceRootId, p: ModuleProblem) -> DiagnosticView {
    match p.problem {
        Problem::UnresolvedModule { candidate } => fs_error(
            p.name_range,
            "unresolved module"@,
            "create module"@,
            seq![FsEditView::CreateFile { source_root: root, path: candidate@ }],
        ),
        Problem::NotDirOwner { move_to, candidate } => fs_error(
            p.name_range,
            "can't declare module at this location"@,
            "move file and create module"@,
            seq![
                FsEditView::MoveFile { src: file_id, dst_source_root: root, dst_path: move_to@ },
                FsEditView::CreateFile { source_root: root, path: move_to@ + candidate@ },
            ],
        ),
    }
}

/// One diagnostic for each module problem, in order.
pub open spec fn problem_diagnostics(file_id: FileId, root: SourceRootId, ps: Seq<ModuleProblem>) -> Seq<
    DiagnosticView,
> {
    ps.map_values(|p: ModuleProblem| problem_diagnostic(file_id, root, p))
}

/// The diagnostic for a problem of a function body, where the source map
/// knows its syntax.
pub open spec fn function_diagnostic(map: BodySourceMap, d: FunctionDiagnostic) -> Option<DiagnosticView> {
    match d {
        FunctionDiagnostic::NoSuchField { expr, field } => match field_syntax_in(map.fields@, expr, field) {
            Some(range) => Some(
                DiagnosticView {
                    range,
                    message: "no such field"@,
                    severity: Severity::Error,
                    fix: None,
                },
            ),
            None => None,
        },
    }
}

/// The diagnostics of the body problems `ds`, in order.
pub open spec fn body_diagnostics(map: BodySourceMap, ds: Seq<FunctionDiagnostic>) -> Seq<DiagnosticView>
    decreases ds.len(),
{
    if ds.len() == 0 {
        Seq::empty()
    } else {
        body_diagnostics(map, ds.drop_last()) + opt_seq(function_diagnostic(map, ds.last()))
    }
}

/// The diagnostics of the functions among `decls`, in order.
pub open spec fn declaration_diagnostics(decls: Seq<ModuleDef>) -> Seq<DiagnosticView>
    decreases decls.len(),
{
    if decls.len() == 0 {
        Seq::empty()
    } else {
        declaration_diagnostics(decls.drop_last()) + match decls.last() {
            ModuleDef::Function(f) => body_diagnostics(f.source_map, f.diagnostics@),
            ModuleDef::Other => Seq::empty(),
        }
    }
}

/// The diagnostics of module `m`, defined by file `file_id` in source root
/// `root`: its problems, then those of its functions.
pub open spec fn module_diagnostics(file_id: FileId, root: SourceRootId, m: Module) -> Seq<DiagnosticView> {
    problem_diagnostics(file_id, root, m.problems@) + declaration_diagnostics(m.declarations@)
}

/// The diagnostic for one module problem.
fn problem_to_diagnostic(file_id: FileId, source_root: SourceRootId, p: &ModuleProblem) -> (r: Diagnostic)
    ensures
        r@ == problem_diagnostic(file_id, source_root, *p),
{
    match &p.problem {
        Problem::UnresolvedModule { candidate } => {
            let create_file = FileSystemEdit::CreateFile { source_root, path: candidate.duplicate() };
            let edits = vec![create_file];
            let fix = file_system_fix(String::from_str("create module"), edits);
            assert(edits@.map_values(|e: FileSystemEdit| e@) =~= seq![create_file@]);
            Diagnostic {
                range: p.name_range,
                message: String::from_str("unresolved module"),
                severity: Severity::Error,
                fix: Some(fix),
            }
        },
        Problem::NotDirOwner { move_to, candidate } => {
            let move_file = FileSystemEdit::MoveFile {
                src: file_id,
                dst_source_root: source_root,
                dst_path: move_to.duplicate(),
            };
            let create_file = FileSystemEdit::CreateFile { source_root, path: move_to.join(candidate) };
            let edits = vec![move_file, create_file];
            let fix = file_system_fix(String::from_str("move file and create module"), edits);
            assert(edits@.map_values(|e: FileSystemEdit| e@) =~= seq![move_file@, create_file@]);
            Diagnostic {
                range: p.name_range,
                message: String::from_str("can't declare module at this location"),
                severity: Severity::Error,
                fix: Some(fix),
            }
        },
    }
}

/// Appends the diagnostics of one function: one for each body problem whose
/// syntax the source map knows, the others dropped.
pub fn check_function(acc: &mut Vec<Diagnostic>, function: &Function)
    ensures
        diagnostic_views(final(acc)@) == diagnostic_views(old(acc)@) + body_diagnostics(
            function.source_map,
            function.diagnostics@,
        ),
{
    let ghost start = diagnostic_views(acc@);
    let mut i: usize = 0;
    assert(diagnostic_views(acc@) =~= start + body_diagnostics(
        function.source_map,
        function.diagnostics@.subrange(0, 0),
    ));
    while i < function.diagnostics.len()
        invariant
            0 <= i <= function.diagnostics@.len(),
            diagnostic_views(acc@) == start + body_diagnostics(
                function.source_map,
                function.diagnostics@.subrange(0, i as int),
            ),
        decreases function.diagnostics@.len() - i,
    {
        let ghost ds = function.diagnostics@;
        assert(ds.subrange(0, i + 1).drop_last() =~= ds.subrange(0, i as int));
        match function.diagnostics[i] {
            FunctionDiagnostic::NoSuchField { expr, field } => {
                match function.source_map.field_syntax(expr, field) {
                    Some(range) => {
                        let d = Diagnostic {
                            range,
                            message: String::from_str("no such field"),
                            severity: Severity::Error,
                            fix: None,
                        };
                        let ghost a0 = acc@;
                        acc.push(d);
                        assert(diagnostic_views(acc@) =~= diagnostic_views(a0).push(d@));
                        assert(diagnostic_views(acc@) =~= start + body_diagnostics(
                            function.source_map,
                            ds.subrange(0, i + 1),
                        ));
                    },
                    None => {
                        assert(diagnostic_views(acc@) =~= start + body_diagnostics(
                            function.source_map,
                            ds.subrange(0, i + 1),
                        ));
                    },
                }
            },
        }
        i = i + 1;
    }
    assert(function.diagnostics@.subrange(0, i as int) =~= function.diagnostics@);
}

/// Appends the diagnostics of module `module`, defined by file `file_id` in
/// source root `source_root`: one for each of its problems, then those of
/// each function that it declares.
pub fn check_module(
    acc: &mut Vec<Diagnostic>,
    file_id: FileId,
    source_root: SourceRootId,
    module: &Module,
)
    ensures
        diagnostic_views(final(acc)@) == diagnostic_views(old(acc)@) + module_diagnostics(
            file_id,
            source_root,
            *module,
        ),
{
    let ghost start = diagnostic_views(acc@);
    let ps = &module.problems;
    let mut i: usize = 0;
    assert(diagnostic_views(acc@) =~= start + problem_diagnostics(file_id, source_root, ps@.subrange(0, 0)));
    while i < ps.len()
        invariant
            0 <= i <= ps@.len(),
            diagnostic_views(acc@) == start + problem_diagnostics(
                file_id,
                source_root,
                ps@.subrange(0, i as int),
            ),
        decreases ps@.len() - i,
    {
        let d = problem_to_diagnostic(file_id, source_root, &ps[i]);
        let ghost a0 = acc@;
        acc.push(d);
        assert(diagnostic_views(acc@) =~= diagnostic_views(a0).push(d@));
        assert(problem_diagnostics(file_id, source_root, ps@.subrange(0, i + 1)) =~= problem_diagnostics(
            file_id,
            source_root,
            ps@.subrange(0, i as int),
        ).push(d@));
        i = i + 1;
    }
    assert(ps@.subrange(0, i as int) =~= ps@);
    let ghost mid = diagnostic_views(acc@);
    let decls = &module.declarations;
    let mut j: usize = 0;
    assert(diagnostic_views(acc@) =~= mid + declaration_diagnostics(decls@.subrange(0, 0)));
    while j < decls.len()
        invariant
            0 <= j <= decls@.len(),
            diagnostic_views(acc@) == mid + declaration_diagnostics(decls@.subrange(0, j as int)),
        decreases decls@.len() - j,
    {
        assert(decls@.subrange(0, j + 1).drop_last() =~= decls@.subrange(0, j as int));
        match &decls[j] {
            ModuleDef::Function(f) => {
                check_function(acc, f);
            },
            ModuleDef::Other => {},
        }
        assert(diagnostic_views(acc@) =~= mid + declaration_diagnostics(decls@.subrange(0, j + 1)));
        j = j + 1;
    }
    assert(decls@.subrange(0, j as int) =~= decls@);
    assert(diagnostic_views(acc@) =~= start + module_diagnostics(file_id, source_root, *module));
}

} // verus!
