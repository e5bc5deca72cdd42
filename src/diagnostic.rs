//! Diagnostics and the fixes that they carry.
use vstd::prelude::*;
use crate::text_edit::{TextEdit, TextRange};

verus! {

/// A file of the workspace.
#[derive(Clone, Copy, Debug, PartialEq, Eq, Structural)]
pub struct FileId(pub u32);

/// A root directory under which module paths are resolved.
#[derive(Clone, Copy, Debug, PartialEq, Eq, Structural)]
pub struct SourceRootId(pub u32);

/// An offset in a file.
#[derive(Clone, Copy, Debug, PartialEq, Eq, Structural)]
pub struct FilePosition {
    pub file_id: FileId,
    pub offset: u32,
}

/// How serious a diagnostic is.
#[derive(Clone, Copy, Debug, PartialEq, Eq, Structural)]
pub enum Severity {
    Error,
    WeakWarning,
}

/// A path relative to a source root, as its components.
#[derive(Debug)]
pub struct RelPath {
    pub components: Vec<String>,
}

/// The views of a sequence of strings.
pub open spec fn string_views(s: Seq<String>) -> Seq<Seq<char>> {
    s.map_values(|x: String| x@)
}

impl View for RelPath {
    type V = Seq<Seq<char>>;

    open spec fn view(&self) -> Seq<Seq<char>> {
        string_views(self.components@)
    }
}

impl RelPath {
    /// The path made of `components`.
    pub fn new(components: Vec<String>) -> (r: RelPath)
        ensures
            r.components@ == components@,
    {
        RelPath { components }
    }

    /// The path `other` resolved below this one.
    pub fn join(&self, other: &RelPath) -> (r: RelPath)
        ensures
            r@ == self@ + other@,
    {
        let mut components: Vec<String> = Vec::new();
        let mut i: usize = 0;
        while i < self.components.len()
            invariant
                0 <= i <= self.components@.len(),
                string_views(components@) =~= self@.subrange(0, i as int),
            decreases self.components@.len() - i,
        {
            let c = self.components[i].clone();
            let ghost before = components@;
            components.push(c);
            assert(string_views(components@) =~= string_views(before).push(c@));
            i = i + 1;
        }
        let mut j: usize = 0;
        while j < other.components.len()
            invariant
                0 <= j <= other.components@.len(),
                string_views(components@) =~= self@ + other@.subrange(0, j as int),
            decreases other.components@.len() - j,
        {
            let c = other.components[j].clone();
            let ghost before = components@;
            components.push(c);
            assert(string_views(components@) =~= string_views(before).push(c@));
            j = j + 1;
        }
        RelPath { components }
    }

    /// A copy of the path.
    pub fn duplicate(&self) -> (r: RelPath)
        ensures
            r@ == self@,
    {
        let empty = RelPath { components: Vec::new() };
        let r = self.join(&empty);
        assert(r@ =~= self@);
        r
    }
}

/// An operation on the file system.
#[derive(Debug)]
pub enum FileSystemEdit {
    CreateFile { source_root: SourceRootId, path: RelPath },
    MoveFile { src: FileId, dst_source_root: SourceRootId, dst_path: RelPath },
}

/// What a file-system operation does, with paths as component sequences.
pub enum FsEditView {
    CreateFile { source_root: SourceRootId, path: Seq<Seq<char>> },
    MoveFile { src: FileId, dst_source_root: SourceRootId, dst_path: Seq<Seq<char>> },
}

impl View for FileSystemEdit {
    type V = FsEditView;

    open spec fn view(&self) -> FsEditView {
        match self {
            FileSystemEdit::CreateFile { source_root, path } => FsEditView::CreateFile {
                source_root: *source_root,
                path: path@,
            },
            FileSystemEdit::MoveFile { src, dst_source_root, dst_path } => FsEditView::MoveFile {
                src: *src,
                dst_source_root: *dst_source_root,
                dst_path: dst_path@,
            },
        }
    }
}

/// A text edit bound to the file that it applies to.
#[derive(Debug)]
pub struct SourceFileEdit {
    pub file_id: FileId,
    pub edit: TextEdit,
}

impl View for SourceFileEdit {
    type V = (FileId, Seq<(TextRange, Seq<char>)>);

    open spec fn view(&self) -> (FileId, Seq<(TextRange, Seq<char>)>) {
        (self.file_id, self.edit@)
    }
}

/// A labelled fix: text edits and file-system operations applied together.
#[derive(Debug)]
pub struct SourceChange {
    pub label: String,
    pub source_file_edits: Vec<SourceFileEdit>,
    pub file_system_edits: Vec<FileSystemEdit>,
    pub cursor_position: Option<FilePosition>,
}

pub struct SourceChangeView {
    pub label: Seq<char>,
    pub source_file_edits: Seq<(FileId, Seq<(TextRange, Seq<char>)>)>,
    pub file_system_edits: Seq<FsEditView>,
    pub cursor_position: Option<FilePosition>,
}

impl View for SourceChange {
    type V = SourceChangeView;

    open spec fn view(&self) -> SourceChangeView {
        SourceChangeView {
            label: self.label@,
            source_file_edits: self.source_file_edits@.map_values(|e: SourceFileEdit| e@),
            file_system_edits: self.file_system_edits@.map_values(|e: FileSystemEdit| e@),
            cursor_position: self.cursor_position,
        }
    }
}

/// A problem found in a file, with an optional fix.
#[derive(Debug)]
pub struct Diagnostic {
    pub range: TextRange,
    pub message: String,
    pub severity: Severity,
    pub fix: Option<SourceChange>,
}

pub struct DiagnosticView {
    pub range: TextRange,
    pub message: Seq<char>,
    pub severity: Severity,
    pub fix: Option<SourceChangeView>,
}

impl View for Diagnostic {
    type V = DiagnosticView;

    open spec fn view(&self) -> DiagnosticView {
        DiagnosticView {
            range: self.range,
            message: self.message@,
            severity: self.severity,
            fix: match self.fix {
                Some(f) => Some(f@),
                None => None,
            },
        }
    }
}

/// The views of a sequence of diagnostics.
pub open spec fn diagnostic_views(s: Seq<Diagnostic>) -> Seq<DiagnosticView> {
    s.map_values(|d: Diagnostic| d@)
}

/// The fix labelled `label` that applies `edit` to `file_id` alone.
pub fn text_fix(label: String, file_id: FileId, edit: TextEdit) -> (r: SourceChange)
    ensures
        r@ == (SourceChangeView {
            label: label@,
            source_file_edits: seq![(file_id, edit@)],
            file_system_edits: Seq::empty(),
            cursor_position: None,
        }),
{
    let r = SourceChange {
        label,
        source_file_edits: vec![SourceFileEdit { file_id, edit }],
        file_system_edits: Vec::new(),
        cursor_position: None,
    };
    assert(r@.source_file_edits =~= seq![(file_id, edit@)]);
    assert(r@.file_system_edits =~= Seq::<FsEditView>::empty());
    r
}

/// The fix labelled `label` made of the file-system operations `edits`.
pub fn file_system_fix(label: String, edits: Vec<FileSystemEdit>) -> (r: SourceChange)
    ensures
        r@ == (SourceChangeView {
            label: label@,
            source_file_edits: Seq::empty(),
            file_system_edits: edits@.map_values(|e: FileSystemEdit| e@),
            cursor_position: None,
        }),
{
    let r = SourceChange {
        label,
        source_file_edits: Vec::new(),
        file_system_edits: edits,
        cursor_position: None,
    };
    assert(r@.source_file_edits =~= Seq::<(FileId, Seq<(TextRange, Seq<char>)>)>::empty());
    r
}

} // verus!
