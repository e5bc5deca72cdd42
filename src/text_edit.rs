//! Ranges over a file's text and edits that rewrite it.
//!
//! Offsets count characters of the text.
use vstd::prelude::*;

verus! {

/// A half-open span `[start, end)` of a file's text.
#[derive(Clone, Copy, Debug, PartialEq, Eq, Structural)]
pub struct TextRange {
    pub start: u32,
    pub end: u32,
}

impl TextRange {
    pub open spec fn wf(self) -> bool {
        self.start <= self.end
    }

    /// The range `[start, end)`.
    pub fn from_to(start: u32, end: u32) -> (r: TextRange)
        requires
            start <= end,
        ensures
            r.start == start,
            r.end == end,
            r.wf(),
    {
        TextRange { start, end }
    }

    /// The range of `len` characters that starts at `offset`.
    pub fn offset_len(offset: u32, len: u32) -> (r: TextRange)
        requires
            offset + len <= u32::MAX,
        ensures
            r.start == offset,
            r.end == offset + len,
            r.wf(),
    {
        TextRange { start: offset, end: offset + len }
    }
}

/// One operation of an edit: the span `delete` of the text before the edit
/// is replaced by `insert`.
#[derive(Clone, Debug)]
pub struct AtomTextEdit {
    pub delete: TextRange,
    pub insert: String,
}

impl View for AtomTextEdit {
    type V = (TextRange, Seq<char>);

    open spec fn view(&self) -> (TextRange, Seq<char>) {
        (self.delete, self.insert@)
    }
}

/// The views of a sequence of operations.
pub open spec fn atom_views(s: Seq<AtomTextEdit>) -> Seq<(TextRange, Seq<char>)> {
    s.map_values(|a: AtomTextEdit| a@)
}

/// Operations are well formed, ordered by position and do not overlap.
pub open spec fn atoms_wf(s: Seq<(TextRange, Seq<char>)>) -> bool {
    &&& forall|i: int| 0 <= i < s.len() ==> (#[trigger] s[i]).0.wf()
    &&& forall|i: int, j: int|
        0 <= i < j < s.len() ==> (#[trigger] s[i]).0.end <= (#[trigger] s[j]).0.start
}

/// The text that results from applying the operations of `s` from index
/// `i` on to `text`, read from offset `from` on: the untouched text before
/// each operation, then what it inserts, then the rest of the text.
pub open spec fn apply_at(s: Seq<(TextRange, Seq<char>)>, text: Seq<char>, i: int, from: int) -> Seq<char>
    decreases s.len() - i,
{
    if i >= s.len() || i < 0 {
        text.subrange(from, text.len() as int)
    } else {
        text.subrange(from, s[i].0.start as int) + s[i].1 + apply_at(s, text, i + 1, s[i].0.end as int)
    }
}

/// The text that results from applying all operations of `s` to `text`.
pub open spec fn apply_spec(s: Seq<(TextRange, Seq<char>)>, text: Seq<char>) -> Seq<char> {
    apply_at(s, text, 0, 0)
}

/// The operations that replace `range` by `text`: an insertion at the
/// range's start, then the deletion of the range.
pub open spec fn replace_atoms(range: TextRange, text: Seq<char>) -> Seq<(TextRange, Seq<char>)> {
    seq![(TextRange { start: range.start, end: range.start }, text), (range, Seq::<char>::empty())]
}

/// The operation that deletes `range`.
pub open spec fn delete_atoms(range: TextRange) -> Seq<(TextRange, Seq<char>)> {
    seq![(range, Seq::<char>::empty())]
}

/// An edit of one file: ordered operations on disjoint spans of its text.
#[derive(Clone, Debug)]
pub struct TextEdit {
    pub atoms: Vec<AtomTextEdit>,
}

impl View for TextEdit {
    type V = Seq<(TextRange, Seq<char>)>;

    open spec fn view(&self) -> Seq<(TextRange, Seq<char>)> {
        atom_views(self.atoms@)
    }
}

impl TextEdit {
    pub open spec fn wf(&self) -> bool {
        atoms_wf(self@)
    }

    /// The edit that replaces `range` by `text`: an insertion of `text` at
    /// the range's start followed by the deletion of the range.
    pub fn replace(range: TextRange, text: String) -> (r: TextEdit)
        requires
            range.wf(),
        ensures
            r@ == replace_atoms(range, text@),
            r.wf(),
    {
        let insert = AtomTextEdit { delete: TextRange::from_to(range.start, range.start), insert: text };
        let delete = AtomTextEdit { delete: range, insert: String::new() };
        let atoms = vec![insert, delete];
        let r = TextEdit { atoms };
        assert(r@ =~= seq![(TextRange { start: range.start, end: range.start }, text@), (range, Seq::<char>::empty())]);
        r
    }

    /// The edit that deletes `range`.
    pub fn delete(range: TextRange) -> (r: TextEdit)
        requires
            range.wf(),
        ensures
            r@ == delete_atoms(range),
            r.wf(),
    {
        let atoms = vec![AtomTextEdit { delete: range, insert: String::new() }];
        let r = TextEdit { atoms };
        assert(r@ =~= seq![(range, Seq::<char>::empty())]);
        r
    }

    /// Whether the edit can be applied to `text`: its operations are well
    /// formed, ordered and disjoint, and end inside the text.
    pub fn applies_to(&self, text: &str) -> (r: bool)
        ensures
            r == (self.wf() && (self@.len() > 0 ==> self@.last().0.end <= text@.len())),
    {
        let n = self.atoms.len();
        let len = text.unicode_len();
        let mut a: usize = 0;
        while a < n
            invariant
                n == self@.len(),
                self@.len() == self.atoms@.len(),
                0 <= a <= n,
                forall|i: int| 0 <= i < a ==> (#[trigger] self@[i]).0.wf(),
                forall|i: int, j: int|
                    0 <= i < a && i < j < n ==> (#[trigger] self@[i]).0.end <= (#[trigger] self@[j]).0.start,
            decreases n - a,
        {
            let da = self.atoms[a].delete;
            assert(self@[a as int].0 == da);
            if da.start > da.end {
                return false;
            }
            let mut b: usize = a + 1;
            while b < n
                invariant
                    n == self@.len(),
                    self@.len() == self.atoms@.len(),
                    0 <= a < b <= n,
                    da == self@[a as int].0,
                    forall|j: int| a < j < b ==> da.end <= (#[trigger] self@[j]).0.start,
                decreases n - b,
            {
                assert(self@[b as int].0 == self.atoms@[b as int].delete);
                if da.end > self.atoms[b].delete.start {
                    return false;
                }
                b = b + 1;
            }
            assert forall|i: int, j: int| 0 <= i < a + 1 && i < j < n implies (#[trigger] self@[i]).0.end
                <= (#[trigger] self@[j]).0.start by {
                if i == a {
                    assert(a < j < b);
                }
            }
            a = a + 1;
        }
        if n > 0 {
            assert(self@.last() == self.atoms@[n - 1]@);
            (self.atoms[n - 1].delete.end as usize) <= len
        } else {
            true
        }
    }

    /// Applies the edit to `text`, whose length bounds every span.
    pub fn apply(&self, text: &str) -> (r: String)
        requires
            self.wf(),
            self@.len() > 0 ==> self@.last().0.end <= text@.len(),
        ensures
            r@ == apply_spec(self@, text@),
    {
        let n = text.unicode_len();
        let mut buf = String::new();
        let mut prev: u32 = 0;
        let mut i: usize = 0;
        assert(buf@ + apply_at(self@, text@, 0, 0) =~= apply_spec(self@, text@));
        while i < self.atoms.len()
            invariant
                self.wf(),
                n == text@.len(),
                self@.len() == self.atoms@.len(),
                self@.len() > 0 ==> self@.last().0.end <= text@.len(),
                0 <= i <= self.atoms@.len(),
                i == 0 ==> prev == 0,
                i > 0 ==> prev == self@[i - 1].0.end,
                buf@ + apply_at(self@, text@, i as int, prev as int) == apply_spec(self@, text@),
            decreases self.atoms@.len() - i,
        {
            let atom = &self.atoms[i];
            let start = atom.delete.start;
            let ghost old_buf = buf@;
            proof {
                assert(self@[i as int] == atom@);
                if i > 0 {
                    assert(self@[i - 1].0.end <= self@[i as int].0.start);
                }
                lemma_end_bounded(self@, i as int);
            }
            let before = text.substring_char(prev as usize, start as usize);
            buf.append(before);
            buf.append(atom.insert.as_str());
            proof {
                let tail = apply_at(self@, text@, i + 1, atom.delete.end as int);
                assert(apply_at(self@, text@, i as int, prev as int) == before@ + atom.insert@ + tail);
                assert(old_buf + (before@ + atom.insert@ + tail) =~= buf@ + tail);
            }
            prev = atom.delete.end;
            i = i + 1;
        }
        proof {
            if self@.len() > 0 {
                lemma_end_bounded(self@, self@.len() - 1);
            }
        }
        let tail = text.substring_char(prev as usize, n);
        buf.append(tail);
        buf
    }
}

/// Every span of well-formed operations ends no later than the last one.
pub proof fn lemma_end_bounded(s: Seq<(TextRange, Seq<char>)>, i: int)
    requires
        atoms_wf(s),
        0 <= i < s.len(),
    ensures
        s[i].0.end <= s.last().0.end,
        s[i].0.start <= s[i].0.end,
{
    assert(s[i].0.wf());
    assert(s[s.len() - 1].0.wf());
}

} // verus!
