//! The syntax tree of one file, as an arena of nodes over the file's text.
use vstd::prelude::*;
use crate::text_edit::TextRange;

verus! {

/// What a node of the tree stands for.
#[derive(Clone, Copy, Debug, PartialEq, Eq, Structural)]
pub enum SyntaxKind {
    SourceFile,
    UseItem,
    /// One import of a use declaration: a path, possibly followed by a group.
    UseTree,
    /// The braced group `{ ... }` of a use tree.
    UseTreeList,
    Path,
    PathSegment,
    NameRef,
    SelfKw,
    ColonColon,
    /// A record literal `Name { field: value, ... }`.
    StructLit,
    NamedFieldList,
    NamedField,
    /// Any expression other than a record literal.
    Expr,
    /// Punctuation, keywords, names and trivia with no kind of their own here.
    Token,
    /// Any other construct.
    Other,
}

/// A node: its kind, its span of the text, its parent and its children in
/// text order (tokens included).
#[derive(Debug)]
pub struct SyntaxNode {
    pub kind: SyntaxKind,
    pub range: TextRange,
    pub parent: Option<usize>,
    pub children: Vec<usize>,
}

/// Where the parser found an error.
#[derive(Clone, Copy, Debug, PartialEq, Eq, Structural)]
pub enum Location {
    Offset(u32),
    Range(TextRange),
}

/// An error that the parser attached to the tree.
#[derive(Debug)]
pub struct SyntaxError {
    pub message: String,
    pub location: Location,
}

/// A parsed file: its text, its nodes (the root first, then the others in
/// document order) and the parse errors.
#[derive(Debug)]
pub struct SyntaxTree {
    pub text: String,
    pub nodes: Vec<SyntaxNode>,
    pub errors: Vec<SyntaxError>,
}

impl SyntaxTree {
    pub open spec fn node(&self, i: int) -> SyntaxNode {
        self.nodes@[i]
    }

    pub open spec fn kind(&self, i: int) -> SyntaxKind {
        self.nodes@[i].kind
    }

    pub open spec fn range(&self, i: int) -> TextRange {
        self.nodes@[i].range
    }

    pub open spec fn children(&self, i: int) -> Seq<usize> {
        self.nodes@[i].children@
    }

    /// Node `i` has a range inside the text, and its children are nodes whose
    /// parent it is, distinct, ordered, and inside its range.
    pub open spec fn node_wf(&self, i: int) -> bool {
        let n = self.nodes@.len();
        let ch = self.children(i);
        &&& self.range(i).wf()
        &&& self.range(i).end <= self.text@.len()
        &&& (self.node(i).parent matches Some(p) ==> p < n)
        &&& forall|k: int|
            0 <= k < ch.len() ==> {
                &&& #[trigger] ch[k] < n
                &&& self.node(ch[k] as int).parent == Some(i as usize)
                &&& self.range(i).start <= self.range(ch[k] as int).start
                &&& self.range(ch[k] as int).end <= self.range(i).end
            }
        &&& forall|k: int, l: int|
            0 <= k < l < ch.len() ==> {
                &&& #[trigger] ch[k] != #[trigger] ch[l]
                &&& self.range(ch[k] as int).end <= self.range(ch[l] as int).start
            }
    }

    /// An error's location fits in the offsets of the text.
    pub open spec fn location_wf(&self, loc: Location) -> bool {
        match loc {
            Location::Offset(o) => o < u32::MAX,
            Location::Range(r) => r.wf(),
        }
    }

    pub open spec fn wf(&self) -> bool {
        &&& self.text@.len() < u32::MAX
        &&& forall|i: int| 0 <= i < self.nodes@.len() ==> #[trigger] self.node_wf(i)
        &&& forall|e: int|
            0 <= e < self.errors@.len() ==> self.location_wf(#[trigger] self.errors@[e].location)
    }

    /// The text that node `i` spans.
    pub open spec fn text_of(&self, i: int) -> Seq<char> {
        self.text@.subrange(self.range(i).start as int, self.range(i).end as int)
    }

    /// Whether some child of `i` has kind `k`, the first one being at index `j`.
    pub open spec fn is_first_of_kind(&self, i: int, k: SyntaxKind, j: int) -> bool {
        let ch = self.children(i);
        &&& 0 <= j < ch.len()
        &&& self.kind(ch[j] as int) == k
        &&& forall|j2: int| 0 <= j2 < j ==> self.kind(#[trigger] ch[j2] as int) != k
    }

    /// The first child of `i` that has kind `k`.
    pub open spec fn first_child_spec(&self, i: int, k: SyntaxKind) -> Option<usize> {
        if exists|j: int| self.is_first_of_kind(i, k, j) {
            let j = choose|j: int| self.is_first_of_kind(i, k, j);
            Some(self.children(i)[j])
        } else {
            None
        }
    }

    /// The nodes of `s` that have kind `k`, in order.
    pub open spec fn of_kind(&self, s: Seq<usize>, k: SyntaxKind) -> Seq<usize>
        decreases s.len(),
    {
        if s.len() == 0 {
            Seq::empty()
        } else if self.kind(s.last() as int) == k {
            self.of_kind(s.drop_last(), k).push(s.last())
        } else {
            self.of_kind(s.drop_last(), k)
        }
    }

    /// The children of `i` that have kind `k`, in order.
    pub open spec fn children_of_kind_spec(&self, i: int, k: SyntaxKind) -> Seq<usize> {
        self.of_kind(self.children(i), k)
    }

    /// Whether node `i` is the child of `p` at index `k`.
    pub open spec fn is_child_at(&self, p: int, i: int, k: int) -> bool {
        0 <= k < self.children(p).len() && self.children(p)[k] == i
    }

    /// The index of node `i` among the children of `p`.
    pub open spec fn index_among(&self, p: int, i: int) -> int {
        choose|k: int| self.is_child_at(p, i, k)
    }

    /// The sibling just before node `i`, if it has a parent and is not its
    /// first child.
    pub open spec fn prev_sibling_spec(&self, i: int) -> Option<usize> {
        match self.node(i).parent {
            None => None,
            Some(p) => {
                let k = self.index_among(p as int, i);
                if self.is_child_at(p as int, i, k) && k > 0 {
                    Some(self.children(p as int)[k - 1])
                } else {
                    None
                }
            },
        }
    }

    /// The first child of node `i` that has kind `k`.
    pub fn first_child(&self, i: usize, k: SyntaxKind) -> (r: Option<usize>)
        requires
            self.wf(),
            i < self.nodes@.len(),
        ensures
            r == self.first_child_spec(i as int, k),
            r matches Some(c) ==> c < self.nodes@.len(),
    {
        let ch = &self.nodes[i].children;
        let mut j: usize = 0;
        assert(self.node_wf(i as int));
        while j < ch.len()
            invariant
                self.wf(),
                i < self.nodes@.len(),
                ch@ == self.children(i as int),
                0 <= j <= ch@.len(),
                forall|j2: int| 0 <= j2 < j ==> self.kind(#[trigger] ch@[j2] as int) != k,
            decreases ch@.len() - j,
        {
            let c = ch[j];
            assert(self.node_wf(i as int));
            assert(c < self.nodes@.len());
            if self.nodes[c].kind == k {
                assert(self.is_first_of_kind(i as int, k, j as int));
                proof {
                    let j0 = choose|j0: int| self.is_first_of_kind(i as int, k, j0);
                    if j0 < j {
                        assert(self.kind(ch@[j0] as int) != k);
                    }
                    if j < j0 {
                        assert(self.kind(ch@[j as int] as int) != k);
                    }
                }
                return Some(c);
            }
            j = j + 1;
        }
        assert(!exists|j0: int| self.is_first_of_kind(i as int, k, j0));
        None
    }

    /// The children of node `i` that have kind `k`, in order.
    pub fn children_of_kind(&self, i: usize, k: SyntaxKind) -> (r: Vec<usize>)
        requires
            self.wf(),
            i < self.nodes@.len(),
        ensures
            r@ == self.children_of_kind_spec(i as int, k),
            forall|j: int| 0 <= j < r@.len() ==> #[trigger] r@[j] < self.nodes@.len(),
    {
        let ch = &self.nodes[i].children;
        let mut out: Vec<usize> = Vec::new();
        let mut j: usize = 0;
        assert(self.node_wf(i as int));
        while j < ch.len()
            invariant
                self.wf(),
                i < self.nodes@.len(),
                ch@ == self.children(i as int),
                0 <= j <= ch@.len(),
                out@ == self.of_kind(ch@.subrange(0, j as int), k),
                forall|m: int| 0 <= m < out@.len() ==> #[trigger] out@[m] < self.nodes@.len(),
            decreases ch@.len() - j,
        {
            let c = ch[j];
            assert(self.node_wf(i as int));
            assert(c < self.nodes@.len());
            assert(ch@.subrange(0, j + 1).drop_last() =~= ch@.subrange(0, j as int));
            if self.nodes[c].kind == k {
                out.push(c);
            }
            j = j + 1;
        }
        assert(ch@.subrange(0, j as int) =~= ch@);
        out
    }

    /// The sibling just before node `i`.
    pub fn prev_sibling(&self, i: usize) -> (r: Option<usize>)
        requires
            self.wf(),
            i < self.nodes@.len(),
        ensures
            r == self.prev_sibling_spec(i as int),
            r matches Some(c) ==> c < self.nodes@.len(),
    {
        assert(self.node_wf(i as int));
        match self.nodes[i].parent {
            None => None,
            Some(p) => {
                let ch = &self.nodes[p].children;
                assert(self.node_wf(p as int));
                let mut k: usize = 0;
                while k < ch.len()
                    invariant
                        self.wf(),
                        p < self.nodes@.len(),
                        self.node(i as int).parent == Some(p),
                        ch@ == self.children(p as int),
                        0 <= k <= ch@.len(),
                        forall|k2: int| 0 <= k2 < k ==> #[trigger] ch@[k2] != i,
                    decreases ch@.len() - k,
                {
                    if ch[k] == i {
                        proof {
                            assert(self.node_wf(p as int));
                            assert(self.is_child_at(p as int, i as int, k as int));
                            let k0 = self.index_among(p as int, i as int);
                            assert(self.is_child_at(p as int, i as int, k0));
                            if k0 < k {
                                assert(ch@[k0] != i);
                            }
                            if k < k0 {
                                assert(ch@[k as int] != ch@[k0]);
                            }
                            assert(k0 == k);
                        }
                        if k > 0 {
                            assert(ch@[k - 1] < self.nodes@.len());
                            return Some(ch[k - 1]);
                        } else {
                            return None;
                        }
                    }
                    k = k + 1;
                }
                None
            },
        }
    }

    /// Whether node `i` is well formed, for a text of `len` characters.
    fn check_node(&self, i: usize, len: usize) -> (r: bool)
        requires
            i < self.nodes@.len(),
            len == self.text@.len(),
        ensures
            r == self.node_wf(i as int),
    {
        let n = self.nodes.len();
        let node = &self.nodes[i];
        let range = node.range;
        if range.start > range.end || range.end as usize > len {
            return false;
        }
        match node.parent {
            Some(p) => {
                if p >= n {
                    return false;
                }
            },
            None => {},
        }
        let ch = &node.children;
        let mut k: usize = 0;
        while k < ch.len()
            invariant
                i < self.nodes@.len(),
                n == self.nodes@.len(),
                ch@ == self.children(i as int),
                range == self.range(i as int),
                0 <= k <= ch@.len(),
                forall|k2: int|
                    0 <= k2 < k ==> {
                        &&& #[trigger] ch@[k2] < n
                        &&& self.node(ch@[k2] as int).parent == Some(i)
                        &&& range.start <= self.range(ch@[k2] as int).start
                        &&& self.range(ch@[k2] as int).end <= range.end
                    },
            decreases ch@.len() - k,
        {
            let c = ch[k];
            if c >= n {
                return false;
            }
            let child = &self.nodes[c];
            if child.parent != Some(i) || child.range.start < range.start || child.range.end > range.end {
                return false;
            }
            k = k + 1;
        }
        let mut a: usize = 0;
        while a < ch.len()
            invariant
                i < self.nodes@.len(),
                n == self.nodes@.len(),
                ch@ == self.children(i as int),
                0 <= a <= ch@.len(),
                forall|k2: int| 0 <= k2 < ch@.len() ==> #[trigger] ch@[k2] < n,
                forall|k1: int, k2: int|
                    0 <= k1 < a && k1 < k2 < ch@.len() ==> {
                        &&& #[trigger] ch@[k1] != #[trigger] ch@[k2]
                        &&& self.range(ch@[k1] as int).end <= self.range(ch@[k2] as int).start
                    },
            decreases ch@.len() - a,
        {
            let ca = ch[a];
            let mut b: usize = a + 1;
            while b < ch.len()
                invariant
                    i < self.nodes@.len(),
                    n == self.nodes@.len(),
                    ch@ == self.children(i as int),
                    0 <= a < b <= ch@.len(),
                    ca == ch@[a as int],
                    forall|k2: int| 0 <= k2 < ch@.len() ==> #[trigger] ch@[k2] < n,
                    forall|k2: int|
                        a < k2 < b ==> {
                            &&& ca != #[trigger] ch@[k2]
                            &&& self.range(ca as int).end <= self.range(ch@[k2] as int).start
                        },
                decreases ch@.len() - b,
            {
                let cb = ch[b];
                assert(ch@[b as int] < n);
                if ca == cb || self.nodes[ca].range.end > self.nodes[cb].range.start {
                    assert(!(ch@[a as int] != ch@[b as int] && self.range(ch@[a as int] as int).end
                        <= self.range(ch@[b as int] as int).start));
                    return false;
                }
                b = b + 1;
            }
            assert forall|k1: int, k2: int|
                0 <= k1 < a + 1 && k1 < k2 < ch@.len() implies {
                    &&& #[trigger] ch@[k1] != #[trigger] ch@[k2]
                    &&& self.range(ch@[k1] as int).end <= self.range(ch@[k2] as int).start
                } by {
                if k1 == a {
                    assert(a < k2 < b);
                }
            }
            a = a + 1;
        }
        true
    }

    /// Whether the tree is well formed, as the checks require.
    pub fn is_well_formed(&self) -> (r: bool)
        ensures
            r == self.wf(),
    {
        let len = self.text.as_str().unicode_len();
        if len >= 0xFFFF_FFFF {
            return false;
        }
        let mut e: usize = 0;
        while e < self.errors.len()
            invariant
                0 <= e <= self.errors@.len(),
                forall|e2: int| 0 <= e2 < e ==> self.location_wf(#[trigger] self.errors@[e2].location),
            decreases self.errors@.len() - e,
        {
            let ok = match self.errors[e].location {
                Location::Offset(o) => o < 0xFFFF_FFFF,
                Location::Range(r) => r.start <= r.end,
            };
            if !ok {
                assert(!self.location_wf(self.errors@[e as int].location));
                return false;
            }
            e = e + 1;
        }
        let mut i: usize = 0;
        while i < self.nodes.len()
            invariant
                len == self.text@.len(),
                len < u32::MAX,
                0 <= i <= self.nodes@.len(),
                forall|e2: int| 0 <= e2 < self.errors@.len() ==> self.location_wf(#[trigger] self.errors@[e2].location),
                forall|i2: int| 0 <= i2 < i ==> #[trigger] self.node_wf(i2),
            decreases self.nodes@.len() - i,
        {
            if !self.check_node(i, len) {
                return false;
            }
            i = i + 1;
        }
        true
    }

    /// The text that node `i` spans.
    pub fn node_text(&self, i: usize) -> (r: String)
        requires
            self.wf(),
            i < self.nodes@.len(),
        ensures
            r@ == self.text_of(i as int),
    {
        assert(self.node_wf(i as int));
        let range = self.nodes[i].range;
        let s = self.text.as_str().substring_char(range.start as usize, range.end as usize);
        String::from_str(s)
    }
}

} // verus!
