//! The compiled item table: an immutable association from normalized item
//! key to the item's formatted book lines, in source order.

use vstd::prelude::*;
use crate::text::str_eq;

verus! {

/// One item's compiled output: one formatted line per book, in source
/// order, each line carrying its own trailing newline.
pub struct CompiledEntry {
    pub lines: Vec<String>,
}

impl CompiledEntry {
    /// The views of the formatted lines, in order.
    pub open spec fn lines_view(self) -> Seq<Seq<char>> {
        self.lines.deep_view()
    }
}

/// One table row: the normalized (lower-cased) item key and its entry.
pub struct TableEntry {
    pub key: String,
    pub entry: CompiledEntry,
}

/// The per-language item table.  Rows keep the order of the source records;
/// the well-formedness invariant keeps the keys pairwise distinct, so each
/// key names exactly one entry.
pub struct ItemTable {
    pub rows: Vec<TableEntry>,
}

impl ItemTable {
    pub open spec fn row_count(self) -> int {
        self.rows@.len() as int
    }

    pub open spec fn key_at(self, i: int) -> Seq<char> {
        self.rows@[i].key@
    }

    pub open spec fn lines_at(self, i: int) -> Seq<Seq<char>> {
        self.rows@[i].entry.lines_view()
    }

    /// The keys in table order.
    pub open spec fn keys(self) -> Seq<Seq<char>> {
        Seq::new(self.rows@.len(), |i: int| self.key_at(i))
    }

    /// Keys are pairwise distinct: a lookup result is unambiguous.
    pub open spec fn wf(self) -> bool {
        forall|i: int, j: int|
            0 <= i < j < self.row_count() ==> self.key_at(i) != self.key_at(j)
    }

    pub open spec fn has_key(self, k: Seq<char>) -> bool {
        exists|i: int| 0 <= i < self.row_count() && self.key_at(i) == k
    }

    pub open spec fn index_of(self, k: Seq<char>) -> int {
        choose|i: int| 0 <= i < self.row_count() && self.key_at(i) == k
    }

    /// The formatted lines stored under key `k`.
    pub open spec fn lines_for(self, k: Seq<char>) -> Seq<Seq<char>> {
        self.lines_at(self.index_of(k))
    }

    /// Decides well-formedness at runtime, for callers outside the verified
    /// world that need to establish `wf` before handing the table on.
    pub fn check_wf(&self) -> (r: bool)
        ensures
            r == self.wf(),
    {
        let n: usize = self.rows.len();
        let mut i: usize = 0;
        while i < n
            invariant
                0 <= i <= n,
                n == self.rows@.len(),
                forall|p: int, q: int|
                    0 <= p < i && p < q < n ==> self.key_at(p) != self.key_at(q),
            decreases n - i,
        {
            let mut j: usize = i + 1;
            while j < n
                invariant
                    i < j <= n,
                    n == self.rows@.len(),
                    forall|p: int, q: int|
                        0 <= p < i && p < q < n ==> self.key_at(p) != self.key_at(q),
                    forall|q: int| i < q < j ==> self.key_at(i as int) != self.key_at(q),
                decreases n - j,
            {
                if str_eq(self.rows[i].key.as_str(), self.rows[j].key.as_str()) {
                    proof {
                        assert(self.key_at(i as int) == self.key_at(j as int));
                        assert(!self.wf());
                    }
                    return false;
                }
                j = j + 1;
            }
            i = i + 1;
        }
        true
    }

    /// Linear search for `key`; `None` exactly when the table lacks it.
    pub fn find(&self, key: &str) -> (r: Option<usize>)
        ensures
            match r {
                Some(i) => {
                    &&& i < self.row_count()
                    &&& self.key_at(i as int) == key@
                    &&& self.has_key(key@)
                },
                None => !self.has_key(key@),
            },
    {
        let n: usize = self.rows.len();
        let mut i: usize = 0;
        while i < n
            invariant
                0 <= i <= n,
                n == self.rows@.len(),
                forall|j: int| 0 <= j < i ==> self.key_at(j) != key@,
            decreases n - i,
        {
            if str_eq(self.rows[i].key.as_str(), key) {
                return Some(i);
            }
            i = i + 1;
        }
        None
    }
}

} // verus!
