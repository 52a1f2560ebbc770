//! The flat line store backing the spatial grid: an unordered list of lines
//! that may hold duplicates, with constant-time swap-removal. Removing a line
//! that is not last moves the last line into its slot and reports the index
//! rewrite the grid must perform.

use vstd::prelude::*;

use crate::line::Line;

verus! {

/// An index into the store's flat line list.
#[derive(Clone, Copy, PartialEq, Eq, Hash, Debug, Structural)]
pub struct StoreIndex(pub usize);

/// What a removal did to the store's indices.
pub enum RemoveLineResult {
    /// The line was not in the store.
    NoneRemoved,
    /// The last line moved from index `from` to index `to`; every stored
    /// reference to `from` must be rewritten to `to`.
    RemovedAndNeedsSwap { from: StoreIndex, to: StoreIndex },
    /// The removed line was last; no index moved.
    RemovedNoSwap(StoreIndex),
}

/// An unordered list of lines with duplicates and swap-removal.
#[derive(Clone, Debug)]
pub struct RawStore {
    lines: Vec<Line>,
}

/// The first index at which `line` occurs in `s`, or the length of `s` when
/// it does not occur.
pub open spec fn spec_find_line(s: Seq<Line>, line: Line) -> int
    decreases s.len(),
{
    if s.len() == 0 {
        0
    } else if s[0] == line {
        0
    } else {
        1 + spec_find_line(s.drop_first(), line)
    }
}

pub proof fn lemma_find_line(s: Seq<Line>, line: Line)
    ensures
        0 <= spec_find_line(s, line) <= s.len(),
        spec_find_line(s, line) < s.len() ==> s[spec_find_line(s, line)] == line,
        forall|k: int| 0 <= k < spec_find_line(s, line) ==> s[k] != line,
        s.contains(line) <==> spec_find_line(s, line) < s.len(),
    decreases s.len(),
{
    if s.len() == 0 {
        assert(!s.contains(line));
    } else if s[0] == line {
        assert(s.contains(line));
    } else {
        lemma_find_line(s.drop_first(), line);
        let f = spec_find_line(s, line);
        assert forall|k: int| 0 <= k < f implies s[k] != line by {
            if k > 0 {
                assert(s.drop_first()[k - 1] == s[k]);
            }
        }
        if f < s.len() {
            assert(s.drop_first()[f - 1] == s[f]);
            assert(s.contains(line));
        } else {
            if s.contains(line) {
                let w = choose|w: int| 0 <= w < s.len() && s[w] == line;
                assert(s.drop_first()[w - 1] == s[w]);
                assert(s.drop_first().contains(line));
            }
        }
    }
}

/// Adding a line and then removing the same line value restores the stored
/// sequence exactly, and in particular leaves it a permutation of the
/// original: the removal hits the first occurrence of the value, and the
/// swap moves the just-added copy into its place. The two branches below are
/// the two removal outcomes of `remove_line` after an `add_line` of `line`.
pub proof fn lemma_add_then_remove_restores(s: Seq<Line>, line: Line)
    ensures
        ({
            let s1 = s.push(line);
            let f = spec_find_line(s1, line);
            &&& f < s1.len()
            &&& f == s1.len() - 1 ==> s1.take(f) == s
            &&& f < s1.len() - 1 ==> s1.update(f, s1.last()).drop_last() == s
        }),
{
    let s1 = s.push(line);
    lemma_find_line(s1, line);
    assert(s1[s1.len() - 1] == line);
    assert(s1.contains(line));
    let f = spec_find_line(s1, line);
    if f == s1.len() - 1 {
        assert(s1.take(f) =~= s);
    } else {
        assert(s1[f] == line);
        assert(s1.last() == line);
        assert(s1.update(f, s1.last()) =~= s1);
        assert(s1.update(f, s1.last()).drop_last() =~= s);
    }
}

impl RawStore {
    /// The stored lines, in storage order.
    pub closed spec fn spec_lines(&self) -> Seq<Line> {
        self.lines@
    }

    /// An empty store.
    pub fn new() -> (r: RawStore)
        ensures
            r.spec_lines() == Seq::<Line>::empty(),
    {
        let lines: Vec<Line> = Vec::new();
        proof {
            assert(lines@ =~= Seq::<Line>::empty());
        }
        RawStore { lines }
    }

    /// All lines with their indices.
    pub fn all_lines(&self) -> (r: &Vec<Line>)
        ensures
            r@ == self.spec_lines(),
    {
        &self.lines
    }

    /// How many lines the store holds.
    pub fn len(&self) -> (r: usize)
        ensures
            r == self.spec_lines().len(),
    {
        self.lines.len()
    }

    /// The line at an index, if the index is in range.
    pub fn line_at(&self, idx: StoreIndex) -> (r: Option<Line>)
        ensures
            r == if idx.0 < self.spec_lines().len() {
                Some(self.spec_lines()[idx.0 as int])
            } else {
                None::<Line>
            },
    {
        if idx.0 < self.lines.len() {
            Some(self.lines[idx.0])
        } else {
            None
        }
    }

    /// Appends a line and returns its index.
    pub fn add_line(&mut self, line: Line) -> (r: StoreIndex)
        ensures
            final(self).spec_lines() == old(self).spec_lines().push(line),
            r == StoreIndex(old(self).spec_lines().len() as usize),
    {
        let idx = self.lines.len();
        self.lines.push(line);
        StoreIndex(idx)
    }

    /// Removes the first occurrence of a line. When the removed slot is not
    /// last, the last line is moved into it and the result names the index
    /// rewrite; the store's other indices stay valid.
    pub fn remove_line(&mut self, line: &Line) -> (r: RemoveLineResult)
        ensures
            ({
                let s = old(self).spec_lines();
                let f = spec_find_line(s, *line);
                match r {
                    RemoveLineResult::NoneRemoved => f == s.len() && final(self).spec_lines() == s,
                    RemoveLineResult::RemovedNoSwap(idx) => idx.0 == f && f == s.len() - 1
                        && final(self).spec_lines() == s.take(f),
                    RemoveLineResult::RemovedAndNeedsSwap { from, to } => from.0 == s.len() - 1
                        && to.0 == f && f < s.len() - 1 && final(self).spec_lines() == s.update(
                        f,
                        s.last(),
                    ).drop_last(),
                }
            }),
    {
        proof {
            lemma_find_line(old(self).spec_lines(), *line);
        }
        let ghost s = self.lines@;
        let mut i: usize = 0;
        let n = self.lines.len();
        while i < n && !(self.lines[i] == *line)
            invariant
                n == self.lines.len(),
                i <= n,
                self.lines@ == s,
                forall|k: int| 0 <= k < i ==> s[k] != *line,
            decreases n - i,
        {
            i = i + 1;
        }
        proof {
            assert(i == spec_find_line(s, *line)) by {
                let f = spec_find_line(s, *line);
                if i < n {
                    assert(s[i as int] == *line);
                    assert(f <= i);
                    assert(f >= i);
                } else {
                    assert(f >= i);
                }
            }
        }
        if i == n {
            return RemoveLineResult::NoneRemoved;
        }
        self.lines.swap_remove(i);
        if self.lines.len() == i {
            proof {
                assert(final(self).spec_lines() =~= s.take(i as int));
            }
            RemoveLineResult::RemovedNoSwap(StoreIndex(i))
        } else {
            RemoveLineResult::RemovedAndNeedsSwap {
                from: StoreIndex(self.lines.len()),
                to: StoreIndex(i),
            }
        }
    }
}

} // verus!
