//! Edit operations and the journal that records them.

use vstd::prelude::*;

verus! {

/// One recorded edit: text inserted at, or removed from, a character offset.
#[derive(Debug, Clone, PartialEq, Eq)]
pub enum Diff {
    /// The text was inserted starting at the character offset.
    Add(String, usize),
    /// The text (the characters that were removed) was removed starting at the
    /// character offset.
    Remove(String, usize),
}

/// The mathematical value of a [`Diff`]: its text as characters and its offset.
pub enum DiffView {
    Add(Seq<char>, nat),
    Remove(Seq<char>, nat),
}

impl View for Diff {
    type V = DiffView;

    open spec fn view(&self) -> DiffView {
        match self {
            Diff::Add(t, p) => DiffView::Add(t@, *p as nat),
            Diff::Remove(t, p) => DiffView::Remove(t@, *p as nat),
        }
    }
}

/// The operation that undoes `op`.
pub open spec fn inverse(op: Diff) -> Diff {
    match op {
        Diff::Add(t, p) => Diff::Remove(t, p),
        Diff::Remove(t, p) => Diff::Add(t, p),
    }
}

impl DiffView {
    /// The operation that undoes this one.
    pub open spec fn inverse(self) -> DiffView {
        match self {
            DiffView::Add(t, p) => DiffView::Remove(t, p),
            DiffView::Remove(t, p) => DiffView::Add(t, p),
        }
    }

    /// Whether this operation describes a change that can be made to `text`:
    /// its offset lies within the text and, for a removal, the removed
    /// characters are the ones found there.
    pub open spec fn applicable(self, text: Seq<char>) -> bool {
        match self {
            DiffView::Add(_, p) => p <= text.len(),
            DiffView::Remove(t, p) => p + t.len() <= text.len() && text.subrange(
                p as int,
                (p + t.len()) as int,
            ) == t,
        }
    }

    /// The text that results from applying this operation to `text`.
    pub open spec fn apply(self, text: Seq<char>) -> Seq<char> {
        match self {
            DiffView::Add(t, p) => text.subrange(0, p as int) + t + text.subrange(
                p as int,
                text.len() as int,
            ),
            DiffView::Remove(t, p) => text.subrange(0, p as int) + text.subrange(
                (p + t.len()) as int,
                text.len() as int,
            ),
        }
    }
}

/// Replaying `ops` in order against `start`: the final text, or `None` when
/// some operation does not apply to the text that precedes it.
pub open spec fn replay(start: Seq<char>, ops: Seq<DiffView>) -> Option<Seq<char>>
    decreases ops.len(),
{
    if ops.len() == 0 {
        Some(start)
    } else {
        match replay(start, ops.drop_last()) {
            Some(text) => if ops.last().applicable(text) {
                Some(ops.last().apply(text))
            } else {
                None
            },
            None => None,
        }
    }
}

impl Diff {
    /// The operation that undoes this one: an insertion becomes the removal
    /// of the same text at the same offset, and the other way round.
    pub fn invert(self) -> (r: Self)
        ensures
            r == inverse(self),
            r@ == self@.inverse(),
    {
        match self {
            Diff::Add(a, b) => Diff::Remove(a, b),
            Diff::Remove(a, b) => Diff::Add(a, b),
        }
    }
}

/// Inverting twice gives back the operation itself.
pub proof fn lemma_inverse_involution(op: Diff)
    ensures
        inverse(inverse(op)) == op,
        op@.inverse().inverse() == op@,
{
}

/// Applying an operation and then its inverse restores the text it was
/// applied to.
pub proof fn lemma_inverse_round_trip(text: Seq<char>, op: DiffView)
    requires
        op.applicable(text),
    ensures
        op.inverse().applicable(op.apply(text)),
        op.inverse().apply(op.apply(text)) == text,
{
    let n = text.len() as int;
    let after = op.apply(text);
    match op {
        DiffView::Add(t, p) => {
            let p = p as int;
            assert(after.subrange(p, p + t.len()) =~= t);
            assert(after.subrange(0, p) =~= text.subrange(0, p));
            assert(after.subrange(p + t.len(), after.len() as int) =~= text.subrange(p, n));
            assert(op.inverse().apply(after) =~= text);
        },
        DiffView::Remove(t, p) => {
            let p = p as int;
            assert(after.subrange(0, p) =~= text.subrange(0, p));
            assert(after.subrange(p, after.len() as int) =~= text.subrange(p + t.len(), n));
            assert(op.inverse().apply(after) =~= text);
        },
    }
}

/// Replaying one more operation extends the replay of the earlier ones by
/// that operation, provided it applies to their result.
pub proof fn lemma_replay_push(start: Seq<char>, ops: Seq<DiffView>, op: DiffView)
    ensures
        replay(start, ops.push(op)) == match replay(start, ops) {
            Some(text) => if op.applicable(text) {
                Some(op.apply(text))
            } else {
                None
            },
            None => None,
        },
{
    assert(ops.push(op).drop_last() =~= ops);
}

/// The edit journal: the operations made on a document, oldest first.
#[derive(Debug, Clone)]
pub struct DiffBuffer {
    diffs: Vec<Diff>,
}

impl View for DiffBuffer {
    type V = Seq<DiffView>;

    closed spec fn view(&self) -> Seq<DiffView> {
        self.diffs@.map_values(|d: Diff| d@)
    }
}

impl DiffBuffer {
    /// An empty journal.
    pub fn new() -> (r: Self)
        ensures
            r@ == Seq::<DiffView>::empty(),
    {
        let r = DiffBuffer { diffs: Vec::new() };
        assert(r@ =~= Seq::<DiffView>::empty());
        r
    }

    /// The number of recorded operations.
    pub fn size(&self) -> (r: usize)
        ensures
            r == self@.len(),
    {
        self.diffs.len()
    }

    /// Records that `text` was inserted at character offset `position`.
    pub fn add(&mut self, text: String, position: usize)
        ensures
            final(self)@ == old(self)@.push(DiffView::Add(text@, position as nat)),
    {
        self.add_change(Diff::Add(text, position))
    }

    /// Records that `text` was removed from character offset `position`.
    pub fn delete(&mut self, text: String, position: usize)
        ensures
            final(self)@ == old(self)@.push(DiffView::Remove(text@, position as nat)),
    {
        self.add_change(Diff::Remove(text, position))
    }

    /// Appends `diff` after every operation recorded so far.
    pub fn add_change(&mut self, diff: Diff)
        ensures
            final(self)@ == old(self)@.push(diff@),
    {
        let ghost before = self.diffs@;
        self.diffs.push(diff);
        assert(self.diffs@.map_values(|d: Diff| d@) =~= before.map_values(|d: Diff| d@).push(
            diff@,
        ));
    }

    /// The operation at `index`, counting from the oldest.
    pub fn get(&self, index: usize) -> (r: Option<&Diff>)
        ensures
            index < self@.len() ==> (r matches Some(d) && d@ == self@[index as int]),
            index >= self@.len() ==> r is None,
    {
        if index < self.diffs.len() {
            Some(&self.diffs[index])
        } else {
            None
        }
    }

    /// The most recently recorded operation, if any.
    pub fn peek_last(&self) -> (r: Option<&Diff>)
        ensures
            self@.len() > 0 ==> (r matches Some(d) && d@ == self@.last()),
            self@.len() == 0 ==> r is None,
    {
        if self.diffs.len() > 0 {
            Some(&self.diffs[self.diffs.len() - 1])
        } else {
            None
        }
    }

    /// Removes and returns the most recently recorded operation, if any.
    pub fn pop_last(&mut self) -> (r: Option<Diff>)
        ensures
            old(self)@.len() > 0 ==> (r matches Some(d) && d@ == old(self)@.last()),
            old(self)@.len() > 0 ==> final(self)@ == old(self)@.drop_last(),
            old(self)@.len() == 0 ==> r is None && final(self)@ == old(self)@,
    {
        let ghost before = self.diffs@;
        let r = self.diffs.pop();
        proof {
            if before.len() > 0 {
                assert(self.diffs@.map_values(|d: Diff| d@) =~= before.map_values(
                    |d: Diff| d@,
                ).drop_last());
            }
        }
        r
    }
}

} // verus!
