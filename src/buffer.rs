//! The text buffer behind an editing surface: the document text, a dirty
//! flag, a mutability flag, and the journal of the edits made to the text.

use vstd::prelude::*;
use vstd::string::*;
use crate::diff::{lemma_replay_push, replay, DiffBuffer, DiffView};

verus! {

/// Why a mutation of a [`ContentsBuffer`] was refused.
#[derive(Debug, Clone, Copy, PartialEq, Eq, Structural)]
pub enum EditError {
    /// A character offset or range lies outside the text, or a range is reversed.
    InvalidRange,
    /// The buffer is read-only.
    NotMutable,
}

/// Relies on egui's `TextBuffer::insert_text` for `String`: the text goes in
/// at the byte position of character `char_index`, and the number of
/// characters inserted is returned.
#[verifier::external_body]
fn string_insert(s: &mut String, text: &str, char_index: usize) -> (r: usize)
    requires
        char_index <= old(s)@.len(),
    ensures
        final(s)@ == old(s)@.subrange(0, char_index as int) + text@ + old(s)@.subrange(
            char_index as int,
            old(s)@.len() as int,
        ),
        r == text@.len(),
{
    <String as egui::TextBuffer>::insert_text(s, text, char_index)
}

/// Relies on egui's `TextBuffer::delete_char_range` for `String`: the
/// characters from `start` up to `end` are drained.
#[verifier::external_body]
fn string_delete(s: &mut String, start: usize, end: usize)
    requires
        start <= end <= old(s)@.len(),
    ensures
        final(s)@ == old(s)@.subrange(0, start as int) + old(s)@.subrange(
            end as int,
            old(s)@.len() as int,
        ),
{
    <String as egui::TextBuffer>::delete_char_range(s, start..end)
}

/// Relies on egui's `TextBuffer::clear` for `String`, which empties it.
#[verifier::external_body]
fn string_clear(s: &mut String)
    ensures
        final(s)@ == Seq::<char>::empty(),
{
    <String as egui::TextBuffer>::clear(s)
}

/// Relies on egui's `TextBuffer::take` for `String`, which moves the text
/// out and leaves an empty string.
#[verifier::external_body]
fn string_take(s: &mut String) -> (r: String)
    ensures
        r@ == old(s)@,
        final(s)@ == Seq::<char>::empty(),
{
    <String as egui::TextBuffer>::take(s)
}

/// Relies on egui's `TextBuffer::replace_with` for `String`, which sets it
/// to a copy of `text`.
#[verifier::external_body]
fn string_replace_with(s: &mut String, text: &str)
    ensures
        final(s)@ == text@,
{
    <String as egui::TextBuffer>::replace_with(s, text)
}

/// The document text with its dirty flag, its mutability flag and its edit
/// journal.
#[derive(Debug, Clone)]
pub struct ContentsBuffer {
    /// The document text.
    pub contents: String,
    /// Whether the text has changed since it was last loaded or saved.
    pub edited: bool,
    /// Whether the text may be changed at all.
    pub mutable: bool,
    /// Every change made to the text, in the order it was made.
    pub journal: DiffBuffer,
}

impl Default for ContentsBuffer {
    /// An empty, clean, writable buffer with an empty journal.
    fn default() -> (r: Self)
        ensures
            r.is_fresh(),
            r.replays_from(Seq::<char>::empty()),
    {
        ContentsBuffer { contents: String::new(), edited: false, mutable: true, journal: DiffBuffer::new() }
    }
}

impl ContentsBuffer {
    /// An empty, clean, writable buffer with an empty journal.
    pub open spec fn is_fresh(&self) -> bool {
        &&& self.contents@ == Seq::<char>::empty()
        &&& !self.edited
        &&& self.mutable
        &&& self.journal@ == Seq::<DiffView>::empty()
    }

    /// Replaying the journal against `start` gives the current text.
    pub open spec fn replays_from(&self, start: Seq<char>) -> bool {
        replay(start, self.journal@) == Some(self.contents@)
    }

    /// A failed mutation: the error, and nothing changed.
    pub open spec fn refused<T>(
        &self,
        after: &Self,
        r: Result<T, EditError>,
        e: EditError,
    ) -> bool {
        r == Err::<T, EditError>(e) && *after == *self
    }

    /// A successful mutation that records `ops` and leaves their effect on
    /// the text: the journal grows by `ops`, the text becomes `text`, the
    /// buffer is marked edited, and every replay that gave the old text gives
    /// the new one.
    pub open spec fn changed(&self, after: &Self, ops: Seq<DiffView>, text: Seq<char>) -> bool {
        &&& after.journal@ == self.journal@ + ops
        &&& after.contents@ == text
        &&& after.edited
        &&& after.mutable == self.mutable
        &&& forall|s: Seq<char>| #[trigger]
            self.replays_from(s) ==> after.replays_from(s)
    }

    /// The text, borrowed.
    pub fn get_contents(&self) -> (r: &String)
        ensures
            *r == self.contents,
    {
        &self.contents
    }

    /// The text, borrowed for writing. Changes made through it bypass the
    /// journal and the dirty flag; the rest of the buffer stays as it is.
    pub fn get_contents_mut(&mut self) -> (r: &mut String)
        ensures
            *r == old(self).contents,
            final(self).contents == *final(r),
            final(self).edited == old(self).edited,
            final(self).mutable == old(self).mutable,
            final(self).journal == old(self).journal,
    {
        &mut self.contents
    }

    /// Whether the text has changed since it was last loaded or saved.
    pub fn edited(&self) -> (r: bool)
        ensures
            r == self.edited,
    {
        self.edited
    }

    /// Sets the dirty flag. Clearing it is how loading and saving mark the
    /// text clean; it is not recorded in the journal.
    pub fn set_edited(&mut self, edited: bool)
        ensures
            final(self).edited == edited,
            final(self).contents == old(self).contents,
            final(self).mutable == old(self).mutable,
            final(self).journal == old(self).journal,
    {
        self.edited = edited;
    }

    /// Makes `text` the document: the text becomes `text`, the journal starts
    /// afresh and the buffer is clean.
    pub fn load(&mut self, text: String)
        ensures
            final(self).contents == text,
            !final(self).edited,
            final(self).mutable == old(self).mutable,
            final(self).journal@ == Seq::<DiffView>::empty(),
            final(self).replays_from(text@),
    {
        self.contents = text;
        self.journal = DiffBuffer::new();
        self.set_edited(false);
    }

    /// Whether the text may be changed.
    pub fn is_mutable(&self) -> (r: bool)
        ensures
            r == self.mutable,
    {
        self.mutable
    }

    /// The current text, borrowed.
    pub fn as_str(&self) -> (r: &str)
        ensures
            r@ == self.contents@,
    {
        self.contents.as_str()
    }

    /// Inserts `text` at character offset `char_index` and returns the number
    /// of characters inserted. The insertion is recorded in the journal and
    /// the buffer is marked edited. A read-only buffer, or an offset past the
    /// end of the text, is refused and nothing changes.
    pub fn insert_text(&mut self, text: &str, char_index: usize) -> (r: Result<usize, EditError>)
        ensures
            !old(self).mutable ==> old(self).refused(final(self), r, EditError::NotMutable),
            old(self).mutable && char_index > old(self).contents@.len() ==> old(self).refused(
                final(self),
                r,
                EditError::InvalidRange,
            ),
            old(self).mutable && char_index <= old(self).contents@.len() ==> {
                let op = DiffView::Add(text@, char_index as nat);
                &&& r == Ok::<usize, EditError>(text@.len() as usize)
                &&& old(self).changed(final(self), seq![op], op.apply(old(self).contents@))
            },
    {
        if !self.mutable {
            return Err(EditError::NotMutable);
        }
        if char_index > self.contents.as_str().unicode_len() {
            return Err(EditError::InvalidRange);
        }
        let ghost before = *self;
        let ghost op = DiffView::Add(text@, char_index as nat);
        self.journal.add(text.to_owned(), char_index);
        self.edited = true;
        let n = string_insert(&mut self.contents, text, char_index);
        proof {
            lemma_record(&before, self, op);
        }
        Ok(n)
    }

    /// Removes the characters from `char_range.start` up to `char_range.end`.
    /// The removed characters are recorded in the journal, with the offset
    /// they were removed from, and the buffer is marked edited. A read-only
    /// buffer, or a range that is reversed or runs past the end of the text,
    /// is refused and nothing changes.
    pub fn delete_char_range(&mut self, char_range: std::ops::Range<usize>) -> (r: Result<
        (),
        EditError,
    >)
        ensures
            !old(self).mutable ==> old(self).refused(final(self), r, EditError::NotMutable),
            old(self).mutable && !(char_range.start <= char_range.end <= old(self).contents@.len())
                ==> old(self).refused(final(self), r, EditError::InvalidRange),
            old(self).mutable && char_range.start <= char_range.end <= old(self).contents@.len()
                ==> {
                let removed = old(self).contents@.subrange(
                    char_range.start as int,
                    char_range.end as int,
                );
                let op = DiffView::Remove(removed, char_range.start as nat);
                &&& r == Ok::<(), EditError>(())
                &&& old(self).changed(final(self), seq![op], op.apply(old(self).contents@))
            },
    {
        if !self.mutable {
            return Err(EditError::NotMutable);
        }
        let start = char_range.start;
        let end = char_range.end;
        if !(start <= end && end <= self.contents.as_str().unicode_len()) {
            return Err(EditError::InvalidRange);
        }
        let ghost before = *self;
        let removed = self.contents.as_str().substring_char(start, end).to_owned();
        let ghost op = DiffView::Remove(removed@, start as nat);
        self.journal.delete(removed, start);
        self.edited = true;
        string_delete(&mut self.contents, start, end);
        proof {
            assert(op.apply(before.contents@) =~= self.contents@);
            lemma_record(&before, self, op);
        }
        Ok(())
    }

    /// Removes the whole text. The removal is recorded in the journal as one
    /// operation at offset zero, and the buffer is marked edited. A read-only
    /// buffer is refused and nothing changes.
    pub fn clear(&mut self) -> (r: Result<(), EditError>)
        ensures
            !old(self).mutable ==> old(self).refused(final(self), r, EditError::NotMutable),
            old(self).mutable ==> {
                let op = DiffView::Remove(old(self).contents@, 0);
                &&& r == Ok::<(), EditError>(())
                &&& old(self).changed(final(self), seq![op], Seq::<char>::empty())
            },
    {
        if !self.mutable {
            return Err(EditError::NotMutable);
        }
        let ghost before = *self;
        self.record_removal_of_all();
        string_clear(&mut self.contents);
        proof {
            lemma_removal_of_all(&before, self);
        }
        Ok(())
    }

    /// Moves the whole text out and leaves the buffer empty. This counts as a
    /// removal of the whole text: it is recorded in the journal and the
    /// buffer is marked edited. A read-only buffer is refused and nothing
    /// changes.
    pub fn take(&mut self) -> (r: Result<String, EditError>)
        ensures
            !old(self).mutable ==> old(self).refused(final(self), r, EditError::NotMutable),
            old(self).mutable ==> {
                let op = DiffView::Remove(old(self).contents@, 0);
                &&& r matches Ok(t) && t@ == old(self).contents@
                &&& old(self).changed(final(self), seq![op], Seq::<char>::empty())
            },
    {
        if !self.mutable {
            return Err(EditError::NotMutable);
        }
        let ghost before = *self;
        self.record_removal_of_all();
        let taken = string_take(&mut self.contents);
        proof {
            lemma_removal_of_all(&before, self);
        }
        Ok(taken)
    }

    /// Substitutes `text` for the whole text. The journal records the removal
    /// of the old text followed by the insertion of the new one, both at
    /// offset zero, and the buffer is marked edited. A read-only buffer is
    /// refused and nothing changes.
    pub fn replace(&mut self, text: &str) -> (r: Result<(), EditError>)
        ensures
            !old(self).mutable ==> old(self).refused(final(self), r, EditError::NotMutable),
            old(self).mutable ==> {
                let ops = seq![
                    DiffView::Remove(old(self).contents@, 0),
                    DiffView::Add(text@, 0),
                ];
                &&& r == Ok::<(), EditError>(())
                &&& old(self).changed(final(self), ops, text@)
            },
    {
        if !self.mutable {
            return Err(EditError::NotMutable);
        }
        let ghost before = *self;
        self.record_removal_of_all();
        let ghost rm = DiffView::Remove(before.contents@, 0);
        let ghost add = DiffView::Add(text@, 0);
        let ghost middle = self.journal@;
        self.journal.add(text.to_owned(), 0);
        string_replace_with(&mut self.contents, text);
        proof {
            let n = before.contents@.len() as int;
            assert(before.contents@.subrange(0, n) =~= before.contents@);
            assert(rm.apply(before.contents@) =~= Seq::<char>::empty());
            assert(add.apply(Seq::<char>::empty()) =~= text@);
            lemma_extend(before.journal@, before.contents@, rm);
            lemma_extend(middle, Seq::<char>::empty(), add);
            assert(before.journal@ + seq![rm, add] =~= middle.push(add));
            assert forall|s: Seq<char>| #[trigger] before.replays_from(s) implies self.replays_from(
                s,
            ) by {
                assert(replay(s, before.journal@) == Some(before.contents@));
                assert(replay(s, middle) == Some(Seq::<char>::empty()));
            }
        }
        Ok(())
    }

    /// Records the removal of the whole text and marks the buffer edited,
    /// leaving the text itself as it is.
    fn record_removal_of_all(&mut self)
        ensures
            final(self).journal@ == old(self).journal@.push(
                DiffView::Remove(old(self).contents@, 0),
            ),
            final(self).contents == old(self).contents,
            final(self).edited,
            final(self).mutable == old(self).mutable,
    {
        let all = self.contents.clone();
        self.journal.delete(all, 0);
        self.edited = true;
    }
}

/// The removal of the whole text, once recorded and applied, keeps every
/// replay of the journal in step with the now empty text.
proof fn lemma_removal_of_all(before: &ContentsBuffer, after: &ContentsBuffer)
    requires
        after.journal@ == before.journal@.push(DiffView::Remove(before.contents@, 0)),
        after.contents@ == Seq::<char>::empty(),
    ensures
        after.journal@ == before.journal@ + seq![DiffView::Remove(before.contents@, 0)],
        forall|s: Seq<char>| #[trigger] before.replays_from(s) ==> after.replays_from(s),
{
    let op = DiffView::Remove(before.contents@, 0);
    let n = before.contents@.len() as int;
    assert(before.contents@.subrange(0, n) =~= before.contents@);
    assert(op.apply(before.contents@) =~= Seq::<char>::empty());
    lemma_record(before, after, op);
}

/// Recording `op` and applying it to the text keeps every replay of the
/// journal in step with the text.
proof fn lemma_record(before: &ContentsBuffer, after: &ContentsBuffer, op: DiffView)
    requires
        after.journal@ == before.journal@.push(op),
        op.applicable(before.contents@),
        after.contents@ == op.apply(before.contents@),
    ensures
        after.journal@ == before.journal@ + seq![op],
        forall|s: Seq<char>| #[trigger] before.replays_from(s) ==> after.replays_from(s),
{
    assert(before.journal@.push(op) =~= before.journal@ + seq![op]);
    lemma_extend(before.journal@, before.contents@, op);
}

/// An operation that applies to the text a journal replays to extends that
/// replay by its own effect.
proof fn lemma_extend(journal: Seq<DiffView>, text: Seq<char>, op: DiffView)
    requires
        op.applicable(text),
    ensures
        forall|s: Seq<char>| #[trigger]
            replay(s, journal) == Some(text) ==> replay(s, journal.push(op)) == Some(
                op.apply(text),
            ),
{
    assert forall|s: Seq<char>| #[trigger] replay(s, journal) == Some(text) implies replay(
        s,
        journal.push(op),
    ) == Some(op.apply(text)) by {
        lemma_replay_push(s, journal, op);
    }
}

} // verus!
