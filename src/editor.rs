//! The document an editor window holds: its text buffer, where it is stored,
//! and the decisions that loading, saving and closing take.

use vstd::prelude::*;
use std::path::PathBuf;
use crate::buffer::ContentsBuffer;
use crate::diff::DiffView;

verus! {

/// A file system path, carried through unchanged.
#[verifier::external_type_specification]
#[verifier::external_body]
pub struct ExPathBuf(PathBuf);

/// An I/O failure reported by whoever read or wrote the file, handed back
/// unchanged.
#[verifier::external_type_specification]
#[verifier::external_body]
pub struct ExIoError(std::io::Error);

/// One open document.
#[derive(Debug)]
pub struct Editor {
    path: Option<PathBuf>,
    last_selection_dir: Option<PathBuf>,
    trying_to_close: bool,
    contents: ContentsBuffer,
}

impl Default for Editor {
    /// An editor with a fresh buffer that belongs to no file.
    fn default() -> (r: Self)
        ensures
            r.buffer().is_fresh(),
            r.spec_path() is None,
            r.spec_last_selection_dir() is None,
            !r.spec_trying_to_close(),
    {
        Editor {
            path: None,
            last_selection_dir: None,
            trying_to_close: false,
            contents: ContentsBuffer::default(),
        }
    }
}

impl Editor {
    /// The file the document was loaded from or last saved as.
    pub closed spec fn spec_path(&self) -> Option<PathBuf> {
        self.path
    }

    /// The directory a file picker starts in.
    pub closed spec fn spec_last_selection_dir(&self) -> Option<PathBuf> {
        self.last_selection_dir
    }

    /// Whether the user has asked to close while there are unsaved changes.
    pub closed spec fn spec_trying_to_close(&self) -> bool {
        self.trying_to_close
    }

    /// The document's text buffer.
    pub closed spec fn buffer(&self) -> ContentsBuffer {
        self.contents
    }

    /// Discards the document: the buffer becomes fresh and no file is
    /// associated with it any more.
    pub fn reset(&mut self)
        ensures
            final(self).buffer().is_fresh(),
            final(self).spec_path() is None,
            final(self).spec_last_selection_dir() == old(self).spec_last_selection_dir(),
            final(self).spec_trying_to_close() == old(self).spec_trying_to_close(),
    {
        self.contents = ContentsBuffer::default();
        self.path = None;
    }

    /// Takes the outcome of reading the file at `path`. When the read
    /// succeeded its text becomes the document, which is clean, has an empty
    /// journal and belongs to `path`; when it failed nothing changes and the
    /// error is handed back.
    pub fn open_file(&mut self, path: PathBuf, read: std::io::Result<String>) -> (r:
        std::io::Result<()>)
        ensures
            read is Ok ==> {
                &&& r is Ok
                &&& final(self).buffer().contents == read->Ok_0
                &&& !final(self).buffer().edited
                &&& final(self).buffer().mutable == old(self).buffer().mutable
                &&& final(self).buffer().journal@ == Seq::<DiffView>::empty()
                &&& final(self).buffer().replays_from(read->Ok_0@)
                &&& final(self).spec_path() == Some(path)
                &&& final(self).spec_last_selection_dir() == old(self).spec_last_selection_dir()
                &&& final(self).spec_trying_to_close() == old(self).spec_trying_to_close()
            },
            read is Err ==> r == Err::<(), std::io::Error>(read->Err_0) && *final(self) == *old(
                self,
            ),
    {
        match read {
            Ok(text) => {
                self.contents.load(text);
                self.path = Some(path);
                Ok(())
            },
            Err(e) => Err(e),
        }
    }

    /// Takes the outcome of writing the document's text to its file. When the
    /// write succeeded the document is clean; when it failed nothing changes
    /// and the error is handed back.
    pub fn save_file(&mut self, written: std::io::Result<()>) -> (r: std::io::Result<()>)
        ensures
            written is Ok ==> {
                &&& r is Ok
                &&& !final(self).buffer().edited
                &&& final(self).buffer().contents == old(self).buffer().contents
                &&& final(self).buffer().mutable == old(self).buffer().mutable
                &&& final(self).buffer().journal == old(self).buffer().journal
                &&& final(self).spec_path() == old(self).spec_path()
                &&& final(self).spec_last_selection_dir() == old(self).spec_last_selection_dir()
                &&& final(self).spec_trying_to_close() == old(self).spec_trying_to_close()
            },
            written is Err ==> r == written && *final(self) == *old(self),
    {
        match written {
            Ok(()) => {
                self.contents.set_edited(false);
                Ok(())
            },
            Err(e) => Err(e),
        }
    }

    /// Takes the outcome of writing the document's text to `path`, a file the
    /// user picked. When the write succeeded the document is clean and
    /// belongs to `path` from now on; when it failed nothing changes and the
    /// error is handed back.
    pub fn save_as(&mut self, path: PathBuf, written: std::io::Result<()>) -> (r:
        std::io::Result<()>)
        ensures
            written is Ok ==> {
                &&& r is Ok
                &&& !final(self).buffer().edited
                &&& final(self).buffer().contents == old(self).buffer().contents
                &&& final(self).buffer().mutable == old(self).buffer().mutable
                &&& final(self).buffer().journal == old(self).buffer().journal
                &&& final(self).spec_path() == Some(path)
                &&& final(self).spec_last_selection_dir() == old(self).spec_last_selection_dir()
                &&& final(self).spec_trying_to_close() == old(self).spec_trying_to_close()
            },
            written is Err ==> r == written && *final(self) == *old(self),
    {
        match self.save_file(written) {
            Ok(()) => {
                self.path = Some(path);
                Ok(())
            },
            Err(e) => Err(e),
        }
    }

    /// Where a save of the document goes: the file it belongs to, or `None`
    /// when it belongs to none and the user has to pick one.
    pub fn save(&self) -> (r: Option<&PathBuf>)
        ensures
            r is None <==> self.spec_path() is None,
            r matches Some(p) ==> self.spec_path() == Some(*p),
    {
        self.path.as_ref()
    }

    /// The file the document belongs to, if any.
    pub fn path(&self) -> (r: Option<&PathBuf>)
        ensures
            r is None <==> self.spec_path() is None,
            r matches Some(p) ==> self.spec_path() == Some(*p),
    {
        self.path.as_ref()
    }

    /// The directory a file picker starts in, if any.
    pub fn last_selection_dir(&self) -> (r: Option<&PathBuf>)
        ensures
            r is None <==> self.spec_last_selection_dir() is None,
            r matches Some(p) ==> self.spec_last_selection_dir() == Some(*p),
    {
        self.last_selection_dir.as_ref()
    }

    /// The document's text buffer.
    pub fn contents(&self) -> (r: &ContentsBuffer)
        ensures
            *r == self.buffer(),
    {
        &self.contents
    }

    /// The document's text buffer, borrowed for editing; the rest of the
    /// document stays as it is.
    pub fn contents_mut(&mut self) -> (r: &mut ContentsBuffer)
        ensures
            *r == old(self).buffer(),
            final(self).buffer() == *final(r),
            final(self).spec_path() == old(self).spec_path(),
            final(self).spec_last_selection_dir() == old(self).spec_last_selection_dir(),
            final(self).spec_trying_to_close() == old(self).spec_trying_to_close(),
    {
        &mut self.contents
    }

    /// Whether a request to close is waiting for the user to confirm it.
    pub fn trying_to_close(&self) -> (r: bool)
        ensures
            r == self.spec_trying_to_close(),
    {
        self.trying_to_close
    }

    /// The application is exiting: ask the user to confirm.
    pub fn on_exit(&mut self)
        ensures
            final(self).spec_trying_to_close(),
            final(self).buffer() == old(self).buffer(),
            final(self).spec_path() == old(self).spec_path(),
            final(self).spec_last_selection_dir() == old(self).spec_last_selection_dir(),
    {
        self.trying_to_close = true;
    }

    /// The user asked to close the window. Returns whether the close must be
    /// held back: that is so when the document has unsaved changes and no
    /// confirmation is pending yet, and then a confirmation becomes pending.
    pub fn close_requested(&mut self) -> (hold: bool)
        ensures
            hold == (!old(self).spec_trying_to_close() && old(self).buffer().edited),
            final(self).spec_trying_to_close() == (old(self).spec_trying_to_close() || hold),
            final(self).buffer() == old(self).buffer(),
            final(self).spec_path() == old(self).spec_path(),
            final(self).spec_last_selection_dir() == old(self).spec_last_selection_dir(),
    {
        if !self.trying_to_close && self.dirty() {
            self.trying_to_close = true;
            true
        } else {
            false
        }
    }

    /// The user withdrew the request to close.
    pub fn keep_open(&mut self)
        ensures
            !final(self).spec_trying_to_close(),
            final(self).buffer() == old(self).buffer(),
            final(self).spec_path() == old(self).spec_path(),
            final(self).spec_last_selection_dir() == old(self).spec_last_selection_dir(),
    {
        self.trying_to_close = false;
    }

    /// Whether the document has unsaved changes.
    pub fn dirty(&self) -> (r: bool)
        ensures
            r == self.buffer().edited,
    {
        self.contents.edited()
    }
}

} // verus!
