//! How operations that were put off are done.
//!
//! The operations that [`WindowState::finish_call`] hands out are done one after the other by a
//! [`DeferredRun`]. Telling the handler what was chosen in a dialog is itself a call of the
//! handler, after which further operations may be handed out; they are done before those that
//! are still waiting.

use vstd::prelude::*;

use crate::calls::{FileInfo, HandlerCall};
use crate::handle::WindowHandle;
use crate::tokens::FileDialogToken;
use crate::window::{DeferredOp, FileDialogOptions, HandlerEntry, Menu, WindowModel, WindowState};

verus! {

/// What a file dialog is for.
#[derive(Clone, Copy, Debug, PartialEq, Eq, Structural)]
pub enum FileDialogType {
    Open,
    Save,
}

/// A request for a file.
#[derive(Clone, Copy, Debug, PartialEq, Eq, Structural)]
pub struct FileRequest {
    pub dialog: FileDialogType,
    pub options: FileDialogOptions,
    pub token: FileDialogToken,
}

/// What is to be done for a deferred operation.
#[derive(Clone, Copy, Debug)]
pub enum DeferredAction {
    /// Run a file dialog, tell the handler the [`FileRequest::answer`], and go on with
    /// [`DeferredRun::told`].
    FileDialog(FileRequest),
    /// Pop a menu up, whose entries act on the window of the handle, and go on with
    /// [`DeferredRun::proceed`].
    PopupMenu { menu: Menu, owner: WindowHandle },
    /// Nothing: all is done.
    Done,
}

/// What is to be done for the operation.
pub open spec fn action_of(op: DeferredOp) -> DeferredAction {
    match op {
        DeferredOp::Open(options, token) => DeferredAction::FileDialog(
            FileRequest { dialog: FileDialogType::Open, options, token },
        ),
        DeferredOp::SaveAs(options, token) => DeferredAction::FileDialog(
            FileRequest { dialog: FileDialogType::Save, options, token },
        ),
        DeferredOp::ContextMenu(menu, owner) => DeferredAction::PopupMenu { menu, owner },
    }
}

/// `info` is the file with this path, or nothing where there is no path. The file type is not
/// known.
pub open spec fn is_choice(info: Option<FileInfo>, path: Option<Vec<u8>>) -> bool {
    match path {
        Some(bytes) => info matches Some(file) && file.path@ == bytes@ && file.format is None,
        None => info is None,
    }
}

impl FileRequest {
    /// `call` tells the handler, by the token of the request, what was chosen.
    pub open spec fn is_answered_by(self, call: HandlerCall, path: Option<Vec<u8>>) -> bool {
        match self.dialog {
            FileDialogType::Open => call matches HandlerCall::OpenFile(token, info) && token
                == self.token && is_choice(info, path),
            FileDialogType::Save => call matches HandlerCall::SaveAs(token, info) && token
                == self.token && is_choice(info, path),
        }
    }

    /// What the handler is told once the dialog is over. `path` is what was chosen, if anything
    /// was.
    pub fn answer(&self, path: Option<Vec<u8>>) -> (r: HandlerCall)
        ensures
            self.is_answered_by(r, path),
    {
        let info = match path {
            Some(path) => Some(FileInfo { path, format: None }),
            None => None,
        };
        match self.dialog {
            FileDialogType::Open => HandlerCall::OpenFile(self.token, info),
            FileDialogType::Save => HandlerCall::SaveAs(self.token, info),
        }
    }
}

/// Operations that are being done.
#[derive(Debug)]
pub struct DeferredRun {
    /// What is still waiting, in this order.
    pub pending: Vec<DeferredOp>,
}

impl View for DeferredRun {
    type V = Seq<DeferredOp>;

    open spec fn view(&self) -> Seq<DeferredOp> {
        self.pending@
    }
}

/// What is done next of what is waiting, and what is waiting then.
pub open spec fn next_of(waiting: Seq<DeferredOp>) -> (Seq<DeferredOp>, DeferredAction) {
    if waiting.len() == 0 {
        (waiting, DeferredAction::Done)
    } else {
        (waiting.drop_first(), action_of(waiting[0]))
    }
}

/// What of the queue is handed out after a call of the handler, or the attempt at one.
pub open spec fn handed_out(m: WindowModel, entry: HandlerEntry) -> Seq<DeferredOp> {
    if entry is Refused {
        Seq::empty()
    } else {
        m.deferred_queue
    }
}

/// What is waiting once further operations were handed out in the course of a run: they come
/// before those that were waiting.
pub open spec fn resumed(handed: Seq<DeferredOp>, waiting: Seq<DeferredOp>) -> Seq<DeferredOp> {
    handed + waiting
}

impl DeferredRun {
    /// The operations, to be done in this order.
    pub fn new(ops: Vec<DeferredOp>) -> (r: DeferredRun)
        ensures
            r@ == ops@,
    {
        DeferredRun { pending: ops }
    }

    /// What is to be done for the first operation of those that are waiting.
    pub fn proceed(&mut self) -> (r: DeferredAction)
        ensures
            (final(self)@, r) == next_of(old(self)@),
    {
        if self.pending.len() == 0 {
            return DeferredAction::Done;
        }
        let op = self.pending.remove(0);
        assert(self.pending@ == old(self)@.drop_first());
        match op {
            DeferredOp::Open(options, token) => DeferredAction::FileDialog(
                FileRequest { dialog: FileDialogType::Open, options, token },
            ),
            DeferredOp::SaveAs(options, token) => DeferredAction::FileDialog(
                FileRequest { dialog: FileDialogType::Save, options, token },
            ),
            DeferredOp::ContextMenu(menu, owner) => DeferredAction::PopupMenu { menu, owner },
        }
    }

    /// The handler was told what was chosen, by a call that began with this entry, or could not
    /// be. Ends that call and goes on.
    pub fn told(&mut self, window: &mut WindowState, entry: HandlerEntry) -> (r: DeferredAction)
        requires
            old(window)@.wf(),
            entry is Entered ==> old(window)@.handler_borrowed && !(old(
                window,
            )@.surface_use is Shared),
        ensures
            (final(self)@, r) == next_of(
                resumed(handed_out(old(window)@, entry), old(self)@),
            ),
            final(window)@ == crate::window::finished(old(window)@, entry),
            final(window)@.wf(),
    {
        let mut ops = window.finish_call(entry);
        ops.append(&mut self.pending);
        self.pending = ops;
        self.proceed()
    }
}

}
