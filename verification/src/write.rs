//! Putting data on the clipboard.
use vstd::prelude::*;
use crate::context::{ClipboardContext, ClipboardData, ContextView, DataView};
use crate::error::{into_unknown, unit_result, Error, ErrorView};
use crate::protocol::{request_view, Reply, ReplyView, Request, RequestView, CURRENT_TIME};

verus! {

/// The putting of data on the clipboard. We have to own the selection first.
#[derive(Debug)]
pub enum Write {
    AskingOwner(ClipboardData),
    Claiming(ClipboardData),
    Flushing(ClipboardData),
    Finished(Result<(), Error>),
}

/// The mathematical value of a [`Write`].
pub enum WriteView {
    AskingOwner(DataView),
    Claiming(DataView),
    Flushing(DataView),
    Finished(Result<(), ErrorView>),
}

impl View for Write {
    type V = WriteView;

    open spec fn view(&self) -> WriteView {
        match self {
            Write::AskingOwner(data) => WriteView::AskingOwner(data@),
            Write::Claiming(data) => WriteView::Claiming(data@),
            Write::Flushing(data) => WriteView::Flushing(data@),
            Write::Finished(result) => WriteView::Finished(unit_result(*result)),
        }
    }
}

/// Why nothing can be written once requests are no longer answered.
pub open spec fn stopped_text() -> Seq<char> {
    "The clipboard handler thread seems to have stopped. Logging messages may reveal the cause. (See the `log` crate.)"@
}

impl WriteView {
    /// A writing that is about to begin, unless nobody would answer for it.
    pub open spec fn start(context: ContextView, data: DataView) -> WriteView {
        if context.serve_stopped {
            WriteView::Finished(Err(ErrorView::Unknown { description: stopped_text() }))
        } else {
            WriteView::AskingOwner(data)
        }
    }

    /// What has to be done next.
    pub open spec fn pending(self, context: ContextView) -> Option<RequestView> {
        match self {
            WriteView::AskingOwner(_) => Some(
                RequestView::GetSelectionOwner { selection: context.atoms.CLIPBOARD },
            ),
            WriteView::Claiming(_) => Some(
                RequestView::SetSelectionOwner {
                    owner: context.server.win_id,
                    selection: context.atoms.CLIPBOARD,
                    time: CURRENT_TIME,
                },
            ),
            WriteView::Flushing(_) => Some(RequestView::Flush),
            WriteView::Finished(_) => None,
        }
    }

    /// The writing after a reply. A reply to something else changes nothing.
    pub open spec fn next(self, context: ContextView, reply: ReplyView) -> WriteView {
        match (self, reply) {
            (WriteView::AskingOwner(data), ReplyView::Owner(owner)) => if context.owns(owner) {
                WriteView::Finished(Ok(()))
            } else {
                WriteView::Claiming(data)
            },
            (WriteView::AskingOwner(_), ReplyView::Failed(description)) => WriteView::Finished(
                Err(ErrorView::Unknown { description }),
            ),
            (WriteView::Claiming(data), ReplyView::Done) => WriteView::Flushing(data),
            (WriteView::Claiming(_), ReplyView::Failed(_)) => WriteView::Finished(
                Err(ErrorView::ClipboardOccupied),
            ),
            (WriteView::Flushing(_), ReplyView::Done) => WriteView::Finished(Ok(())),
            (WriteView::Flushing(_), ReplyView::Failed(description)) => WriteView::Finished(
                Err(ErrorView::Unknown { description }),
            ),
            _ => self,
        }
    }

    /// The data that is being written.
    pub open spec fn data(self) -> Option<DataView> {
        match self {
            WriteView::AskingOwner(data) => Some(data),
            WriteView::Claiming(data) => Some(data),
            WriteView::Flushing(data) => Some(data),
            WriteView::Finished(_) => None,
        }
    }

    /// The clipboard after a reply: it changes just when the writing succeeds,
    /// and then holds the data.
    pub open spec fn context_after(self, context: ContextView, reply: ReplyView) -> ContextView {
        if self.data() is Some && self.next(context, reply) == WriteView::Finished(Ok(())) {
            ContextView { data: self.data(), ..context }
        } else {
            context
        }
    }
}

impl ClipboardContext {
    /// Starts to put data on the clipboard.
    pub fn write(&self, data: ClipboardData) -> (write: Write)
        ensures
            write@ == WriteView::start(self@, data@),
    {
        if self.serve_stopped {
            return Write::Finished(
                Err(
                    into_unknown(
                        "The clipboard handler thread seems to have stopped. Logging messages may reveal the cause. (See the `log` crate.)".to_string(),
                    ),
                ),
            );
        }
        Write::AskingOwner(data)
    }
}

impl Write {
    /// What has to be done next; `None` once the writing is over.
    pub fn request(&self, context: &ClipboardContext) -> (request: Option<Request>)
        ensures
            request_view(request) == self@.pending(context@),
    {
        match self {
            Write::AskingOwner(_) => Some(
                Request::GetSelectionOwner { selection: context.atoms.CLIPBOARD },
            ),
            Write::Claiming(_) => Some(
                Request::SetSelectionOwner {
                    owner: context.server.win_id,
                    selection: context.atoms.CLIPBOARD,
                    time: CURRENT_TIME,
                },
            ),
            Write::Flushing(_) => Some(Request::Flush),
            Write::Finished(_) => None,
        }
    }

    /// Takes the reply to the request.
    pub fn step(&mut self, context: &mut ClipboardContext, reply: Reply)
        ensures
            final(self)@ == old(self)@.next(old(context)@, reply@),
            final(context)@ == old(self)@.context_after(old(context)@, reply@),
    {
        let mut state = Write::Finished(Ok(()));
        std::mem::swap(&mut state, self);
        *self = match (state, reply) {
            (Write::AskingOwner(data), Reply::Owner(owner)) => {
                // Only if the current owner isn't us, we try to become it.
                if context.is_owner(owner) {
                    context.data = Some(data);
                    Write::Finished(Ok(()))
                } else {
                    Write::Claiming(data)
                }
            },
            (Write::AskingOwner(_), Reply::Failed(description)) => Write::Finished(
                Err(into_unknown(description)),
            ),
            (Write::Claiming(data), Reply::Done) => Write::Flushing(data),
            (Write::Claiming(_), Reply::Failed(_)) => Write::Finished(
                Err(Error::ClipboardOccupied),
            ),
            (Write::Flushing(data), Reply::Done) => {
                context.data = Some(data);
                Write::Finished(Ok(()))
            },
            (Write::Flushing(_), Reply::Failed(description)) => Write::Finished(
                Err(into_unknown(description)),
            ),
            (state, _) => state,
        };
    }
}

} // verus!
