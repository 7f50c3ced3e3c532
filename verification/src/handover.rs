//! Handing our data over to the clipboard manager, so that it outlives us.
use vstd::prelude::*;
use crate::context::{ClipboardContext, ContextView, ManagerHandoverState};
use crate::error::{into_unknown, unit_result, Error, ErrorView};
use crate::protocol::{
    request_view, Conversion, Reply, ReplyView, Request, RequestView, CURRENT_TIME,
};

verus! {

/// How long the clipboard manager may take, in milliseconds.
pub const HANDOVER_TIMEOUT: u64 = 100;

/// The handover. From the conversion on, the clipboard has to stay locked up to
/// the wait: otherwise a request of the manager could be answered before the
/// handover counts as in progress.
#[derive(Debug)]
pub enum Handover {
    AskingOwner,
    Converting,
    Flushing,
    Waiting,
    Finished(Result<(), Error>),
}

/// The mathematical value of a [`Handover`].
pub enum HandoverView {
    AskingOwner,
    Converting,
    Flushing,
    Waiting,
    Finished(Result<(), ErrorView>),
}

impl View for Handover {
    type V = HandoverView;

    open spec fn view(&self) -> HandoverView {
        match self {
            Handover::AskingOwner => HandoverView::AskingOwner,
            Handover::Converting => HandoverView::Converting,
            Handover::Flushing => HandoverView::Flushing,
            Handover::Waiting => HandoverView::Waiting,
            Handover::Finished(result) => HandoverView::Finished(unit_result(*result)),
        }
    }
}

impl HandoverView {
    /// A handover that is about to begin, if we have a window.
    pub open spec fn start(context: ContextView) -> HandoverView {
        if context.server.win_id == 0 {
            HandoverView::Finished(Ok(()))
        } else {
            HandoverView::AskingOwner
        }
    }

    /// What has to be done next.
    pub open spec fn pending(self, context: ContextView) -> Option<RequestView> {
        match self {
            HandoverView::AskingOwner => Some(
                RequestView::GetSelectionOwner { selection: context.atoms.CLIPBOARD },
            ),
            HandoverView::Converting => Some(
                RequestView::ConvertSelection(
                    Conversion {
                        requestor: context.server.win_id,
                        selection: context.atoms.CLIPBOARD_MANAGER,
                        target: context.atoms.SAVE_TARGETS,
                        property: context.atoms.ARBOARD_CLIPBOARD,
                        time: CURRENT_TIME,
                    },
                ),
            ),
            HandoverView::Flushing => Some(RequestView::Flush),
            HandoverView::Waiting => Some(
                RequestView::WaitForHandover { millis: HANDOVER_TIMEOUT },
            ),
            HandoverView::Finished(_) => None,
        }
    }

    /// The handover after a reply. Without the selection or without data there
    /// is nothing to hand over. A reply to something else changes nothing.
    pub open spec fn next(self, context: ContextView, reply: ReplyView) -> HandoverView {
        match (self, reply) {
            (HandoverView::AskingOwner, ReplyView::Owner(owner)) => if context.owns(owner)
                && context.data is Some {
                HandoverView::Converting
            } else {
                HandoverView::Finished(Ok(()))
            },
            (HandoverView::Converting, ReplyView::Done) => HandoverView::Flushing,
            (HandoverView::Flushing, ReplyView::Done) => HandoverView::Waiting,
            (HandoverView::Waiting, ReplyView::HandoverWaited { .. }) => HandoverView::Finished(
                Ok(()),
            ),
            (HandoverView::Waiting, _) => self,
            (HandoverView::Finished(_), _) => self,
            (_, ReplyView::Failed(description)) => HandoverView::Finished(
                Err(ErrorView::Unknown { description }),
            ),
            _ => self,
        }
    }

    /// The clipboard after a reply: once the manager was asked, the handover is
    /// in progress.
    pub open spec fn context_after(self, context: ContextView, reply: ReplyView) -> ContextView {
        if self is Flushing && reply is Done {
            ContextView { handover_state: ManagerHandoverState::InProgress, ..context }
        } else {
            context
        }
    }
}

impl ClipboardContext {
    /// Starts to hand our data over to the clipboard manager.
    pub fn ask_clipboard_manager_to_request_our_data(&self) -> (handover: Handover)
        ensures
            handover@ == HandoverView::start(self@),
    {
        if self.server.win_id == 0 {
            // This shouldn't really ever happen but let's just check.
            Handover::Finished(Ok(()))
        } else {
            Handover::AskingOwner
        }
    }
}

impl Handover {
    /// What has to be done next; `None` once the handover is over.
    pub fn request(&self, context: &ClipboardContext) -> (request: Option<Request>)
        ensures
            request_view(request) == self@.pending(context@),
    {
        match self {
            Handover::AskingOwner => Some(
                Request::GetSelectionOwner { selection: context.atoms.CLIPBOARD },
            ),
            Handover::Converting => Some(
                Request::ConvertSelection(
                    Conversion {
                        requestor: context.server.win_id,
                        selection: context.atoms.CLIPBOARD_MANAGER,
                        target: context.atoms.SAVE_TARGETS,
                        property: context.atoms.ARBOARD_CLIPBOARD,
                        time: CURRENT_TIME,
                    },
                ),
            ),
            Handover::Flushing => Some(Request::Flush),
            Handover::Waiting => Some(Request::WaitForHandover { millis: HANDOVER_TIMEOUT }),
            Handover::Finished(_) => None,
        }
    }

    /// Takes the reply to the request.
    pub fn step(&mut self, context: &mut ClipboardContext, reply: Reply)
        ensures
            final(self)@ == old(self)@.next(old(context)@, reply@),
            final(context)@ == old(self)@.context_after(old(context)@, reply@),
    {
        match (&*self, reply) {
            (Handover::AskingOwner, Reply::Owner(owner)) => {
                *self = if !context.is_owner(owner) {
                    // We are not owning the clipboard, nothing to do.
                    Handover::Finished(Ok(()))
                } else if context.data.is_none() {
                    // If we don't have any data, there's nothing to do.
                    Handover::Finished(Ok(()))
                } else {
                    Handover::Converting
                };
            },
            (Handover::Converting, Reply::Done) => {
                *self = Handover::Flushing;
            },
            (Handover::Flushing, Reply::Done) => {
                context.handover_state = ManagerHandoverState::InProgress;
                *self = Handover::Waiting;
            },
            (Handover::Waiting, Reply::HandoverWaited { .. }) => {
                *self = Handover::Finished(Ok(()));
            },
            (Handover::Waiting, _) => {},
            (Handover::Finished(_), _) => {},
            (_, Reply::Failed(description)) => {
                *self = Handover::Finished(Err(into_unknown(description)));
            },
            _ => {},
        }
    }
}

} // verus!
