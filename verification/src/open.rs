//! Opening the clipboard of this process.
use vstd::prelude::*;
use crate::atoms::{atom_name_list, Atoms};
use crate::context::{ClipboardContext, ContextView};
use crate::error::{into_unknown, Error, ErrorView};
use crate::protocol::{request_view, Reply, ReplyView, Request, RequestView};
use crate::window::{OpenWindow, OpenWindowView, XContext};

verus! {

/// The opening of the clipboard: a window that serves requests, then the atoms.
#[derive(Debug)]
pub enum OpenContext {
    Opening(OpenWindow),
    Interning(XContext),
    Opened(Result<ClipboardContext, Error>),
}

/// The mathematical value of an [`OpenContext`].
pub enum OpenContextView {
    Opening(OpenWindowView),
    Interning(XContext),
    Opened(Result<ContextView, ErrorView>),
}

impl View for OpenContext {
    type V = OpenContextView;

    open spec fn view(&self) -> OpenContextView {
        match self {
            OpenContext::Opening(window) => OpenContextView::Opening(window@),
            OpenContext::Interning(server) => OpenContextView::Interning(*server),
            OpenContext::Opened(Ok(context)) => OpenContextView::Opened(Ok(context@)),
            OpenContext::Opened(Err(error)) => OpenContextView::Opened(Err(error@)),
        }
    }
}

impl OpenContextView {
    /// An opening that is about to begin.
    pub open spec fn start() -> OpenContextView {
        OpenContextView::Opening(OpenWindowView::Connecting)
    }

    /// A window that is opened is not waited for.
    pub open spec fn well_formed(self) -> bool {
        self matches OpenContextView::Opening(window) ==> !(window is Opened)
    }

    /// What has to be done next.
    pub open spec fn pending(self) -> Option<RequestView> {
        match self {
            OpenContextView::Opening(window) => window.pending(),
            OpenContextView::Interning(_) => Some(RequestView::InternAtoms),
            OpenContextView::Opened(_) => None,
        }
    }

    /// The opening, its window having come this far.
    pub open spec fn with_window(window: OpenWindowView) -> OpenContextView {
        match window {
            OpenWindowView::Opened(Ok(server)) => OpenContextView::Interning(server),
            OpenWindowView::Opened(Err(error)) => OpenContextView::Opened(Err(error)),
            _ => OpenContextView::Opening(window),
        }
    }

    /// The opening after a reply. A reply to something else changes nothing.
    pub open spec fn next(self, reply: ReplyView) -> OpenContextView {
        match (self, reply) {
            (OpenContextView::Opening(window), _) => Self::with_window(window.next(reply)),
            (OpenContextView::Interning(server), ReplyView::Interned(ids)) => if ids.len()
                == atom_name_list().len() {
                OpenContextView::Opened(Ok(ContextView::fresh(server, Atoms::of_ids(ids))))
            } else {
                self
            },
            (OpenContextView::Interning(_), ReplyView::Failed(description)) =>
                OpenContextView::Opened(Err(ErrorView::Unknown { description })),
            _ => self,
        }
    }
}

impl ClipboardContext {
    /// Starts to open the clipboard.
    pub fn new() -> (opening: OpenContext)
        ensures
            opening@ == OpenContextView::start(),
            opening@.well_formed(),
    {
        OpenContext::Opening(XContext::new())
    }
}

impl OpenContext {
    /// What has to be done next; `None` once the opening is over.
    pub fn request(&self) -> (request: Option<Request>)
        ensures
            request_view(request) == self@.pending(),
    {
        match self {
            OpenContext::Opening(window) => window.request(),
            OpenContext::Interning(_) => Some(Request::InternAtoms),
            OpenContext::Opened(_) => None,
        }
    }

    /// Takes the reply to the request.
    pub fn step(&mut self, reply: Reply)
        ensures
            final(self)@ == old(self)@.next(reply@),
            final(self)@.well_formed(),
    {
        let mut state = OpenContext::Opening(OpenWindow::Connecting);
        std::mem::swap(&mut state, self);
        *self = match (state, reply) {
            (OpenContext::Opening(mut window), reply) => {
                window.step(reply);
                match window {
                    OpenWindow::Opened(Ok(server)) => OpenContext::Interning(server),
                    OpenWindow::Opened(Err(error)) => OpenContext::Opened(Err(error)),
                    window => OpenContext::Opening(window),
                }
            },
            (OpenContext::Interning(server), Reply::Interned(ids)) => match Atoms::from_ids(&ids) {
                Some(atoms) => OpenContext::Opened(Ok(ClipboardContext::fresh(server, atoms))),
                None => OpenContext::Interning(server),
            },
            (OpenContext::Interning(_), Reply::Failed(description)) => OpenContext::Opened(
                Err(into_unknown(description)),
            ),
            (state, _) => state,
        };
    }
}

} // verus!
