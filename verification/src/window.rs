//! The invisible windows that the clipboard talks through.
use vstd::prelude::*;
use crate::error::{into_unknown, Error, ErrorView};
use crate::protocol::{
    request_view, NewWindow, Reply, ReplyView, Request, RequestView, CLASS_COPY_FROM_PARENT,
    COPY_DEPTH_FROM_PARENT, COPY_FROM_PARENT, EVENT_MASK_PROPERTY_CHANGE,
    EVENT_MASK_STRUCTURE_NOTIFY,
};

verus! {

/// Our end of a connection: a window of our own.
#[derive(Debug, Clone, Copy, PartialEq, Eq, Structural)]
pub struct XContext {
    pub win_id: u32,
}

/// The opening of a connection and of a window on it.
#[derive(Debug)]
pub enum OpenWindow {
    Connecting,
    /// An id is wanted for a window below `root`.
    Naming { root: u32 },
    Creating { root: u32, win_id: u32 },
    Flushing { win_id: u32 },
    Opened(Result<XContext, Error>),
}

/// The mathematical value of an [`OpenWindow`].
pub enum OpenWindowView {
    Connecting,
    Naming { root: u32 },
    Creating { root: u32, win_id: u32 },
    Flushing { win_id: u32 },
    Opened(Result<XContext, ErrorView>),
}

impl View for OpenWindow {
    type V = OpenWindowView;

    open spec fn view(&self) -> OpenWindowView {
        match self {
            OpenWindow::Connecting => OpenWindowView::Connecting,
            OpenWindow::Naming { root } => OpenWindowView::Naming { root: *root },
            OpenWindow::Creating { root, win_id } => OpenWindowView::Creating {
                root: *root,
                win_id: *win_id,
            },
            OpenWindow::Flushing { win_id } => OpenWindowView::Flushing { win_id: *win_id },
            OpenWindow::Opened(Ok(window)) => OpenWindowView::Opened(Ok(*window)),
            OpenWindow::Opened(Err(error)) => OpenWindowView::Opened(Err(error@)),
        }
    }
}

/// A window below `root` that is never shown and copies what it can from its
/// parent. It hears of changes of its properties and of its own destruction.
pub open spec fn hidden_window(root: u32, win_id: u32) -> NewWindow {
    NewWindow {
        depth: COPY_DEPTH_FROM_PARENT,
        wid: win_id,
        parent: root,
        x: 0,
        y: 0,
        width: 1,
        height: 1,
        border_width: 0,
        class: CLASS_COPY_FROM_PARENT,
        visual: COPY_FROM_PARENT,
        event_mask: EVENT_MASK_PROPERTY_CHANGE | EVENT_MASK_STRUCTURE_NOTIFY,
    }
}

impl OpenWindowView {
    /// What has to be done next.
    pub open spec fn pending(self) -> Option<RequestView> {
        match self {
            OpenWindowView::Connecting => Some(RequestView::Connect),
            OpenWindowView::Naming { .. } => Some(RequestView::GenerateId),
            OpenWindowView::Creating { root, win_id } => Some(
                RequestView::CreateWindow(hidden_window(root, win_id)),
            ),
            OpenWindowView::Flushing { .. } => Some(RequestView::Flush),
            OpenWindowView::Opened(_) => None,
        }
    }

    /// The opening that failed for the reason described.
    pub open spec fn failed(description: Seq<char>) -> OpenWindowView {
        OpenWindowView::Opened(Err(ErrorView::Unknown { description }))
    }

    /// The opening after a reply. A reply to something else changes nothing.
    pub open spec fn next(self, reply: ReplyView) -> OpenWindowView {
        match (self, reply) {
            (OpenWindowView::Opened(_), _) => self,
            (
                OpenWindowView::Connecting,
                ReplyView::Connected { screen, roots },
            ) => if screen < roots.len() {
                OpenWindowView::Naming { root: roots[screen as int] }
            } else {
                OpenWindowView::failed("no screen found"@)
            },
            (OpenWindowView::Naming { root }, ReplyView::Id(win_id)) => OpenWindowView::Creating {
                root,
                win_id,
            },
            (OpenWindowView::Creating { win_id, .. }, ReplyView::Done) => OpenWindowView::Flushing {
                win_id,
            },
            (OpenWindowView::Flushing { win_id }, ReplyView::Done) => OpenWindowView::Opened(
                Ok(XContext { win_id }),
            ),
            (_, ReplyView::Failed(description)) => OpenWindowView::failed(description),
            _ => self,
        }
    }
}

impl XContext {
    /// Starts to open a connection to the X server and a window on it.
    pub fn new() -> (opening: OpenWindow)
        ensures
            opening@ == OpenWindowView::Connecting,
    {
        OpenWindow::Connecting
    }
}

impl OpenWindow {
    /// What has to be done next; `None` once the opening is over.
    pub fn request(&self) -> (request: Option<Request>)
        ensures
            request_view(request) == self@.pending(),
    {
        match self {
            OpenWindow::Connecting => Some(Request::Connect),
            OpenWindow::Naming { .. } => Some(Request::GenerateId),
            OpenWindow::Creating { root, win_id } => Some(
                Request::CreateWindow(
                    NewWindow {
                        depth: COPY_DEPTH_FROM_PARENT,
                        wid: *win_id,
                        parent: *root,
                        x: 0,
                        y: 0,
                        width: 1,
                        height: 1,
                        border_width: 0,
                        class: CLASS_COPY_FROM_PARENT,
                        visual: COPY_FROM_PARENT,
                        event_mask: EVENT_MASK_PROPERTY_CHANGE | EVENT_MASK_STRUCTURE_NOTIFY,
                    },
                ),
            ),
            OpenWindow::Flushing { .. } => Some(Request::Flush),
            OpenWindow::Opened(_) => None,
        }
    }

    /// Takes the reply to the request.
    pub fn step(&mut self, reply: Reply)
        ensures
            final(self)@ == old(self)@.next(reply@),
    {
        match (&*self, reply) {
            (OpenWindow::Opened(_), _) => {},
            (OpenWindow::Connecting, Reply::Connected { screen, roots }) => {
                *self = if screen < roots.len() {
                    OpenWindow::Naming { root: roots[screen] }
                } else {
                    OpenWindow::Opened(Err(into_unknown("no screen found".to_string())))
                };
            },
            (OpenWindow::Naming { root }, Reply::Id(win_id)) => {
                *self = OpenWindow::Creating { root: *root, win_id };
            },
            (OpenWindow::Creating { win_id, .. }, Reply::Done) => {
                *self = OpenWindow::Flushing { win_id: *win_id };
            },
            (OpenWindow::Flushing { win_id }, Reply::Done) => {
                *self = OpenWindow::Opened(Ok(XContext { win_id: *win_id }));
            },
            (_, Reply::Failed(description)) => {
                *self = OpenWindow::Opened(Err(into_unknown(description)));
            },
            _ => {},
        }
    }
}

} // verus!
