//! Reading the clipboard.
use vstd::prelude::*;
use crate::context::{
    data_result, ClipboardContext, ClipboardData, ContextView, DataView,
};
use crate::error::{into_unknown, Error, ErrorView};
use crate::protocol::{request_view, Reply, ReplyView, Request, RequestView};
use crate::read_single::{timely, ReadPhase, ReadPhaseView, ReadSingle, ReadSingleView};
use crate::window::{OpenWindow, OpenWindowView, XContext};

verus! {

/// Where a reading stands.
#[derive(Debug)]
pub enum ReadState {
    AskingOwner,
    /// Somebody else has the contents; a window to ask through is opened.
    Opening(OpenWindow),
    /// One of the formats is asked for.
    Trying { index: usize, single: ReadSingle },
    Finished(Result<ClipboardData, Error>),
}

/// The mathematical value of a [`ReadState`].
pub enum ReadStateView {
    AskingOwner,
    Opening(OpenWindowView),
    Trying { index: int, single: ReadSingleView },
    Finished(Result<DataView, ErrorView>),
}

impl View for ReadState {
    type V = ReadStateView;

    open spec fn view(&self) -> ReadStateView {
        match self {
            ReadState::AskingOwner => ReadStateView::AskingOwner,
            ReadState::Opening(window) => ReadStateView::Opening(window@),
            ReadState::Trying { index, single } => ReadStateView::Trying {
                index: *index as int,
                single: single@,
            },
            ReadState::Finished(result) => ReadStateView::Finished(data_result(*result)),
        }
    }
}

/// The reading of the clipboard in the first of several formats that its owner
/// supports.
#[derive(Debug)]
pub struct Read {
    pub formats: Vec<u32>,
    pub state: ReadState,
}

/// The mathematical value of a [`Read`].
pub struct ReadView {
    pub formats: Seq<u32>,
    pub state: ReadStateView,
}

impl View for Read {
    type V = ReadView;

    open spec fn view(&self) -> ReadView {
        ReadView { formats: self.formats@, state: self.state@ }
    }
}

impl ReadView {
    /// A reading that is about to begin.
    pub open spec fn start(formats: Seq<u32>) -> ReadView {
        ReadView { formats, state: ReadStateView::AskingOwner }
    }

    /// The format that is asked for is one of those wanted, and what is over is
    /// not waited for.
    pub open spec fn well_formed(self) -> bool {
        match self.state {
            ReadStateView::Opening(window) => !(window is Opened),
            ReadStateView::Trying { index, single } => {
                &&& 0 <= index < self.formats.len()
                &&& single.target_format == self.formats[index]
                &&& single.well_formed()
                &&& !(single.phase is Finished)
            },
            _ => true,
        }
    }

    /// What has to be done next.
    pub open spec fn pending(self, context: ContextView) -> Option<RequestView> {
        match self.state {
            ReadStateView::AskingOwner => Some(
                RequestView::GetSelectionOwner { selection: context.atoms.CLIPBOARD },
            ),
            ReadStateView::Opening(window) => window.pending(),
            ReadStateView::Trying { single, .. } => single.pending(),
            ReadStateView::Finished(_) => None,
        }
    }

    /// The reading, over with this outcome.
    pub open spec fn finished(self, result: Result<DataView, ErrorView>) -> ReadView {
        ReadView { state: ReadStateView::Finished(result), ..self }
    }

    /// The reading when it comes to the format at `index`.
    pub open spec fn trying(self, context: ContextView, reader: u32, index: int) -> ReadView {
        if index < self.formats.len() {
            ReadView {
                state: ReadStateView::Trying {
                    index,
                    single: ReadSingleView::start(context.atoms, reader, self.formats[index]),
                },
                ..self
            }
        } else {
            self.finished(Err(ErrorView::ContentNotAvailable))
        }
    }

    /// The reading, its window having come this far.
    pub open spec fn with_window(self, context: ContextView, window: OpenWindowView) -> ReadView {
        match window {
            OpenWindowView::Opened(Ok(reader)) => self.trying(context, reader.win_id, 0),
            OpenWindowView::Opened(Err(error)) => self.finished(Err(error)),
            _ => ReadView { state: ReadStateView::Opening(window), ..self },
        }
    }

    /// The reading, the format at `index` having come this far. Where the owner
    /// does not have it, the next one is tried.
    pub open spec fn with_single(
        self,
        context: ContextView,
        index: int,
        single: ReadSingleView,
    ) -> ReadView {
        match single.phase {
            ReadPhaseView::Finished(Ok(bytes)) => self.finished(
                Ok(DataView { bytes, format: self.formats[index] }),
            ),
            ReadPhaseView::Finished(Err(ErrorView::ContentNotAvailable)) => self.trying(
                context,
                single.reader,
                index + 1,
            ),
            ReadPhaseView::Finished(Err(error)) => self.finished(Err(error)),
            _ => ReadView { state: ReadStateView::Trying { index, single }, ..self },
        }
    }

    /// The reading after a reply. A reply to something else changes nothing.
    pub open spec fn next(self, context: ContextView, reply: ReplyView) -> ReadView {
        match (self.state, reply) {
            (ReadStateView::AskingOwner, ReplyView::Owner(owner)) => if context.owns(owner) {
                self.finished(context.own_contents(self.formats))
            } else {
                ReadView { state: ReadStateView::Opening(OpenWindowView::Connecting), ..self }
            },
            (ReadStateView::AskingOwner, ReplyView::Failed(description)) => self.finished(
                Err(ErrorView::Unknown { description }),
            ),
            (ReadStateView::Opening(window), _) => self.with_window(context, window.next(reply)),
            (ReadStateView::Trying { index, single }, _) => self.with_single(
                context,
                index,
                single.next(reply),
            ),
            _ => self,
        }
    }
}

impl ClipboardContext {
    /// Starts to read the clipboard. Each of `formats` is an atom that
    /// represents a target format. The first of them that the clipboard owner
    /// supports will be the format of the outcome.
    pub fn read(&self, formats: Vec<u32>) -> (read: Read)
        ensures
            read@ == ReadView::start(formats@),
            read@.well_formed(),
    {
        Read { formats, state: ReadState::AskingOwner }
    }
}

impl Read {
    /// What has to be done next; `None` once the reading is over.
    pub fn request(&self, context: &ClipboardContext) -> (request: Option<Request>)
        ensures
            request_view(request) == self@.pending(context@),
    {
        match &self.state {
            ReadState::AskingOwner => Some(
                Request::GetSelectionOwner { selection: context.atoms.CLIPBOARD },
            ),
            ReadState::Opening(window) => window.request(),
            ReadState::Trying { single, .. } => single.request(),
            ReadState::Finished(_) => None,
        }
    }

    /// Comes to the format at `index`.
    fn try_format(&mut self, context: &ClipboardContext, reader: u32, index: usize)
        requires
            index <= old(self)@.formats.len(),
        ensures
            final(self)@ == old(self)@.trying(context@, reader, index as int),
            final(self)@.well_formed(),
    {
        self.state = if index < self.formats.len() {
            ReadState::Trying {
                index,
                single: ReadSingle::new(context.atoms, reader, self.formats[index]),
            }
        } else {
            ReadState::Finished(Err(Error::ContentNotAvailable))
        };
    }

    /// Takes the reply to the request.
    pub fn step(&mut self, context: &ClipboardContext, reply: Reply)
        requires
            old(self)@.well_formed(),
            timely(reply@),
        ensures
            final(self)@ == old(self)@.next(context@, reply@),
            final(self)@.well_formed(),
    {
        let mut state = ReadState::AskingOwner;
        std::mem::swap(&mut state, &mut self.state);
        match (state, reply) {
            (ReadState::AskingOwner, Reply::Owner(owner)) => {
                self.state = if context.is_owner(owner) {
                    // We can get the contents ourselves.
                    ReadState::Finished(context.read_own(&self.formats))
                } else {
                    ReadState::Opening(XContext::new())
                };
            },
            (ReadState::AskingOwner, Reply::Failed(description)) => {
                self.state = ReadState::Finished(Err(into_unknown(description)));
            },
            (ReadState::Opening(mut window), reply) => {
                window.step(reply);
                match window {
                    OpenWindow::Opened(Ok(reader)) => self.try_format(context, reader.win_id, 0),
                    OpenWindow::Opened(Err(error)) => {
                        self.state = ReadState::Finished(Err(error));
                    },
                    window => {
                        self.state = ReadState::Opening(window);
                    },
                }
            },
            (ReadState::Trying { index, mut single }, reply) => {
                single.step(reply);
                let reader: u32 = single.reader;
                match single.phase {
                    ReadPhase::Finished(Ok(bytes)) => {
                        let format: u32 = self.formats[index];
                        self.state = ReadState::Finished(Ok(ClipboardData { bytes, format }));
                    },
                    ReadPhase::Finished(Err(Error::ContentNotAvailable)) => {
                        assert(index < self.formats.len());
                        self.try_format(context, reader, index + 1);
                    },
                    ReadPhase::Finished(Err(error)) => {
                        self.state = ReadState::Finished(Err(error));
                    },
                    phase => {
                        single.phase = phase;
                        self.state = ReadState::Trying { index, single };
                    },
                }
            },
            (state, _) => {
                self.state = state;
            },
        }
    }
}

} // verus!
