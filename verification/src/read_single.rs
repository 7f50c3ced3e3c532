//! Asking the clipboard's owner for its contents in one format.
//!
//! The owner is asked to convert the selection and to leave the outcome in a
//! property of the reader's window. Small contents come in one piece. Large
//! ones come incrementally (`INCR`): the property is filled again and again
//! until it is left empty.
use vstd::prelude::*;
use crate::atoms::Atoms;
use crate::error::{into_unknown, Error, ErrorView};
use crate::protocol::{
    request_view, Conversion, Event, PropertyNotifyEvent, PropertyQuery, PropertyReply,
    PropertyReplyView, Reply, ReplyView, Request, RequestView, SelectionNotifyEvent, CURRENT_TIME,
    NONE, PROPERTY_LENGTH, PROPERTY_NEW_VALUE,
};

verus! {

/// How long the owner may take to begin, in nanoseconds. Some contents, like
/// images, may take several seconds to produce.
pub const LONG_TIMEOUT: u128 = 4_000_000_000;

/// How long the owner may take from one piece to the next, in nanoseconds.
pub const SHORT_TIMEOUT: u128 = 10_000_000;

/// How long to sleep when no event is there, in milliseconds.
pub const POLL_PAUSE: u64 = 1;

/// The latest time that a clock may show: the longest duration, counted in
/// nanoseconds.
pub const LATEST_TIME: u128 = 18_446_744_073_709_551_615_999_999_999;

/// Where the reading of one format stands.
#[derive(Debug)]
pub enum ReadPhase {
    /// The property is being deleted, so that its next value is noticed.
    Deleting,
    Converting,
    Syncing,
    /// The time is wanted to set the deadline.
    Starting,
    /// The time is wanted to compare it with the deadline.
    Checking,
    Polling,
    Sleeping,
    /// The owner has answered; its property is being read.
    FetchingSelection(SelectionNotifyEvent),
    /// The property announces an incremental transfer. It is read again as
    /// what it is, which deletes it and lets the owner begin.
    FetchingAnnouncement(SelectionNotifyEvent),
    FetchingPiece(PropertyNotifyEvent),
    /// A piece has come; the time is wanted to set a new deadline.
    Extending,
    Finished(Result<Vec<u8>, Error>),
}

/// The mathematical value of a [`ReadPhase`].
pub enum ReadPhaseView {
    Deleting,
    Converting,
    Syncing,
    Starting,
    Checking,
    Polling,
    Sleeping,
    FetchingSelection(SelectionNotifyEvent),
    FetchingAnnouncement(SelectionNotifyEvent),
    FetchingPiece(PropertyNotifyEvent),
    Extending,
    Finished(Result<Seq<u8>, ErrorView>),
}

impl View for ReadPhase {
    type V = ReadPhaseView;

    open spec fn view(&self) -> ReadPhaseView {
        match self {
            ReadPhase::Deleting => ReadPhaseView::Deleting,
            ReadPhase::Converting => ReadPhaseView::Converting,
            ReadPhase::Syncing => ReadPhaseView::Syncing,
            ReadPhase::Starting => ReadPhaseView::Starting,
            ReadPhase::Checking => ReadPhaseView::Checking,
            ReadPhase::Polling => ReadPhaseView::Polling,
            ReadPhase::Sleeping => ReadPhaseView::Sleeping,
            ReadPhase::FetchingSelection(event) => ReadPhaseView::FetchingSelection(*event),
            ReadPhase::FetchingAnnouncement(event) => ReadPhaseView::FetchingAnnouncement(*event),
            ReadPhase::FetchingPiece(event) => ReadPhaseView::FetchingPiece(*event),
            ReadPhase::Extending => ReadPhaseView::Extending,
            ReadPhase::Finished(Ok(bytes)) => ReadPhaseView::Finished(Ok(bytes@)),
            ReadPhase::Finished(Err(error)) => ReadPhaseView::Finished(Err(error@)),
        }
    }
}

/// The reading of one format.
#[derive(Debug)]
pub struct ReadSingle {
    pub atoms: Atoms,
    /// The window that reads.
    pub reader: u32,
    pub target_format: u32,
    pub using_incr: bool,
    pub incr_data: Vec<u8>,
    pub timeout_end: u128,
    pub phase: ReadPhase,
}

/// The mathematical value of a [`ReadSingle`].
pub struct ReadSingleView {
    pub atoms: Atoms,
    pub reader: u32,
    pub target_format: u32,
    pub using_incr: bool,
    pub incr_data: Seq<u8>,
    pub timeout_end: int,
    pub phase: ReadPhaseView,
}

impl View for ReadSingle {
    type V = ReadSingleView;

    open spec fn view(&self) -> ReadSingleView {
        ReadSingleView {
            atoms: self.atoms,
            reader: self.reader,
            target_format: self.target_format,
            using_incr: self.using_incr,
            incr_data: self.incr_data@,
            timeout_end: self.timeout_end as int,
            phase: self.phase@,
        }
    }
}

/// Whether the time that a reply tells, if any, is one that a clock may show.
pub open spec fn timely(reply: ReplyView) -> bool {
    reply matches ReplyView::Clock(now) ==> now <= LATEST_TIME
}

impl ReadSingleView {
    /// A reading that is about to begin.
    pub open spec fn start(atoms: Atoms, reader: u32, target_format: u32) -> ReadSingleView {
        ReadSingleView {
            atoms,
            reader,
            target_format,
            using_incr: false,
            incr_data: seq![],
            timeout_end: 0,
            phase: ReadPhaseView::Deleting,
        }
    }

    /// Nothing is collected before an incremental transfer is announced, which
    /// happens once at most, and the deadline is never further off than the two
    /// timeouts allow.
    pub open spec fn well_formed(self) -> bool {
        &&& match self.phase {
            ReadPhaseView::Deleting => !self.using_incr,
            ReadPhaseView::Converting => !self.using_incr,
            ReadPhaseView::Syncing => !self.using_incr,
            ReadPhaseView::Starting => !self.using_incr,
            ReadPhaseView::FetchingSelection(_) => !self.using_incr,
            ReadPhaseView::FetchingAnnouncement(_) => !self.using_incr,
            ReadPhaseView::FetchingPiece(_) => self.using_incr,
            ReadPhaseView::Extending => self.using_incr,
            _ => true,
        }
        &&& !self.using_incr ==> self.incr_data.len() == 0
        &&& !self.using_incr ==> self.timeout_end <= LATEST_TIME + LONG_TIMEOUT
        &&& 0 <= self.timeout_end <= LATEST_TIME + LONG_TIMEOUT + SHORT_TIMEOUT
    }

    /// The request for a property's value, which also deletes the property.
    pub open spec fn query(window: u32, property: u32, type_: u32) -> RequestView {
        RequestView::GetProperty(
            PropertyQuery {
                delete: true,
                window,
                property,
                type_,
                long_offset: 0,
                long_length: PROPERTY_LENGTH,
            },
        )
    }

    /// What has to be done next.
    pub open spec fn pending(self) -> Option<RequestView> {
        match self.phase {
            ReadPhaseView::Deleting => Some(
                RequestView::DeleteProperty {
                    window: self.reader,
                    property: self.atoms.ARBOARD_CLIPBOARD,
                },
            ),
            ReadPhaseView::Converting => Some(
                RequestView::ConvertSelection(
                    Conversion {
                        requestor: self.reader,
                        selection: self.atoms.CLIPBOARD,
                        target: self.target_format,
                        property: self.atoms.ARBOARD_CLIPBOARD,
                        time: CURRENT_TIME,
                    },
                ),
            ),
            ReadPhaseView::Syncing => Some(RequestView::Sync),
            ReadPhaseView::Starting => Some(RequestView::ReadClock),
            ReadPhaseView::Checking => Some(RequestView::ReadClock),
            ReadPhaseView::Polling => Some(RequestView::PollForEvent),
            ReadPhaseView::Sleeping => Some(RequestView::Sleep { millis: POLL_PAUSE }),
            ReadPhaseView::FetchingSelection(event) => Some(
                Self::query(event.requestor, event.property, event.target),
            ),
            ReadPhaseView::FetchingAnnouncement(event) => Some(
                Self::query(event.requestor, event.property, self.atoms.INCR),
            ),
            ReadPhaseView::FetchingPiece(event) => Some(
                Self::query(event.window, event.atom, self.target_format),
            ),
            ReadPhaseView::Extending => Some(RequestView::ReadClock),
            ReadPhaseView::Finished(_) => None,
        }
    }

    /// The same reading in another phase.
    pub open spec fn at(self, phase: ReadPhaseView) -> ReadSingleView {
        ReadSingleView { phase, ..self }
    }

    /// The reading, over with this outcome.
    pub open spec fn finished(self, result: Result<Seq<u8>, ErrorView>) -> ReadSingleView {
        self.at(ReadPhaseView::Finished(result))
    }

    /// The reading, failed for the reason described.
    pub open spec fn failed(self, description: Seq<char>) -> ReadSingleView {
        self.finished(Err(ErrorView::Unknown { description }))
    }

    /// The reading after the owner's answer. A refusal, or an answer about
    /// another target, ends it. Answers about other selections, and any while
    /// pieces are awaited, are passed over.
    pub open spec fn after_selection_notify(self, event: SelectionNotifyEvent) -> ReadSingleView {
        if event.property == NONE || event.target != self.target_format {
            self.finished(Err(ErrorView::ContentNotAvailable))
        } else if event.selection != self.atoms.CLIPBOARD || self.using_incr {
            self.at(ReadPhaseView::Checking)
        } else {
            self.at(ReadPhaseView::FetchingSelection(event))
        }
    }

    /// The reading after the property that the answer names was read: the
    /// contents, or the announcement of an incremental transfer.
    pub open spec fn after_selection(
        self,
        event: SelectionNotifyEvent,
        reply: PropertyReplyView,
    ) -> ReadSingleView {
        if reply.type_ == self.target_format {
            self.finished(Ok(reply.value))
        } else if reply.type_ == self.atoms.INCR {
            self.at(ReadPhaseView::FetchingAnnouncement(event))
        } else {
            self.failed("incorrect type received from clipboard"@)
        }
    }

    /// The reading after the announcement: pieces are awaited, for a little
    /// longer than before.
    pub open spec fn after_announcement(self) -> ReadSingleView {
        ReadSingleView {
            using_incr: true,
            timeout_end: self.timeout_end + SHORT_TIMEOUT,
            phase: ReadPhaseView::Checking,
            ..self
        }
    }

    /// The reading after news of a property: a piece is fetched if one is
    /// awaited and this is where it comes.
    pub open spec fn after_property_notify(self, event: PropertyNotifyEvent) -> ReadSingleView {
        if event.atom == self.atoms.ARBOARD_CLIPBOARD && event.state == PROPERTY_NEW_VALUE
            && self.using_incr {
            self.at(ReadPhaseView::FetchingPiece(event))
        } else {
            self.at(ReadPhaseView::Checking)
        }
    }

    /// The reading after a piece: an empty one ends it, any other is added.
    pub open spec fn after_piece(self, reply: PropertyReplyView) -> ReadSingleView {
        if reply.value_len == 0 {
            ReadSingleView {
                incr_data: seq![],
                phase: ReadPhaseView::Finished(Ok(self.incr_data)),
                ..self
            }
        } else {
            ReadSingleView {
                incr_data: self.incr_data + reply.value,
                phase: ReadPhaseView::Extending,
                ..self
            }
        }
    }

    /// The reading after an event.
    pub open spec fn after_event(self, event: Event) -> ReadSingleView {
        match event {
            Event::SelectionNotify(event) => self.after_selection_notify(event),
            Event::PropertyNotify(event) => self.after_property_notify(event),
            _ => self.at(ReadPhaseView::Checking),
        }
    }

    /// The reading after a reply. A reply to something else changes nothing.
    pub open spec fn next(self, reply: ReplyView) -> ReadSingleView {
        match (self.phase, reply) {
            (ReadPhaseView::Deleting, ReplyView::Done) => self.at(ReadPhaseView::Converting),
            (ReadPhaseView::Converting, ReplyView::Done) => self.at(ReadPhaseView::Syncing),
            (ReadPhaseView::Syncing, ReplyView::Done) => self.at(ReadPhaseView::Starting),
            (ReadPhaseView::Starting, ReplyView::Clock(now)) => ReadSingleView {
                timeout_end: now + LONG_TIMEOUT,
                phase: ReadPhaseView::Checking,
                ..self
            },
            (ReadPhaseView::Checking, ReplyView::Clock(now)) => if now < self.timeout_end {
                self.at(ReadPhaseView::Polling)
            } else {
                self.finished(Err(ErrorView::ContentNotAvailable))
            },
            (ReadPhaseView::Polling, ReplyView::Event(None)) => self.at(ReadPhaseView::Sleeping),
            (ReadPhaseView::Polling, ReplyView::Event(Some(event))) => self.after_event(event),
            (ReadPhaseView::Sleeping, ReplyView::Done) => self.at(ReadPhaseView::Checking),
            (
                ReadPhaseView::FetchingSelection(event),
                ReplyView::Property(reply),
            ) => self.after_selection(event, reply),
            (
                ReadPhaseView::FetchingAnnouncement(_),
                ReplyView::Property(_),
            ) => self.after_announcement(),
            (ReadPhaseView::FetchingPiece(_), ReplyView::Property(reply)) => self.after_piece(
                reply,
            ),
            (ReadPhaseView::Extending, ReplyView::Clock(now)) => ReadSingleView {
                timeout_end: now + SHORT_TIMEOUT,
                phase: ReadPhaseView::Checking,
                ..self
            },
            (_, ReplyView::Failed(description)) => if self.may_fail() {
                self.failed(description)
            } else {
                self
            },
            _ => self,
        }
    }

    /// Whether what has to be done next can fail.
    pub open spec fn may_fail(self) -> bool {
        match self.phase {
            ReadPhaseView::Starting => false,
            ReadPhaseView::Checking => false,
            ReadPhaseView::Sleeping => false,
            ReadPhaseView::Extending => false,
            ReadPhaseView::Finished(_) => false,
            _ => true,
        }
    }
}

/// The number that four bytes make, the least significant first.
pub open spec fn little_endian_word(bytes: Seq<u8>) -> int {
    bytes[0] + bytes[1] * 0x100 + bytes[2] * 0x1_0000 + bytes[3] * 0x100_0000
}

/// The number that four bytes make, the most significant first.
pub open spec fn big_endian_word(bytes: Seq<u8>) -> int {
    bytes[0] * 0x100_0000 + bytes[1] * 0x1_0000 + bytes[2] * 0x100 + bytes[3]
}

/// The first number of `x11rb`'s `GetPropertyReply::value32`. There is one if
/// the property is in units of 32 bits and has four bytes; they make the number
/// in the byte order of the machine, so in one of the two orders.
#[verifier::external_body]
fn first_value32(reply: &PropertyReply) -> (word: Option<u32>)
    ensures
        word is Some <==> (reply.format == 32 && reply.value@.len() >= 4),
        word matches Some(word) ==> (word == little_endian_word(reply.value@) || word
            == big_endian_word(reply.value@)),
{
    let reply = x11rb::protocol::xproto::GetPropertyReply {
        format: reply.format,
        sequence: 0,
        length: 0,
        type_: reply.type_,
        bytes_after: 0,
        value_len: reply.value_len,
        value: reply.value.clone(),
    };
    let word = reply.value32().and_then(|mut words| words.next());
    word
}

/// How many bytes at least the announcement of an incremental transfer lets
/// expect.
pub fn announced_length(reply: &PropertyReply) -> (length: u32)
    ensures
        reply.value_len == 4 && reply.format == 32 && reply.value@.len() >= 4 ==> (length
            == little_endian_word(reply.value@) || length == big_endian_word(reply.value@)),
        !(reply.value_len == 4 && reply.format == 32 && reply.value@.len() >= 4) ==> length == 0,
{
    if reply.value_len == 4 {
        first_value32(reply).unwrap_or(0)
    } else {
        0
    }
}

impl ReadSingle {
    /// Starts to read the clipboard in one format, through the window `reader`.
    pub fn new(atoms: Atoms, reader: u32, target_format: u32) -> (read: ReadSingle)
        ensures
            read@ == ReadSingleView::start(atoms, reader, target_format),
            read@.well_formed(),
    {
        ReadSingle {
            atoms,
            reader,
            target_format,
            using_incr: false,
            incr_data: Vec::new(),
            timeout_end: 0,
            phase: ReadPhase::Deleting,
        }
    }

    fn query(window: u32, property: u32, type_: u32) -> (request: Request)
        ensures
            request@ == ReadSingleView::query(window, property, type_),
    {
        Request::GetProperty(
            PropertyQuery {
                delete: true,
                window,
                property,
                type_,
                long_offset: 0,
                long_length: PROPERTY_LENGTH,
            },
        )
    }

    /// What has to be done next; `None` once the reading is over.
    pub fn request(&self) -> (request: Option<Request>)
        ensures
            request_view(request) == self@.pending(),
    {
        match &self.phase {
            ReadPhase::Deleting => Some(
                Request::DeleteProperty {
                    window: self.reader,
                    property: self.atoms.ARBOARD_CLIPBOARD,
                },
            ),
            ReadPhase::Converting => Some(
                Request::ConvertSelection(
                    Conversion {
                        requestor: self.reader,
                        selection: self.atoms.CLIPBOARD,
                        target: self.target_format,
                        property: self.atoms.ARBOARD_CLIPBOARD,
                        time: CURRENT_TIME,
                    },
                ),
            ),
            ReadPhase::Syncing => Some(Request::Sync),
            ReadPhase::Starting => Some(Request::ReadClock),
            ReadPhase::Checking => Some(Request::ReadClock),
            ReadPhase::Polling => Some(Request::PollForEvent),
            ReadPhase::Sleeping => Some(Request::Sleep { millis: POLL_PAUSE }),
            ReadPhase::FetchingSelection(event) => Some(
                Self::query(event.requestor, event.property, event.target),
            ),
            ReadPhase::FetchingAnnouncement(event) => Some(
                Self::query(event.requestor, event.property, self.atoms.INCR),
            ),
            ReadPhase::FetchingPiece(event) => Some(
                Self::query(event.window, event.atom, self.target_format),
            ),
            ReadPhase::Extending => Some(Request::ReadClock),
            ReadPhase::Finished(_) => None,
        }
    }

    /// Takes the owner's answer.
    pub fn handle_read_selection_notify(&mut self, event: SelectionNotifyEvent)
        ensures
            final(self)@ == old(self)@.after_selection_notify(event),
    {
        // The property being `NONE` means that the conversion failed; the
        // target has to be the one that was asked for.
        self.phase = if event.property == NONE || event.target != self.target_format {
            ReadPhase::Finished(Err(Error::ContentNotAvailable))
        } else if event.selection != self.atoms.CLIPBOARD {
            ReadPhase::Checking
        } else if self.using_incr {
            ReadPhase::Checking
        } else {
            ReadPhase::FetchingSelection(event)
        };
    }

    /// Takes the property that the owner's answer names.
    pub fn handle_selection(&mut self, event: SelectionNotifyEvent, reply: PropertyReply)
        ensures
            final(self)@ == old(self)@.after_selection(event, reply@),
    {
        self.phase = if reply.type_ == self.target_format {
            ReadPhase::Finished(Ok(reply.value))
        } else if reply.type_ == self.atoms.INCR {
            ReadPhase::FetchingAnnouncement(event)
        } else {
            // We have asked for supported types only.
            ReadPhase::Finished(
                Err(into_unknown("incorrect type received from clipboard".to_string())),
            )
        };
    }

    /// Takes the announcement of an incremental transfer.
    pub fn handle_announcement(&mut self, reply: &PropertyReply)
        requires
            old(self)@.well_formed(),
            !old(self)@.using_incr,
        ensures
            final(self)@ == old(self)@.after_announcement(),
    {
        self.using_incr = true;
        let length: usize = announced_length(reply) as usize;
        if length <= usize::MAX / 2 {
            self.incr_data.reserve(length);
        }
        self.timeout_end = self.timeout_end + SHORT_TIMEOUT;
        self.phase = ReadPhase::Checking;
    }

    /// Takes news of a property.
    pub fn handle_read_property_notify(&mut self, event: PropertyNotifyEvent)
        ensures
            final(self)@ == old(self)@.after_property_notify(event),
    {
        self.phase = if event.atom != self.atoms.ARBOARD_CLIPBOARD || event.state
            != PROPERTY_NEW_VALUE {
            ReadPhase::Checking
        } else if !self.using_incr {
            // The owner has received our request, and prepares the data.
            ReadPhase::Checking
        } else {
            ReadPhase::FetchingPiece(event)
        };
    }

    /// Takes a piece of an incremental transfer.
    pub fn handle_piece(&mut self, reply: PropertyReply)
        ensures
            final(self)@ == old(self)@.after_piece(reply@),
    {
        if reply.value_len == 0 {
            let mut bytes = Vec::new();
            std::mem::swap(&mut bytes, &mut self.incr_data);
            self.phase = ReadPhase::Finished(Ok(bytes));
        } else {
            let mut value = reply.value;
            self.incr_data.append(&mut value);
            self.phase = ReadPhase::Extending;
        }
    }

    /// Takes the reply to the request.
    pub fn step(&mut self, reply: Reply)
        requires
            old(self)@.well_formed(),
            timely(reply@),
        ensures
            final(self)@ == old(self)@.next(reply@),
            final(self)@.well_formed(),
    {
        match (&self.phase, reply) {
            (ReadPhase::Deleting, Reply::Done) => {
                self.phase = ReadPhase::Converting;
            },
            (ReadPhase::Converting, Reply::Done) => {
                self.phase = ReadPhase::Syncing;
            },
            (ReadPhase::Syncing, Reply::Done) => {
                self.phase = ReadPhase::Starting;
            },
            (ReadPhase::Starting, Reply::Clock(now)) => {
                self.timeout_end = now + LONG_TIMEOUT;
                self.phase = ReadPhase::Checking;
            },
            (ReadPhase::Checking, Reply::Clock(now)) => {
                self.phase = if now < self.timeout_end {
                    ReadPhase::Polling
                } else {
                    ReadPhase::Finished(Err(Error::ContentNotAvailable))
                };
            },
            (ReadPhase::Polling, Reply::Event(None)) => {
                self.phase = ReadPhase::Sleeping;
            },
            (ReadPhase::Polling, Reply::Event(Some(event))) => {
                match event {
                    Event::SelectionNotify(event) => self.handle_read_selection_notify(event),
                    Event::PropertyNotify(event) => self.handle_read_property_notify(event),
                    _ => {
                        self.phase = ReadPhase::Checking;
                    },
                }
            },
            (ReadPhase::Sleeping, Reply::Done) => {
                self.phase = ReadPhase::Checking;
            },
            (ReadPhase::FetchingSelection(event), Reply::Property(reply)) => {
                let event: SelectionNotifyEvent = *event;
                self.handle_selection(event, reply);
            },
            (ReadPhase::FetchingAnnouncement(_), Reply::Property(reply)) => {
                self.handle_announcement(&reply);
            },
            (ReadPhase::FetchingPiece(_), Reply::Property(reply)) => {
                self.handle_piece(reply);
            },
            (ReadPhase::Extending, Reply::Clock(now)) => {
                self.timeout_end = now + SHORT_TIMEOUT;
                self.phase = ReadPhase::Checking;
            },
            (ReadPhase::Starting, _) => {},
            (ReadPhase::Checking, _) => {},
            (ReadPhase::Sleeping, _) => {},
            (ReadPhase::Extending, _) => {},
            (ReadPhase::Finished(_), _) => {},
            (_, Reply::Failed(description)) => {
                self.phase = ReadPhase::Finished(Err(into_unknown(description)));
            },
            _ => {},
        }
    }
}

} // verus!
