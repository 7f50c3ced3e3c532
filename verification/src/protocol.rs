//! What is said to the X server and what it says back, as plain values.
//!
//! Every exchange with the world outside is a [`Request`] that the caller
//! performs and a [`Reply`] that the caller hands back.
use vstd::prelude::*;

verus! {

/// The null atom, window and property.
pub const NONE: u32 = 0;

/// The timestamp that stands for the server's present time.
pub const CURRENT_TIME: u32 = 0;

/// Takes a window's visual from its parent.
pub const COPY_FROM_PARENT: u32 = 0;

/// Takes a window's depth from its parent.
pub const COPY_DEPTH_FROM_PARENT: u8 = 0;

/// Takes a window's class from its parent.
pub const CLASS_COPY_FROM_PARENT: u16 = 0;

/// Discards the previous value of a property that is changed.
pub const PROP_MODE_REPLACE: u8 = 0;

/// The state of a property that was given a value.
pub const PROPERTY_NEW_VALUE: u8 = 0;

/// Selects no event.
pub const EVENT_MASK_NO_EVENT: u32 = 0;

/// Selects changes of the window's structure, its destruction among them.
pub const EVENT_MASK_STRUCTURE_NOTIFY: u32 = 0x0002_0000;

/// Selects changes of the window's properties.
pub const EVENT_MASK_PROPERTY_CHANGE: u32 = 0x0040_0000;

/// The code of a selection notification.
pub const SELECTION_NOTIFY_EVENT: u8 = 31;

/// The most that is asked of a property at once, in units of four bytes.
pub const PROPERTY_LENGTH: u32 = 0x3fff_ffff;

/// Somebody else has taken a selection from us.
#[derive(Debug, Clone, Copy, PartialEq, Eq, Structural)]
pub struct SelectionClearEvent {
    pub selection: u32,
}

/// Somebody asks the owner of a selection for its contents.
#[derive(Debug, Clone, Copy, PartialEq, Eq, Structural)]
pub struct SelectionRequestEvent {
    pub sequence: u16,
    pub time: u32,
    pub requestor: u32,
    pub selection: u32,
    pub target: u32,
    pub property: u32,
}

/// The answer to a request for a selection.
#[derive(Debug, Clone, Copy, PartialEq, Eq, Structural)]
pub struct SelectionNotifyEvent {
    pub response_type: u8,
    pub sequence: u16,
    pub time: u32,
    pub requestor: u32,
    pub selection: u32,
    pub target: u32,
    pub property: u32,
}

/// A property of a window has changed.
#[derive(Debug, Clone, Copy, PartialEq, Eq, Structural)]
pub struct PropertyNotifyEvent {
    pub window: u32,
    pub atom: u32,
    pub state: u8,
}

/// The events that the clipboard takes notice of.
#[derive(Debug, Clone, Copy, PartialEq, Eq, Structural)]
pub enum Event {
    DestroyNotify,
    SelectionClear(SelectionClearEvent),
    SelectionRequest(SelectionRequestEvent),
    SelectionNotify(SelectionNotifyEvent),
    PropertyNotify(PropertyNotifyEvent),
    /// Any other event.
    Other,
}

/// A window to be made.
#[derive(Debug, Clone, Copy, PartialEq, Eq, Structural)]
pub struct NewWindow {
    pub depth: u8,
    pub wid: u32,
    pub parent: u32,
    pub x: i16,
    pub y: i16,
    pub width: u16,
    pub height: u16,
    pub border_width: u16,
    pub class: u16,
    pub visual: u32,
    pub event_mask: u32,
}

/// A selection to be converted to a target format.
#[derive(Debug, Clone, Copy, PartialEq, Eq, Structural)]
pub struct Conversion {
    pub requestor: u32,
    pub selection: u32,
    pub target: u32,
    pub property: u32,
    pub time: u32,
}

/// A property to be read.
#[derive(Debug, Clone, Copy, PartialEq, Eq, Structural)]
pub struct PropertyQuery {
    pub delete: bool,
    pub window: u32,
    pub property: u32,
    pub type_: u32,
    pub long_offset: u32,
    pub long_length: u32,
}

/// A property to be written.
#[derive(Debug, Clone, Copy, PartialEq, Eq, Structural)]
pub struct PropertyChange {
    pub mode: u8,
    pub window: u32,
    pub property: u32,
    pub type_: u32,
}

/// Something that the caller is to do, and to report the outcome of.
#[allow(inconsistent_fields)]
#[derive(Debug, PartialEq, Eq)]
pub enum Request {
    /// Connect to the server. The requests that follow go to this connection.
    Connect,
    GenerateId,
    CreateWindow(NewWindow),
    DestroyWindow { window: u32 },
    /// Intern every name of [`crate::atoms::Atoms::names`].
    InternAtoms,
    Flush,
    /// Wait until the server has handled everything sent so far.
    Sync,
    GetSelectionOwner { selection: u32 },
    SetSelectionOwner { owner: u32, selection: u32, time: u32 },
    DeleteProperty { window: u32, property: u32 },
    ConvertSelection(Conversion),
    GetProperty(PropertyQuery),
    ChangeProperty8 { change: PropertyChange, data: Vec<u8> },
    ChangeProperty32 { change: PropertyChange, data: Vec<u32> },
    SendSelectionNotify {
        propagate: bool,
        destination: u32,
        event_mask: u32,
        event: SelectionNotifyEvent,
    },
    /// Take an event if there is one.
    PollForEvent,
    /// Wait for an event.
    WaitForEvent,
    /// Read the clock: nanoseconds since some moment, the same throughout.
    ReadClock,
    Sleep { millis: u64 },
    /// Wait until the handover is reported as finished, or time is up.
    WaitForHandover { millis: u64 },
    /// Report that the handover is finished.
    NotifyHandover,
    /// Take this clipboard out of the place where the process shares it, if it is
    /// there.
    TakeGlobal,
    /// Wait for the thread that serves requests.
    JoinServer,
}

/// The mathematical value of a [`Request`].
#[allow(inconsistent_fields)]
pub enum RequestView {
    Connect,
    GenerateId,
    CreateWindow(NewWindow),
    DestroyWindow { window: u32 },
    InternAtoms,
    Flush,
    Sync,
    GetSelectionOwner { selection: u32 },
    SetSelectionOwner { owner: u32, selection: u32, time: u32 },
    DeleteProperty { window: u32, property: u32 },
    ConvertSelection(Conversion),
    GetProperty(PropertyQuery),
    ChangeProperty8 { change: PropertyChange, data: Seq<u8> },
    ChangeProperty32 { change: PropertyChange, data: Seq<u32> },
    SendSelectionNotify {
        propagate: bool,
        destination: u32,
        event_mask: u32,
        event: SelectionNotifyEvent,
    },
    PollForEvent,
    WaitForEvent,
    ReadClock,
    Sleep { millis: u64 },
    WaitForHandover { millis: u64 },
    NotifyHandover,
    TakeGlobal,
    JoinServer,
}

impl View for Request {
    type V = RequestView;

    open spec fn view(&self) -> RequestView {
        match self {
            Request::Connect => RequestView::Connect,
            Request::GenerateId => RequestView::GenerateId,
            Request::CreateWindow(window) => RequestView::CreateWindow(*window),
            Request::DestroyWindow { window } => RequestView::DestroyWindow { window: *window },
            Request::InternAtoms => RequestView::InternAtoms,
            Request::Flush => RequestView::Flush,
            Request::Sync => RequestView::Sync,
            Request::GetSelectionOwner { selection } => RequestView::GetSelectionOwner {
                selection: *selection,
            },
            Request::SetSelectionOwner { owner, selection, time } =>
                RequestView::SetSelectionOwner {
                owner: *owner,
                selection: *selection,
                time: *time,
            },
            Request::DeleteProperty { window, property } => RequestView::DeleteProperty {
                window: *window,
                property: *property,
            },
            Request::ConvertSelection(conversion) => RequestView::ConvertSelection(*conversion),
            Request::GetProperty(query) => RequestView::GetProperty(*query),
            Request::ChangeProperty8 { change, data } => RequestView::ChangeProperty8 {
                change: *change,
                data: data@,
            },
            Request::ChangeProperty32 { change, data } => RequestView::ChangeProperty32 {
                change: *change,
                data: data@,
            },
            Request::SendSelectionNotify { propagate, destination, event_mask, event } =>
                RequestView::SendSelectionNotify {
                propagate: *propagate,
                destination: *destination,
                event_mask: *event_mask,
                event: *event,
            },
            Request::PollForEvent => RequestView::PollForEvent,
            Request::WaitForEvent => RequestView::WaitForEvent,
            Request::ReadClock => RequestView::ReadClock,
            Request::Sleep { millis } => RequestView::Sleep { millis: *millis },
            Request::WaitForHandover { millis } => RequestView::WaitForHandover {
                millis: *millis,
            },
            Request::NotifyHandover => RequestView::NotifyHandover,
            Request::TakeGlobal => RequestView::TakeGlobal,
            Request::JoinServer => RequestView::JoinServer,
        }
    }
}

impl Clone for Request {
    fn clone(&self) -> (copy: Request)
        ensures
            copy@ == self@,
    {
        match self {
            Request::Connect => Request::Connect,
            Request::GenerateId => Request::GenerateId,
            Request::CreateWindow(window) => Request::CreateWindow(*window),
            Request::DestroyWindow { window } => Request::DestroyWindow { window: *window },
            Request::InternAtoms => Request::InternAtoms,
            Request::Flush => Request::Flush,
            Request::Sync => Request::Sync,
            Request::GetSelectionOwner { selection } => Request::GetSelectionOwner {
                selection: *selection,
            },
            Request::SetSelectionOwner { owner, selection, time } => Request::SetSelectionOwner {
                owner: *owner,
                selection: *selection,
                time: *time,
            },
            Request::DeleteProperty { window, property } => Request::DeleteProperty {
                window: *window,
                property: *property,
            },
            Request::ConvertSelection(conversion) => Request::ConvertSelection(*conversion),
            Request::GetProperty(query) => Request::GetProperty(*query),
            Request::ChangeProperty8 { change, data } => Request::ChangeProperty8 {
                change: *change,
                data: data.clone(),
            },
            Request::ChangeProperty32 { change, data } => Request::ChangeProperty32 {
                change: *change,
                data: data.clone(),
            },
            Request::SendSelectionNotify { propagate, destination, event_mask, event } =>
                Request::SendSelectionNotify {
                propagate: *propagate,
                destination: *destination,
                event_mask: *event_mask,
                event: *event,
            },
            Request::PollForEvent => Request::PollForEvent,
            Request::WaitForEvent => Request::WaitForEvent,
            Request::ReadClock => Request::ReadClock,
            Request::Sleep { millis } => Request::Sleep { millis: *millis },
            Request::WaitForHandover { millis } => Request::WaitForHandover { millis: *millis },
            Request::NotifyHandover => Request::NotifyHandover,
            Request::TakeGlobal => Request::TakeGlobal,
            Request::JoinServer => Request::JoinServer,
        }
    }
}

/// The mathematical value of a request that may be absent.
pub open spec fn request_view(request: Option<Request>) -> Option<RequestView> {
    match request {
        Some(request) => Some(request@),
        None => None,
    }
}

/// The value of a property.
#[derive(Debug, Clone, PartialEq, Eq)]
pub struct PropertyReply {
    /// The width of the value's units in bits.
    pub format: u8,
    pub type_: u32,
    /// The length of the value in units of its format.
    pub value_len: u32,
    pub value: Vec<u8>,
}

/// The mathematical value of a [`PropertyReply`].
pub struct PropertyReplyView {
    pub format: u8,
    pub type_: u32,
    pub value_len: u32,
    pub value: Seq<u8>,
}

impl View for PropertyReply {
    type V = PropertyReplyView;

    open spec fn view(&self) -> PropertyReplyView {
        PropertyReplyView {
            format: self.format,
            type_: self.type_,
            value_len: self.value_len,
            value: self.value@,
        }
    }
}

/// What came of a [`Request`].
#[derive(Debug, Clone, PartialEq, Eq)]
pub enum Reply {
    /// It was done, and there is nothing to tell.
    Done,
    /// It failed, for the reason described.
    Failed(String),
    /// Connected to a server with these screens, each known by its root
    /// window; `screen` is the preferred one.
    Connected { screen: usize, roots: Vec<u32> },
    Id(u32),
    Interned(Vec<u32>),
    Owner(u32),
    Property(PropertyReply),
    Event(Option<Event>),
    Clock(u128),
    HandoverWaited { timed_out: bool },
    GlobalTaken { present: bool },
}

/// The mathematical value of a [`Reply`].
pub enum ReplyView {
    Done,
    Failed(Seq<char>),
    Connected { screen: usize, roots: Seq<u32> },
    Id(u32),
    Interned(Seq<u32>),
    Owner(u32),
    Property(PropertyReplyView),
    Event(Option<Event>),
    Clock(u128),
    HandoverWaited { timed_out: bool },
    GlobalTaken { present: bool },
}

impl View for Reply {
    type V = ReplyView;

    open spec fn view(&self) -> ReplyView {
        match self {
            Reply::Done => ReplyView::Done,
            Reply::Failed(description) => ReplyView::Failed(description@),
            Reply::Connected { screen, roots } => ReplyView::Connected {
                screen: *screen,
                roots: roots@,
            },
            Reply::Id(id) => ReplyView::Id(*id),
            Reply::Interned(ids) => ReplyView::Interned(ids@),
            Reply::Owner(owner) => ReplyView::Owner(*owner),
            Reply::Property(property) => ReplyView::Property(property@),
            Reply::Event(event) => ReplyView::Event(*event),
            Reply::Clock(now) => ReplyView::Clock(*now),
            Reply::HandoverWaited { timed_out } => ReplyView::HandoverWaited {
                timed_out: *timed_out,
            },
            Reply::GlobalTaken { present } => ReplyView::GlobalTaken { present: *present },
        }
    }
}

/// Whether `reply` is of a kind that can come of `request`.
pub open spec fn answers(request: RequestView, reply: ReplyView) -> bool {
    match request {
        RequestView::Connect => reply is Connected || reply is Failed,
        RequestView::GenerateId => reply is Id || reply is Failed,
        RequestView::InternAtoms => reply is Interned || reply is Failed,
        RequestView::GetSelectionOwner { .. } => reply is Owner || reply is Failed,
        RequestView::GetProperty(_) => reply is Property || reply is Failed,
        RequestView::PollForEvent => reply is Event || reply is Failed,
        RequestView::WaitForEvent => (reply is Event && reply->Event_0 is Some)
            || reply is Failed,
        RequestView::ReadClock => reply is Clock,
        RequestView::Sleep { .. } => reply is Done,
        RequestView::WaitForHandover { .. } => reply is HandoverWaited,
        RequestView::NotifyHandover => reply is Done,
        RequestView::TakeGlobal => reply is GlobalTaken,
        RequestView::CreateWindow(_) => reply is Done || reply is Failed,
        RequestView::DestroyWindow { .. } => reply is Done || reply is Failed,
        RequestView::Flush => reply is Done || reply is Failed,
        RequestView::Sync => reply is Done || reply is Failed,
        RequestView::SetSelectionOwner { .. } => reply is Done || reply is Failed,
        RequestView::DeleteProperty { .. } => reply is Done || reply is Failed,
        RequestView::ConvertSelection(_) => reply is Done || reply is Failed,
        RequestView::ChangeProperty8 { .. } => reply is Done || reply is Failed,
        RequestView::ChangeProperty32 { .. } => reply is Done || reply is Failed,
        RequestView::SendSelectionNotify { .. } => reply is Done || reply is Failed,
        RequestView::JoinServer => reply is Done || reply is Failed,
    }
}

} // verus!
