//! The state of the clipboard.
use vstd::prelude::*;
use crate::atoms::Atoms;
use crate::error::{into_unknown, Error, ErrorView};
use crate::protocol::{
    PropertyChange, Request, RequestView, SelectionNotifyEvent, SelectionRequestEvent,
    EVENT_MASK_NO_EVENT, NONE, PROP_MODE_REPLACE, SELECTION_NOTIFY_EVENT,
};
use crate::text::{text_from_utf8, utf8_error_text};
use crate::window::XContext;
use vstd::utf8::{decode_utf8, valid_utf8};

verus! {

/// Where the handover of our data to the clipboard manager stands.
#[derive(Debug, Clone, Copy, PartialEq, Eq, Structural)]
pub enum ManagerHandoverState {
    Idle,
    InProgress,
    Finished,
}

/// Contents of the clipboard.
#[derive(Debug)]
pub struct ClipboardData {
    pub bytes: Vec<u8>,
    /// The atom representing the format in which the data is encoded.
    pub format: u32,
}

/// The mathematical value of a [`ClipboardData`].
pub struct DataView {
    pub bytes: Seq<u8>,
    pub format: u32,
}

impl View for ClipboardData {
    type V = DataView;

    open spec fn view(&self) -> DataView {
        DataView { bytes: self.bytes@, format: self.format }
    }
}

impl Clone for ClipboardData {
    fn clone(&self) -> (copy: ClipboardData)
        ensures
            copy@ == self@,
    {
        ClipboardData { bytes: self.bytes.clone(), format: self.format }
    }
}

/// The mathematical value of contents that may be absent.
pub open spec fn data_view(data: Option<ClipboardData>) -> Option<DataView> {
    match data {
        Some(data) => Some(data@),
        None => None,
    }
}

/// The mathematical value of the outcome of a reading.
pub open spec fn data_result(result: Result<ClipboardData, Error>) -> Result<
    DataView,
    ErrorView,
> {
    match result {
        Ok(data) => Ok(data@),
        Err(error) => Err(error@),
    }
}

/// The clipboard of this process.
#[derive(Debug)]
pub struct ClipboardContext {
    /// The window that owns the selection, and answers requests for it.
    pub server: XContext,
    pub atoms: Atoms,
    /// What we have put on the clipboard.
    pub data: Option<ClipboardData>,
    pub handover_state: ManagerHandoverState,
    /// Whether requests are no longer answered.
    pub serve_stopped: bool,
}

/// The mathematical value of a [`ClipboardContext`].
pub struct ContextView {
    pub server: XContext,
    pub atoms: Atoms,
    pub data: Option<DataView>,
    pub handover_state: ManagerHandoverState,
    pub serve_stopped: bool,
}

impl View for ClipboardContext {
    type V = ContextView;

    open spec fn view(&self) -> ContextView {
        ContextView {
            server: self.server,
            atoms: self.atoms,
            data: data_view(self.data),
            handover_state: self.handover_state,
            serve_stopped: self.serve_stopped,
        }
    }
}

impl ContextView {
    /// A clipboard that was just opened.
    pub open spec fn fresh(server: XContext, atoms: Atoms) -> ContextView {
        ContextView {
            server,
            atoms,
            data: None,
            handover_state: ManagerHandoverState::Idle,
            serve_stopped: false,
        }
    }

    /// Whether the window that owns the selection is ours.
    pub open spec fn owns(self, owner: u32) -> bool {
        owner == self.server.win_id
    }

    /// Our own contents, if they are in one of the formats.
    pub open spec fn own_contents(self, formats: Seq<u32>) -> Result<DataView, ErrorView> {
        match self.data {
            Some(data) => if formats.contains(data.format) {
                Ok(data)
            } else {
                Err(ErrorView::ContentNotAvailable)
            },
            None => Err(ErrorView::ContentNotAvailable),
        }
    }

    /// The targets that we say our contents can be converted to. A UTF-8 string
    /// is offered under the equivalent names too.
    pub open spec fn targets(self) -> Seq<u32> {
        let always = seq![self.atoms.TARGETS, self.atoms.SAVE_TARGETS];
        match self.data {
            None => always,
            Some(data) => if data.format == self.atoms.UTF8_STRING {
                always + seq![data.format, self.atoms.UTF8_MIME_0, self.atoms.UTF8_MIME_1]
            } else {
                always + seq![data.format]
            },
        }
    }

    /// Whether two formats are names of the same: a UTF-8 string goes by the names
    /// of its two media types, too.
    pub open spec fn goes_by(self, format: u32, target: u32) -> bool {
        format == target || (format == self.atoms.UTF8_STRING && (target == self.atoms.UTF8_MIME_0
            || target == self.atoms.UTF8_MIME_1))
    }

    /// Whether a request for this target can be met.
    pub open spec fn serves(self, target: u32) -> bool {
        target == self.atoms.TARGETS || (self.data matches Some(data) && self.goes_by(
            data.format,
            target,
        ))
    }

    /// What a requestor is given: the list of targets, or the contents.
    pub open spec fn conversion(self, event: SelectionRequestEvent) -> RequestView {
        if event.target == self.atoms.TARGETS {
            RequestView::ChangeProperty32 {
                change: PropertyChange {
                    mode: PROP_MODE_REPLACE,
                    window: event.requestor,
                    property: event.property,
                    type_: self.atoms.ATOM,
                },
                data: self.targets(),
            }
        } else {
            RequestView::ChangeProperty8 {
                change: PropertyChange {
                    mode: PROP_MODE_REPLACE,
                    window: event.requestor,
                    property: event.property,
                    type_: event.target,
                },
                data: self.data.unwrap().bytes,
            }
        }
    }

    /// What a requestor is told at the end: where the conversion is, or that
    /// there is none.
    pub open spec fn notification(event: SelectionRequestEvent, property: u32) -> RequestView {
        RequestView::SendSelectionNotify {
            propagate: false,
            destination: event.requestor,
            event_mask: EVENT_MASK_NO_EVENT,
            event: SelectionNotifyEvent {
                response_type: SELECTION_NOTIFY_EVENT,
                sequence: event.sequence,
                time: event.time,
                requestor: event.requestor,
                selection: event.selection,
                target: event.target,
                property,
            },
        }
    }

    /// All that is done about a request for a selection. One for another
    /// selection than the clipboard is passed over.
    pub open spec fn answer(self, event: SelectionRequestEvent) -> Seq<RequestView> {
        if event.selection != self.atoms.CLIPBOARD {
            seq![]
        } else if self.serves(event.target) {
            seq![
                self.conversion(event),
                RequestView::Flush,
                Self::notification(event, event.property),
                RequestView::Flush,
            ]
        } else {
            seq![Self::notification(event, NONE), RequestView::Flush]
        }
    }
}

/// The mathematical value of a list of requests.
pub open spec fn plan_view(plan: Seq<Request>) -> Seq<RequestView> {
    plan.map_values(|request: Request| request@)
}

impl ClipboardContext {
    /// The clipboard whose window was just opened.
    pub fn fresh(server: XContext, atoms: Atoms) -> (context: ClipboardContext)
        ensures
            context@ == ContextView::fresh(server, atoms),
    {
        ClipboardContext {
            server,
            atoms,
            data: None,
            handover_state: ManagerHandoverState::Idle,
            serve_stopped: false,
        }
    }

    /// Whether the window that owns the selection is ours.
    pub fn is_owner(&self, owner: u32) -> (own: bool)
        ensures
            own == self@.owns(owner),
    {
        owner == self.server.win_id
    }

    /// Our own contents, if they are in one of the formats.
    pub fn read_own(&self, formats: &Vec<u32>) -> (result: Result<ClipboardData, Error>)
        ensures
            data_result(result) == self@.own_contents(formats@),
    {
        if let Some(data) = &self.data {
            let mut i: usize = 0;
            while i < formats.len()
                invariant
                    i <= formats@.len(),
                    self.data == Some(*data),
                    forall|j: int| 0 <= j < i ==> formats@[j] != data.format,
                decreases formats@.len() - i,
            {
                if formats[i] == data.format {
                    return Ok(data.clone());
                }
                i = i + 1;
            }
        }
        Err(Error::ContentNotAvailable)
    }

    /// The targets that we say our contents can be converted to.
    pub fn targets(&self) -> (targets: Vec<u32>)
        ensures
            targets@ == self@.targets(),
    {
        let mut targets: Vec<u32> = Vec::with_capacity(10);
        targets.push(self.atoms.TARGETS);
        targets.push(self.atoms.SAVE_TARGETS);
        if let Some(data) = &self.data {
            targets.push(data.format);
            if data.format == self.atoms.UTF8_STRING {
                // When we are storing a UTF8 string, add all equivalent formats
                // to the supported targets.
                targets.push(self.atoms.UTF8_MIME_0);
                targets.push(self.atoms.UTF8_MIME_1);
            }
        }
        targets
    }

    /// Whether contents in this format are served under the name of this target.
    pub fn goes_by(&self, format: u32, target: u32) -> (same: bool)
        ensures
            same == self@.goes_by(format, target),
    {
        format == target || (format == self.atoms.UTF8_STRING && (target == self.atoms.UTF8_MIME_0
            || target == self.atoms.UTF8_MIME_1))
    }

    /// What is to be done, in this order, about a request for a selection.
    pub fn handle_selection_request(&self, event: &SelectionRequestEvent) -> (plan: Vec<Request>)
        ensures
            plan_view(plan@) == self@.answer(*event),
    {
        let mut plan: Vec<Request> = Vec::new();
        if event.selection != self.atoms.CLIPBOARD {
            return plan;
        }
        let mut success = false;
        if event.target == self.atoms.TARGETS {
            // We are asked for a list of supported conversion targets.
            plan.push(
                Request::ChangeProperty32 {
                    change: PropertyChange {
                        mode: PROP_MODE_REPLACE,
                        window: event.requestor,
                        property: event.property,
                        type_: self.atoms.ATOM,
                    },
                    data: self.targets(),
                },
            );
            success = true;
        } else if let Some(data) = &self.data {
            // We are asked for the contents.
            if self.goes_by(data.format, event.target) {
                plan.push(
                    Request::ChangeProperty8 {
                        change: PropertyChange {
                            mode: PROP_MODE_REPLACE,
                            window: event.requestor,
                            property: event.property,
                            type_: event.target,
                        },
                        data: data.bytes.clone(),
                    },
                );
                success = true;
            }
        }
        if success {
            plan.push(Request::Flush);
        }
        // On failure the requestor is told so.
        let property: u32 = if success { event.property } else { NONE };
        plan.push(
            Request::SendSelectionNotify {
                propagate: false,
                destination: event.requestor,
                event_mask: EVENT_MASK_NO_EVENT,
                event: SelectionNotifyEvent {
                    response_type: SELECTION_NOTIFY_EVENT,
                    sequence: event.sequence,
                    time: event.time,
                    requestor: event.requestor,
                    selection: event.selection,
                    target: event.target,
                    property,
                },
            },
        );
        plan.push(Request::Flush);
        plan
    }

    /// Records that requests are no longer answered.
    pub fn stop_serving(&mut self)
        ensures
            final(self)@ == (ContextView { serve_stopped: true, ..old(self)@ }),
    {
        self.serve_stopped = true;
    }
}

/// The name of an atom, out of the bytes that the server has for it or the
/// description of why it has none.
pub fn atom_name(name: Result<Vec<u8>, String>) -> (text: Result<String, Error>)
    ensures
        match (name, text) {
            (Ok(name), Ok(text)) => valid_utf8(name@) && text@ == decode_utf8(name@),
            (Ok(name), Err(error)) => !valid_utf8(name@) && error@ == (ErrorView::Unknown {
                description: utf8_error_text(name@),
            }),
            (Err(description), Ok(_)) => false,
            (Err(description), Err(error)) => error == (Error::Unknown { description }),
        },
{
    match name {
        Ok(name) => match text_from_utf8(name) {
            Ok(text) => Ok(text),
            Err(description) => Err(into_unknown(description)),
        },
        Err(description) => Err(into_unknown(description)),
    }
}

} // verus!
