//! Laws of the mathematical values of things: they tell all of the things, and
//! nothing else.
use vstd::prelude::*;
use crate::clipboard::{text_result, Teardown, TeardownView};
use crate::context::{
    data_result, data_view, plan_view, ClipboardContext, ClipboardData, ContextView, DataView,
};
use crate::error::{unit_result, Error, ErrorView};
use crate::handover::{Handover, HandoverView};
use crate::open::{OpenContext, OpenContextView};
use crate::picture::{image_result, ImageData, ImageView};
use crate::protocol::{
    request_view, PropertyReply, PropertyReplyView, Reply, ReplyView, Request, RequestView,
};
use crate::read::{Read, ReadState, ReadStateView, ReadView};
use crate::read_single::{ReadPhase, ReadPhaseView, ReadSingle, ReadSingleView};
use crate::serve::{ServePhase, ServePhaseView, Server, ServerView};
use crate::window::{OpenWindow, OpenWindowView};
use crate::write::{Write, WriteView};

verus! {

/// The value of a request tells which one it is, and every part of it.
pub proof fn requests_are_told(request: Request)
    ensures
        match request@ {
            RequestView::Connect => request is Connect,
            RequestView::GenerateId => request is GenerateId,
            RequestView::CreateWindow(window) => request == Request::CreateWindow(window),
            RequestView::DestroyWindow { window } => request == Request::DestroyWindow { window },
            RequestView::InternAtoms => request is InternAtoms,
            RequestView::Flush => request is Flush,
            RequestView::Sync => request is Sync,
            RequestView::GetSelectionOwner { selection } => request
                == Request::GetSelectionOwner { selection },
            RequestView::SetSelectionOwner { owner, selection, time } => request
                == Request::SetSelectionOwner { owner, selection, time },
            RequestView::DeleteProperty { window, property } => request
                == Request::DeleteProperty { window, property },
            RequestView::ConvertSelection(conversion) => request == Request::ConvertSelection(
                conversion,
            ),
            RequestView::GetProperty(query) => request == Request::GetProperty(query),
            RequestView::ChangeProperty8 { change, data } => {
                request matches Request::ChangeProperty8 { change: c, data: d } && c == change
                    && d@ == data
            },
            RequestView::ChangeProperty32 { change, data } => {
                request matches Request::ChangeProperty32 { change: c, data: d } && c == change
                    && d@ == data
            },
            RequestView::SendSelectionNotify { propagate, destination, event_mask, event } =>
                request == Request::SendSelectionNotify {
                propagate,
                destination,
                event_mask,
                event,
            },
            RequestView::PollForEvent => request is PollForEvent,
            RequestView::WaitForEvent => request is WaitForEvent,
            RequestView::ReadClock => request is ReadClock,
            RequestView::Sleep { millis } => request == Request::Sleep { millis },
            RequestView::WaitForHandover { millis } => request
                == Request::WaitForHandover { millis },
            RequestView::NotifyHandover => request is NotifyHandover,
            RequestView::TakeGlobal => request is TakeGlobal,
            RequestView::JoinServer => request is JoinServer,
        },
        request_view(Some(request)) == Some(request@),
        request_view(None) is None,
{
}

/// The value of a list of requests is the list of their values.
pub proof fn lists_of_requests_are_told(plan: Seq<Request>, i: int)
    ensures
        plan_view(plan).len() == plan.len(),
        0 <= i < plan.len() ==> plan_view(plan)[i] == plan[i]@,
{
}

/// The value of a reply tells which one it is, and every part of it.
pub proof fn replies_are_told(reply: Reply, property: PropertyReply)
    ensures
        match reply {
            Reply::Done => reply@ == ReplyView::Done,
            Reply::Failed(description) => reply@ == ReplyView::Failed(description@),
            Reply::Connected { screen, roots } => reply@ == (ReplyView::Connected {
                screen,
                roots: roots@,
            }),
            Reply::Id(id) => reply@ == ReplyView::Id(id),
            Reply::Interned(ids) => reply@ == ReplyView::Interned(ids@),
            Reply::Owner(owner) => reply@ == ReplyView::Owner(owner),
            Reply::Property(property) => reply@ == ReplyView::Property(property@),
            Reply::Event(event) => reply@ == ReplyView::Event(event),
            Reply::Clock(now) => reply@ == ReplyView::Clock(now),
            Reply::HandoverWaited { timed_out } => reply@ == (ReplyView::HandoverWaited {
                timed_out,
            }),
            Reply::GlobalTaken { present } => reply@ == (ReplyView::GlobalTaken { present }),
        },
        property@ == (PropertyReplyView {
            format: property.format,
            type_: property.type_,
            value_len: property.value_len,
            value: property.value@,
        }),
{
}

/// The value of an error tells which one it is, and its description.
pub proof fn errors_are_told_apart(error: Error)
    ensures
        error is ContentNotAvailable <==> error@ is ContentNotAvailable,
        error is ClipboardNotSupported <==> error@ is ClipboardNotSupported,
        error is ClipboardOccupied <==> error@ is ClipboardOccupied,
        error is ConversionFailure <==> error@ is ConversionFailure,
        error is Unknown <==> error@ is Unknown,
        error matches Error::Unknown { description } ==> error@ == (ErrorView::Unknown {
            description: description@,
        }),
{
}

/// The value of the clipboard tells every part of it.
pub proof fn the_clipboard_is_told(context: ClipboardContext, data: ClipboardData)
    ensures
        data@ == (DataView { bytes: data.bytes@, format: data.format }),
        context@.server == context.server,
        context@.atoms == context.atoms,
        context@.handover_state == context.handover_state,
        context@.serve_stopped == context.serve_stopped,
        match context.data {
            Some(data) => context@.data == Some(data@),
            None => context@.data is None,
        },
        data_view(Some(data)) == Some(data@),
        data_view(None) is None,
{
}

/// The value of an outcome is the outcome with the value of what it holds.
pub proof fn outcomes_are_told(
    error: Error,
    data: ClipboardData,
    image: ImageData,
    text: String,
)
    ensures
        unit_result(Ok(())) == Ok::<(), ErrorView>(()),
        unit_result(Err(error)) == Err::<(), ErrorView>(error@),
        data_result(Ok(data)) == Ok::<DataView, ErrorView>(data@),
        data_result(Err(error)) == Err::<DataView, ErrorView>(error@),
        image_result(Ok(image)) == Ok::<ImageView, ErrorView>(image@),
        image_result(Err(error)) == Err::<ImageView, ErrorView>(error@),
        text_result(Ok(text)) == Ok::<Seq<char>, ErrorView>(text@),
        text_result(Err(error)) == Err::<Seq<char>, ErrorView>(error@),
        image@ == (ImageView {
            width: image.width as int,
            height: image.height as int,
            bytes: image.bytes@,
        }),
        image@.well_formed() <==> image.bytes@.len() == 4 * (image.width * image.height),
{
}

/// The value of an opening tells how far it has come.
pub proof fn openings_are_told(window: OpenWindow, opening: OpenContext)
    ensures
        match window {
            OpenWindow::Connecting => window@ == OpenWindowView::Connecting,
            OpenWindow::Naming { root } => window@ == (OpenWindowView::Naming { root }),
            OpenWindow::Creating { root, win_id } => window@ == (OpenWindowView::Creating {
                root,
                win_id,
            }),
            OpenWindow::Flushing { win_id } => window@ == (OpenWindowView::Flushing { win_id }),
            OpenWindow::Opened(Ok(context)) => window@ == OpenWindowView::Opened(Ok(context)),
            OpenWindow::Opened(Err(error)) => window@ == OpenWindowView::Opened(Err(error@)),
        },
        match opening {
            OpenContext::Opening(window) => opening@ == OpenContextView::Opening(window@),
            OpenContext::Interning(server) => opening@ == OpenContextView::Interning(server),
            OpenContext::Opened(Ok(context)) => opening@ == OpenContextView::Opened(Ok(context@)),
            OpenContext::Opened(Err(error)) => opening@ == OpenContextView::Opened(Err(error@)),
        },
{
}

/// The value of a reading tells how far it has come, and every part of it.
pub proof fn readings_are_told(single: ReadSingle, read: Read)
    ensures
        single@.atoms == single.atoms,
        single@.reader == single.reader,
        single@.target_format == single.target_format,
        single@.using_incr == single.using_incr,
        single@.incr_data == single.incr_data@,
        single@.timeout_end == single.timeout_end,
        match single.phase {
            ReadPhase::Deleting => single@.phase == ReadPhaseView::Deleting,
            ReadPhase::Converting => single@.phase == ReadPhaseView::Converting,
            ReadPhase::Syncing => single@.phase == ReadPhaseView::Syncing,
            ReadPhase::Starting => single@.phase == ReadPhaseView::Starting,
            ReadPhase::Checking => single@.phase == ReadPhaseView::Checking,
            ReadPhase::Polling => single@.phase == ReadPhaseView::Polling,
            ReadPhase::Sleeping => single@.phase == ReadPhaseView::Sleeping,
            ReadPhase::FetchingSelection(event) => single@.phase
                == ReadPhaseView::FetchingSelection(event),
            ReadPhase::FetchingAnnouncement(event) => single@.phase
                == ReadPhaseView::FetchingAnnouncement(event),
            ReadPhase::FetchingPiece(event) => single@.phase == ReadPhaseView::FetchingPiece(
                event,
            ),
            ReadPhase::Extending => single@.phase == ReadPhaseView::Extending,
            ReadPhase::Finished(Ok(bytes)) => single@.phase == ReadPhaseView::Finished(Ok(bytes@)),
            ReadPhase::Finished(Err(error)) => single@.phase == ReadPhaseView::Finished(
                Err(error@),
            ),
        },
        read@.formats == read.formats@,
        match read.state {
            ReadState::AskingOwner => read@.state == ReadStateView::AskingOwner,
            ReadState::Opening(window) => read@.state == ReadStateView::Opening(window@),
            ReadState::Trying { index, single } => read@.state == (ReadStateView::Trying {
                index: index as int,
                single: single@,
            }),
            ReadState::Finished(Ok(data)) => read@.state == ReadStateView::Finished(Ok(data@)),
            ReadState::Finished(Err(error)) => read@.state == ReadStateView::Finished(Err(error@)),
        },
{
}

/// The value of a writing, a handover and a teardown tells how far it has come.
pub proof fn changes_are_told(write: Write, handover: Handover, teardown: Teardown)
    ensures
        match write {
            Write::AskingOwner(data) => write@ == WriteView::AskingOwner(data@),
            Write::Claiming(data) => write@ == WriteView::Claiming(data@),
            Write::Flushing(data) => write@ == WriteView::Flushing(data@),
            Write::Finished(Ok(())) => write@ == WriteView::Finished(Ok(())),
            Write::Finished(Err(error)) => write@ == WriteView::Finished(Err(error@)),
        },
        match handover {
            Handover::AskingOwner => handover@ == HandoverView::AskingOwner,
            Handover::Converting => handover@ == HandoverView::Converting,
            Handover::Flushing => handover@ == HandoverView::Flushing,
            Handover::Waiting => handover@ == HandoverView::Waiting,
            Handover::Finished(Ok(())) => handover@ == HandoverView::Finished(Ok(())),
            Handover::Finished(Err(error)) => handover@ == HandoverView::Finished(Err(error@)),
        },
        match teardown {
            Teardown::HandingOver(handover) => teardown@ == TeardownView::HandingOver(handover@),
            Teardown::Taking => teardown@ == TeardownView::Taking,
            Teardown::Destroying { present } => teardown@ == (TeardownView::Destroying { present }),
            Teardown::Flushing { present } => teardown@ == (TeardownView::Flushing { present }),
            Teardown::Joining => teardown@ == TeardownView::Joining,
            Teardown::Finished => teardown@ == TeardownView::Finished,
        },
{
}

/// The value of a serving tells how far it has come, and what was noted.
pub proof fn servings_are_told(server: Server)
    ensures
        server@.written == server.written,
        server@.notified == server.notified,
        match server.phase {
            ServePhase::Waiting => server@.phase == ServePhaseView::Waiting,
            ServePhase::Answering(plan) => (server@.phase matches ServePhaseView::Answering(told)
                && told.len() == plan@.len() && (forall|i: int|
                0 <= i < plan@.len() ==> (#[trigger] told[i]) == plan@[i]@)),
            ServePhase::Notifying => server@.phase == ServePhaseView::Notifying,
            ServePhase::Finished(Ok(())) => server@.phase == ServePhaseView::Finished(Ok(())),
            ServePhase::Finished(Err(error)) => server@.phase == ServePhaseView::Finished(
                Err(error@),
            ),
        },
{
}

} // verus!
