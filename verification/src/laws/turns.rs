//! Laws of what is asked for at each turn of a conversation, and of what each
//! reply leads to.
use vstd::prelude::*;
use crate::atoms::Atoms;
use crate::clipboard::TeardownView;
use crate::context::{ContextView, DataView, ManagerHandoverState};
use crate::error::ErrorView;
use crate::handover::HandoverView;
use crate::laws::world::{handed_over, noted};
use crate::open::OpenContextView;
use crate::protocol::{
    Conversion, Event, NewWindow, PropertyChange, ReplyView, RequestView, SelectionNotifyEvent,
    SelectionRequestEvent,
};
use crate::read::{ReadStateView, ReadView};
use crate::read_single::{ReadPhaseView, ReadSingleView};
use crate::serve::{ServePhaseView, ServerView};
use crate::window::{OpenWindowView, XContext};
use crate::write::WriteView;

verus! {

/// The error that describes a failure.
pub open spec fn unknown(description: Seq<char>) -> ErrorView {
    ErrorView::Unknown { description }
}

// ---------------------------------------------------------------- opening

/// A window is opened in four turns: a connection, an id, the window, which is
/// below the root of the preferred screen, of one pixel, and hears of its
/// properties and of its own end, and a flush.
pub proof fn a_window_is_asked_for(root: u32, win_id: u32, opened: Result<XContext, ErrorView>)
    ensures
        OpenWindowView::Connecting.pending() == Some(RequestView::Connect),
        (OpenWindowView::Naming { root }).pending() == Some(RequestView::GenerateId),
        (OpenWindowView::Creating { root, win_id }).pending() == Some(
            RequestView::CreateWindow(
                NewWindow {
                    depth: 0,
                    wid: win_id,
                    parent: root,
                    x: 0,
                    y: 0,
                    width: 1,
                    height: 1,
                    border_width: 0,
                    class: 0,
                    visual: 0,
                    event_mask: 0x0042_0000,
                },
            ),
        ),
        (OpenWindowView::Flushing { win_id }).pending() == Some(RequestView::Flush),
        OpenWindowView::Opened(opened).pending() is None,
{
    assert(0x0040_0000u32 | 0x0002_0000u32 == 0x0042_0000u32) by (bit_vector);
}

/// How the opening of a window goes on. Any failure ends it, with its description;
/// a reply to something else is passed over.
pub proof fn a_window_comes_about(
    root: u32,
    win_id: u32,
    opened: Result<XContext, ErrorView>,
    reply: ReplyView,
)
    ensures
        ({
            let connecting = OpenWindowView::Connecting;
            let naming = OpenWindowView::Naming { root };
            let creating = OpenWindowView::Creating { root, win_id };
            let flushing = OpenWindowView::Flushing { win_id };
            let over = OpenWindowView::Opened(opened);
            match reply {
                ReplyView::Connected { screen, roots } => {
                    &&& screen < roots.len() ==> connecting.next(reply) == (
                    OpenWindowView::Naming { root: roots[screen as int] })
                    &&& screen >= roots.len() ==> connecting.next(reply)
                        == OpenWindowView::Opened(
                        Err::<XContext, ErrorView>(unknown("no screen found"@)),
                    )
                    &&& naming.next(reply) == naming
                    &&& creating.next(reply) == creating
                    &&& flushing.next(reply) == flushing
                },
                ReplyView::Id(id) => {
                    &&& connecting.next(reply) == connecting
                    &&& naming.next(reply) == (OpenWindowView::Creating { root, win_id: id })
                    &&& creating.next(reply) == creating
                    &&& flushing.next(reply) == flushing
                },
                ReplyView::Done => {
                    &&& connecting.next(reply) == connecting
                    &&& naming.next(reply) == naming
                    &&& creating.next(reply) == flushing
                    &&& flushing.next(reply) == OpenWindowView::Opened(
                        Ok::<XContext, ErrorView>(XContext { win_id }),
                    )
                },
                ReplyView::Failed(description) => {
                    let failed = OpenWindowView::Opened(
                        Err::<XContext, ErrorView>(unknown(description)),
                    );
                    &&& connecting.next(reply) == failed
                    &&& naming.next(reply) == failed
                    &&& creating.next(reply) == failed
                    &&& flushing.next(reply) == failed
                },
                _ => {
                    &&& connecting.next(reply) == connecting
                    &&& naming.next(reply) == naming
                    &&& creating.next(reply) == creating
                    &&& flushing.next(reply) == flushing
                },
            }
        }),
        OpenWindowView::Opened(opened).next(reply) == OpenWindowView::Opened(opened),
{
}

/// How the opening of the clipboard goes on: with its window first, then with the
/// atoms, of which there have to be as many as names.
pub proof fn the_clipboard_comes_about(
    window: OpenWindowView,
    server: XContext,
    opened: Result<ContextView, ErrorView>,
    reply: ReplyView,
)
    ensures
        OpenContextView::start() == OpenContextView::Opening(OpenWindowView::Connecting),
        OpenContextView::Opening(window).pending() == window.pending(),
        OpenContextView::Interning(server).pending() == Some(RequestView::InternAtoms),
        OpenContextView::Opened(opened).pending() is None,
        OpenContextView::Opening(window).next(reply) == match window.next(reply) {
            OpenWindowView::Opened(Ok(server)) => OpenContextView::Interning(server),
            OpenWindowView::Opened(Err(error)) => OpenContextView::Opened(Err(error)),
            _ => OpenContextView::Opening(window.next(reply)),
        },
        reply matches ReplyView::Interned(ids) ==> {
            let context = OpenContextView::Interning(server).next(reply);
            &&& ids.len() == 14 ==> context == OpenContextView::Opened(
                Ok::<ContextView, ErrorView>(
                    ContextView {
                        server,
                        atoms: Atoms::of_ids(ids),
                        data: None,
                        handover_state: ManagerHandoverState::Idle,
                        serve_stopped: false,
                    },
                ),
            )
            &&& ids.len() != 14 ==> context == OpenContextView::Interning(server)
        },
        reply matches ReplyView::Failed(description) ==> OpenContextView::Interning(server).next(
            reply,
        ) == OpenContextView::Opened(Err::<ContextView, ErrorView>(unknown(description))),
        !(reply is Interned) && !(reply is Failed) ==> OpenContextView::Interning(server).next(
            reply,
        ) == OpenContextView::Interning(server),
        OpenContextView::Opened(opened).next(reply) == OpenContextView::Opened(opened),
{
}

// ---------------------------------------------------------------- reading

/// How a reading begins: the owner is asked for. If it is our window, the outcome
/// is our data, if its format is wanted; if it is any other, and if there is none,
/// a window is opened to ask through.
pub proof fn a_reading_begins(
    formats: Seq<u32>,
    context: ContextView,
    reply: ReplyView,
)
    ensures
        ({
            let read = ReadView::start(formats);
            let next = read.next(context, reply);
            &&& read == (ReadView { formats, state: ReadStateView::AskingOwner })
            &&& next.formats == formats
            &&& read.pending(context) == Some(
                RequestView::GetSelectionOwner { selection: context.atoms.CLIPBOARD },
            )
            &&& reply matches ReplyView::Owner(owner) ==> {
                &&& owner != context.server.win_id ==> next.state == ReadStateView::Opening(
                    OpenWindowView::Connecting,
                )
                &&& owner == context.server.win_id ==> match context.data {
                    Some(data) if exists|i: int|
                        0 <= i < formats.len() && formats[i] == data.format => next.state
                        == ReadStateView::Finished(Ok::<DataView, ErrorView>(data)),
                    _ => next.state == ReadStateView::Finished(
                        Err::<DataView, ErrorView>(ErrorView::ContentNotAvailable),
                    ),
                }
            }
            &&& reply matches ReplyView::Failed(description) ==> next.state
                == ReadStateView::Finished(Err::<DataView, ErrorView>(unknown(description)))
            &&& !(reply is Owner) && !(reply is Failed) ==> next == read
        }),
{
}

/// The state of a reading when it comes to a format: it is asked for through the
/// window, and after the last one the contents are not available.
pub open spec fn coming_to(
    formats: Seq<u32>,
    atoms: Atoms,
    reader: u32,
    index: int,
) -> ReadStateView {
    if 0 <= index < formats.len() {
        ReadStateView::Trying {
            index,
            single: ReadSingleView {
                atoms,
                reader,
                target_format: formats[index],
                using_incr: false,
                incr_data: seq![],
                timeout_end: 0,
                phase: ReadPhaseView::Deleting,
            },
        }
    } else {
        ReadStateView::Finished(Err(ErrorView::ContentNotAvailable))
    }
}

/// How a reading goes on: its window is opened, and then each format is asked for
/// through it, in order, until one is read or fails.
pub proof fn a_reading_comes_about(read: ReadView, context: ContextView, reply: ReplyView)
    ensures
        read.next(context, reply).formats == read.formats,
        read.state matches ReadStateView::Opening(window) ==> {
            &&& read.pending(context) == window.pending()
            &&& read.next(context, reply).state == match window.next(reply) {
                OpenWindowView::Opened(Ok(reader)) => coming_to(
                    read.formats,
                    context.atoms,
                    reader.win_id,
                    0,
                ),
                OpenWindowView::Opened(Err(error)) => ReadStateView::Finished(Err(error)),
                _ => ReadStateView::Opening(window.next(reply)),
            }
        },
        read.state matches ReadStateView::Trying { index, single } && 0 <= index
            < read.formats.len() ==> {
            let index = read.state->Trying_index;
            let single = read.state->Trying_single;
            &&& read.pending(context) == single.pending()
            &&& read.next(context, reply).state == match single.next(reply).phase {
                ReadPhaseView::Finished(Ok(bytes)) => ReadStateView::Finished(
                    Ok(DataView { bytes, format: read.formats[index] }),
                ),
                ReadPhaseView::Finished(Err(ErrorView::ContentNotAvailable)) => coming_to(
                    read.formats,
                    context.atoms,
                    single.reader,
                    index + 1,
                ),
                ReadPhaseView::Finished(Err(error)) => ReadStateView::Finished(Err(error)),
                _ => ReadStateView::Trying { index, single: single.next(reply) },
            }
        },
        read.state is Finished ==> read.pending(context) is None && read.next(context, reply)
            == read,
{
}

// ---------------------------------------------------------------- writing

/// How a writing begins: at once with the refusal, if requests are no longer
/// answered, and with the question for the owner otherwise.
pub proof fn a_writing_begins(context: ContextView, data: DataView)
    ensures
        !context.serve_stopped ==> WriteView::start(context, data) == WriteView::AskingOwner(data),
        context.serve_stopped ==> WriteView::start(context, data) == WriteView::Finished(
            Err::<(), ErrorView>(
                unknown(
                    "The clipboard handler thread seems to have stopped. Logging messages may reveal the cause. (See the `log` crate.)"@,
                ),
            ),
        ),
{
}

/// What each failure of a writing is reported as, and that the clipboard then stays
/// as it is. A claim that cannot be made means that the clipboard is occupied.
pub proof fn a_writing_fails(context: ContextView, data: DataView, description: Seq<char>)
    ensures
        ({
            let reply = ReplyView::Failed(description);
            let described = WriteView::Finished(Err::<(), ErrorView>(unknown(description)));
            &&& WriteView::AskingOwner(data).next(context, reply) == described
            &&& WriteView::Claiming(data).next(context, reply) == WriteView::Finished(
                Err::<(), ErrorView>(ErrorView::ClipboardOccupied),
            )
            &&& WriteView::Flushing(data).next(context, reply) == described
            &&& WriteView::AskingOwner(data).context_after(context, reply) == context
            &&& WriteView::Claiming(data).context_after(context, reply) == context
            &&& WriteView::Flushing(data).context_after(context, reply) == context
        }),
{
}

/// How a writing goes on: the clipboard holds the data just when it is over and
/// has succeeded, and is the same in all else.
pub proof fn a_writing_comes_about(
    context: ContextView,
    data: DataView,
    result: Result<(), ErrorView>,
    reply: ReplyView,
)
    ensures
        ({
            let asking = WriteView::AskingOwner(data);
            let claiming = WriteView::Claiming(data);
            let flushing = WriteView::Flushing(data);
            let over = WriteView::Finished(result);
            let stored = ContextView { data: Some(data), ..context };
            &&& reply matches ReplyView::Owner(owner) ==> {
                &&& owner == context.server.win_id ==> asking.context_after(context, reply)
                    == stored
                &&& owner != context.server.win_id ==> asking.context_after(context, reply)
                    == context
            }
            &&& !(reply is Owner) ==> asking.context_after(context, reply) == context
            &&& !(reply is Owner) && !(reply is Failed) ==> asking.next(context, reply) == asking
            &&& reply is Done ==> claiming.next(context, reply) == flushing
            &&& !(reply is Done) && !(reply is Failed) ==> claiming.next(context, reply)
                == claiming
            &&& claiming.context_after(context, reply) == context
            &&& reply is Done ==> flushing.next(context, reply) == WriteView::Finished(
                Ok::<(), ErrorView>(()),
            ) && flushing.context_after(context, reply) == stored
            &&& !(reply is Done) && !(reply is Failed) ==> flushing.next(context, reply)
                == flushing
            &&& !(reply is Done) ==> flushing.context_after(context, reply) == context
            &&& over.next(context, reply) == over
            &&& over.context_after(context, reply) == context
            &&& over.pending(context) is None
        }),
{
}

// ---------------------------------------------------------------- handing over

/// How a handover goes on. Only when its request to the manager was sent is the
/// handover in progress; a wait that is over ends it well, whatever came of it; a
/// failure before ends it, with its description.
pub proof fn a_handover_comes_about(
    context: ContextView,
    result: Result<(), ErrorView>,
    reply: ReplyView,
)
    ensures
        ({
            let asking = HandoverView::AskingOwner;
            let converting = HandoverView::Converting;
            let flushing = HandoverView::Flushing;
            let waiting = HandoverView::Waiting;
            let over = HandoverView::Finished(result);
            &&& context.server.win_id == 0 ==> HandoverView::start(context)
                == HandoverView::Finished(Ok::<(), ErrorView>(()))
            &&& context.server.win_id != 0 ==> HandoverView::start(context) == asking
            &&& reply matches ReplyView::Owner(owner) ==> {
                if owner == context.server.win_id && context.data is Some {
                    asking.next(context, reply) == converting
                } else {
                    asking.next(context, reply) == HandoverView::Finished(Ok::<(), ErrorView>(()))
                }
            }
            &&& reply is Done ==> converting.next(context, reply) == flushing
            &&& reply is Done ==> flushing.next(context, reply) == waiting
            &&& reply is HandoverWaited ==> waiting.next(context, reply)
                == HandoverView::Finished(Ok::<(), ErrorView>(()))
            &&& reply matches ReplyView::Failed(description) ==> {
                let failed = HandoverView::Finished(Err::<(), ErrorView>(unknown(description)));
                &&& asking.next(context, reply) == failed
                &&& converting.next(context, reply) == failed
                &&& flushing.next(context, reply) == failed
            }
            &&& !(reply is Owner) && !(reply is Failed) ==> asking.next(context, reply) == asking
            &&& !(reply is Done) && !(reply is Failed) ==> converting.next(context, reply)
                == converting && flushing.next(context, reply) == flushing
            &&& !(reply is HandoverWaited) ==> waiting.next(context, reply) == waiting
            &&& over.next(context, reply) == over
            &&& over.pending(context) is None
            &&& asking.pending(context) == Some(
                RequestView::GetSelectionOwner { selection: context.atoms.CLIPBOARD },
            )
            &&& converting.pending(context) == Some(
                RequestView::ConvertSelection(
                    Conversion {
                        requestor: context.server.win_id,
                        selection: context.atoms.CLIPBOARD_MANAGER,
                        target: context.atoms.SAVE_TARGETS,
                        property: context.atoms.ARBOARD_CLIPBOARD,
                        time: 0,
                    },
                ),
            )
            &&& flushing.pending(context) == Some(RequestView::Flush)
            &&& waiting.pending(context) == Some(RequestView::WaitForHandover { millis: 100 })
            &&& reply is Done ==> flushing.context_after(context, reply) == (ContextView {
                handover_state: ManagerHandoverState::InProgress,
                ..context
            })
            &&& !(reply is Done) ==> flushing.context_after(context, reply) == context
            &&& asking.context_after(context, reply) == context
            &&& converting.context_after(context, reply) == context
            &&& waiting.context_after(context, reply) == context
            &&& over.context_after(context, reply) == context
        }),
{
}

// ---------------------------------------------------------------- serving

/// All that is done about a request for the clipboard, in order and field by field:
/// what was asked for is written in place of what was there, and sent off; then the
/// requestor alone is told, and that is sent off. A refusal is told, and sent off.
pub proof fn an_answer_is_complete(context: ContextView, request: SelectionRequestEvent)
    requires
        request.selection == context.atoms.CLIPBOARD,
    ensures
        ({
            let answer = context.answer(request);
            let atoms = context.atoms;
            let met = request.target == atoms.TARGETS || (context.data matches Some(data) && (
            data.format == request.target || (data.format == atoms.UTF8_STRING && (request.target
                == atoms.UTF8_MIME_0 || request.target == atoms.UTF8_MIME_1))));
            let told = |property: u32|
                RequestView::SendSelectionNotify {
                    propagate: false,
                    destination: request.requestor,
                    event_mask: 0,
                    event: SelectionNotifyEvent {
                        response_type: 31,
                        sequence: request.sequence,
                        time: request.time,
                        requestor: request.requestor,
                        selection: request.selection,
                        target: request.target,
                        property,
                    },
                };
            let place = |type_: u32|
                PropertyChange {
                    mode: 0,
                    window: request.requestor,
                    property: request.property,
                    type_,
                };
            &&& met ==> {
                &&& answer.len() == 4
                &&& answer[1] == RequestView::Flush
                &&& answer[2] == told(request.property)
                &&& answer[3] == RequestView::Flush
                &&& if request.target == atoms.TARGETS {
                    answer[0] matches RequestView::ChangeProperty32 { change, data } && change
                        == place(atoms.ATOM)
                } else {
                    answer[0] == RequestView::ChangeProperty8 {
                        change: place(request.target),
                        data: context.data.unwrap().bytes,
                    }
                }
            }
            &&& !met ==> {
                &&& answer.len() == 2
                &&& answer[0] == told(0)
                &&& answer[1] == RequestView::Flush
            }
        }),
{
}

/// What an event other than a request leads to: the end of our window ends the
/// serving; the loss of the clipboard, and of no other selection, costs us our data;
/// word from the manager, and from nobody else, counts in a handover; anything else
/// is passed over.
pub proof fn an_event_is_taken(server: ServerView, context: ContextView, event: Event)
    requires
        server.phase is Waiting,
        !(event is SelectionRequest),
    ensures
        ({
            let reply = ReplyView::Event(Some(event));
            let after = server.next(context, reply);
            let clipboard = server.context_after(context, reply);
            let handing_over = context.handover_state == ManagerHandoverState::InProgress;
            match event {
                Event::DestroyNotify => {
                    &&& after == (ServerView {
                        phase: ServePhaseView::Finished(Ok::<(), ErrorView>(())),
                        ..server
                    })
                    &&& clipboard == (ContextView { serve_stopped: true, ..context })
                },
                Event::SelectionClear(event) => {
                    &&& after == server
                    &&& event.selection == context.atoms.CLIPBOARD ==> clipboard == (ContextView {
                        data: None,
                        ..context
                    })
                    &&& event.selection != context.atoms.CLIPBOARD ==> clipboard == context
                },
                Event::SelectionNotify(event) => if event.selection
                    == context.atoms.CLIPBOARD_MANAGER && handing_over {
                    &&& after == (ServerView {
                        written: server.written,
                        notified: true,
                        phase: if server.written {
                            ServePhaseView::Notifying
                        } else {
                            ServePhaseView::Waiting
                        },
                    })
                    &&& clipboard == if server.written {
                        ContextView { handover_state: ManagerHandoverState::Finished, ..context }
                    } else {
                        context
                    }
                } else {
                    after == server && clipboard == context
                },
                _ => after == server && clipboard == context,
            }
        }),
{
}

/// How the serving goes on otherwise: an answer is carried out one thing at a time,
/// and counts in a handover when all of it is done; the end of a handover is
/// reported once; a failure ends the serving, and so it stays.
pub proof fn a_serving_goes_on(
    server: ServerView,
    context: ContextView,
    plan: Seq<RequestView>,
    result: Result<(), ErrorView>,
    reply: ReplyView,
)
    ensures
        ServerView::start() == (ServerView {
            written: false,
            notified: false,
            phase: ServePhaseView::Waiting,
        }),
        ({
            let waiting = ServerView { phase: ServePhaseView::Waiting, ..server };
            let answering = ServerView { phase: ServePhaseView::Answering(plan), ..server };
            let notifying = ServerView { phase: ServePhaseView::Notifying, ..server };
            let over = ServerView { phase: ServePhaseView::Finished(result), ..server };
            let stopped = ContextView { serve_stopped: true, ..context };
            &&& waiting.pending() == Some(RequestView::WaitForEvent)
            &&& notifying.pending() == Some(RequestView::NotifyHandover)
            &&& over.pending() is None
            &&& plan.len() > 0 ==> answering.pending() == Some(plan[0])
            &&& plan.len() > 1 && reply is Done ==> {
                &&& answering.next(context, reply) == (ServerView {
                    phase: ServePhaseView::Answering(plan.skip(1)),
                    ..server
                })
                &&& answering.context_after(context, reply) == context
            }
            &&& plan.len() == 1 && reply is Done ==> {
                &&& answering.next(context, reply) == noted(server, context)
                &&& answering.context_after(context, reply) == handed_over(server, context)
            }
            &&& reply is Done ==> notifying.next(context, reply) == waiting
                && notifying.context_after(context, reply) == context
            &&& reply matches ReplyView::Failed(description) ==> {
                &&& waiting.next(context, reply) == (ServerView {
                    phase: ServePhaseView::Finished(Err::<(), ErrorView>(unknown(description))),
                    ..server
                })
                &&& answering.next(context, reply) == (ServerView {
                    phase: ServePhaseView::Finished(
                        Err::<(), ErrorView>(
                            unknown(
                                "Unknown error while interacting with the clipboard: "@
                                    + description,
                            ),
                        ),
                    ),
                    ..server
                })
                &&& waiting.context_after(context, reply) == stopped
                &&& answering.context_after(context, reply) == stopped
            }
            &&& !(reply is Failed) && !(reply matches ReplyView::Event(Some(_)))
                ==> waiting.next(context, reply) == waiting && waiting.context_after(
                context,
                reply,
            ) == context
            &&& !(reply is Failed) && !(reply is Done) ==> answering.next(context, reply)
                == answering && answering.context_after(context, reply) == context
            &&& !(reply is Done) ==> notifying.next(context, reply) == notifying
                && notifying.context_after(context, reply) == context
            &&& over.next(context, reply) == over
            &&& over.context_after(context, reply) == context
        }),
{
    assert(plan.len() > 0 ==> plan.drop_first() == plan.skip(1));
}

// ---------------------------------------------------------------- leaving

/// How the clipboard comes to its end: with the handover first, then it is taken
/// out of its place, its window destroyed, that sent off, and the serving thread, if
/// there is one, waited for. A failure in between ends it there.
pub proof fn the_end_comes_about(
    context: ContextView,
    owners: int,
    handover: HandoverView,
    present: bool,
    reply: ReplyView,
)
    ensures
        owners > 3 ==> TeardownView::start(context, owners) == TeardownView::Finished,
        owners <= 3 && context.server.win_id != 0 ==> TeardownView::start(context, owners)
            == TeardownView::HandingOver(HandoverView::AskingOwner),
        owners <= 3 && context.server.win_id == 0 ==> TeardownView::start(context, owners)
            == TeardownView::Taking,
        ({
            let handing = TeardownView::HandingOver(handover);
            let taking = TeardownView::Taking;
            let destroying = TeardownView::Destroying { present };
            let flushing = TeardownView::Flushing { present };
            let joining = TeardownView::Joining;
            let over = TeardownView::Finished;
            let after = |teardown: TeardownView| teardown.next(context, reply);
            &&& handing.pending(context) == handover.pending(context)
            &&& taking.pending(context) == Some(RequestView::TakeGlobal)
            &&& destroying.pending(context) == Some(
                RequestView::DestroyWindow { window: context.server.win_id },
            )
            &&& flushing.pending(context) == Some(RequestView::Flush)
            &&& joining.pending(context) == Some(RequestView::JoinServer)
            &&& over.pending(context) is None
            &&& after(handing) == if handover.next(context, reply) is Finished {
                taking
            } else {
                TeardownView::HandingOver(handover.next(context, reply))
            }
            &&& after(taking) == match reply {
                ReplyView::GlobalTaken { present } => TeardownView::Destroying { present },
                _ => taking,
            }
            &&& after(destroying) == if reply is Done {
                flushing
            } else if reply is Failed {
                over
            } else {
                destroying
            }
            &&& after(flushing) == if reply is Done && present {
                joining
            } else if reply is Done || reply is Failed {
                over
            } else {
                flushing
            }
            &&& after(joining) == if reply is Done || reply is Failed {
                over
            } else {
                joining
            }
            &&& after(over) == over
            &&& handing.context_after(context, reply) == handover.context_after(context, reply)
            &&& taking.context_after(context, reply) == context
            &&& destroying.context_after(context, reply) == context
            &&& flushing.context_after(context, reply) == context
            &&& joining.context_after(context, reply) == context
            &&& over.context_after(context, reply) == context
        }),
{
}

} // verus!
