//! Laws of the conversations with an X server that keeps to the protocol.
//!
//! The server is a model: it knows who owns the clipboard, keeps the properties
//! of windows, and remembers what it was told. What it replies depends on what it
//! is asked, so these laws tie the requests of a conversation to its outcome.
use vstd::prelude::*;
use crate::atoms::Atoms;
use crate::context::{ContextView, DataView, ManagerHandoverState};
use crate::error::ErrorView;
use crate::handover::HandoverView;
use crate::protocol::{
    Conversion, Event, PropertyNotifyEvent, PropertyQuery, PropertyReplyView, ReplyView,
    RequestView, SelectionNotifyEvent, SelectionRequestEvent,
};
use crate::read_single::{ReadPhaseView, ReadSingleView};
use crate::serve::{ServePhaseView, ServerView};
use crate::write::WriteView;

verus! {

/// The contents of a property, in units of a byte or of four.
pub enum Contents {
    Bytes(Seq<u8>),
    Words(Seq<u32>),
}

/// A property, as the server keeps it.
pub struct Stored {
    pub type_: u32,
    pub contents: Contents,
}

/// What the server knows and was told.
#[verifier::ext_equal]
pub struct World {
    /// The window that owns the clipboard.
    pub owner: u32,
    /// The properties, by window and name.
    pub properties: Map<(u32, u32), Stored>,
    /// The conversions that were asked for.
    pub conversions: Seq<Conversion>,
    /// The notifications that were sent, each with its destination.
    pub sent: Seq<(u32, SelectionNotifyEvent)>,
}

/// The part of a property that a query is for.
pub open spec fn part(bytes: Seq<u8>, query: PropertyQuery) -> Seq<u8> {
    let from = 4 * query.long_offset;
    let to = from + 4 * query.long_length;
    if from > bytes.len() {
        seq![]
    } else if to > bytes.len() {
        bytes.skip(from)
    } else {
        bytes.subrange(from, to)
    }
}

impl World {
    /// Whether a query finds a property of bytes in the type that it names.
    pub open spec fn finds(self, query: PropertyQuery) -> bool {
        self.properties.contains_key((query.window, query.property)) && ({
            let stored = self.properties[(query.window, query.property)];
            stored.contents is Bytes && (query.type_ == 0 || query.type_ == stored.type_)
        })
    }

    /// The reply to a query. A property of another type is not told, but its type
    /// is; where there is no property, its type is none.
    pub open spec fn looked_up(self, query: PropertyQuery) -> PropertyReplyView {
        let key = (query.window, query.property);
        if !self.properties.contains_key(key) {
            PropertyReplyView { format: 0, type_: 0, value_len: 0, value: seq![] }
        } else if !self.finds(query) {
            PropertyReplyView {
                format: 8,
                type_: self.properties[key].type_,
                value_len: 0,
                value: seq![],
            }
        } else {
            let value = part(self.properties[key].contents->Bytes_0, query);
            PropertyReplyView {
                format: 8,
                type_: self.properties[key].type_,
                value_len: value.len() as u32,
                value,
            }
        }
    }

    /// The server's reply to a request.
    pub open spec fn reply(self, request: RequestView) -> ReplyView {
        match request {
            RequestView::GetSelectionOwner { .. } => ReplyView::Owner(self.owner),
            RequestView::GetProperty(query) => ReplyView::Property(self.looked_up(query)),
            _ => ReplyView::Done,
        }
    }

    /// The server after a request. A query that is to delete does so once it has
    /// told everything.
    pub open spec fn after(self, atoms: Atoms, request: RequestView) -> World {
        match request {
            RequestView::SetSelectionOwner { owner, selection, .. } => if selection
                == atoms.CLIPBOARD {
                World { owner, ..self }
            } else {
                self
            },
            RequestView::DeleteProperty { window, property } => World {
                properties: self.properties.remove((window, property)),
                ..self
            },
            RequestView::ChangeProperty8 { change, data } => World {
                properties: self.properties.insert(
                    (change.window, change.property),
                    Stored { type_: change.type_, contents: Contents::Bytes(data) },
                ),
                ..self
            },
            RequestView::ChangeProperty32 { change, data } => World {
                properties: self.properties.insert(
                    (change.window, change.property),
                    Stored { type_: change.type_, contents: Contents::Words(data) },
                ),
                ..self
            },
            RequestView::ConvertSelection(conversion) => World {
                conversions: self.conversions.push(conversion),
                ..self
            },
            RequestView::SendSelectionNotify { destination, event, .. } => World {
                sent: self.sent.push((destination, event)),
                ..self
            },
            RequestView::GetProperty(query) => if query.delete && self.finds(query) && part(
                self.properties[(query.window, query.property)].contents->Bytes_0,
                query,
            ) == self.properties[(query.window, query.property)].contents->Bytes_0 {
                World {
                    properties: self.properties.remove((query.window, query.property)),
                    ..self
                }
            } else {
                self
            },
            _ => self,
        }
    }

    /// Whether there is a property with these bytes.
    pub open spec fn has(self, window: u32, name: u32, type_: u32, bytes: Seq<u8>) -> bool {
        &&& self.properties.contains_key((window, name))
        &&& self.properties[(window, name)] == (Stored {
            type_,
            contents: Contents::Bytes(bytes),
        })
    }
}

/// The most bytes that one query asks for.
pub open spec fn in_one_query(bytes: Seq<u8>) -> bool {
    bytes.len() <= 0xffff_fffc
}

// ---------------------------------------------------------------- writing

/// A writing, the clipboard and the server after so many exchanges.
pub open spec fn exchange_write(
    write: WriteView,
    context: ContextView,
    world: World,
    count: nat,
) -> (WriteView, ContextView, World)
    decreases count,
{
    match write.pending(context) {
        Some(request) if count > 0 => exchange_write(
            write.next(context, world.reply(request)),
            write.context_after(context, world.reply(request)),
            world.after(context.atoms, request),
            (count - 1) as nat,
        ),
        _ => (write, context, world),
    }
}

/// Whoever owned the clipboard before, and if nobody did: after a writing it is
/// our window that owns it, and our data is what was written. Nothing else has
/// changed, here or at the server.
pub proof fn writing_takes_the_clipboard(context: ContextView, data: DataView, world: World)
    requires
        !context.serve_stopped,
    ensures
        exchange_write(WriteView::start(context, data), context, world, 3) == (
            WriteView::Finished(Ok::<(), ErrorView>(())),
            ContextView { data: Some(data), ..context },
            World { owner: context.server.win_id, ..world },
        ),
{
    reveal_with_fuel(exchange_write, 4);
}

/// A writing succeeds without a claim only if the owner that was reported is our
/// window; any other owner, nobody among them, has the selection claimed for it.
pub proof fn the_selection_is_claimed(context: ContextView, data: DataView, owner: u32)
    ensures
        owner == context.server.win_id ==> WriteView::AskingOwner(data).next(
            context,
            ReplyView::Owner(owner),
        ) == WriteView::Finished(Ok::<(), ErrorView>(())),
        owner != context.server.win_id ==> WriteView::AskingOwner(data).next(
            context,
            ReplyView::Owner(owner),
        ) == WriteView::Claiming(data),
        WriteView::AskingOwner(data).pending(context) == Some(
            RequestView::GetSelectionOwner { selection: context.atoms.CLIPBOARD },
        ),
        WriteView::Claiming(data).pending(context) == Some(
            RequestView::SetSelectionOwner {
                owner: context.server.win_id,
                selection: context.atoms.CLIPBOARD,
                time: 0,
            },
        ),
        WriteView::Flushing(data).pending(context) == Some(RequestView::Flush),
{
}

// ---------------------------------------------------------------- handing over

/// A handover, the clipboard and the server after so many exchanges, up to the
/// wait.
pub open spec fn exchange_handover(
    handover: HandoverView,
    context: ContextView,
    world: World,
    count: nat,
) -> (HandoverView, ContextView, World)
    decreases count,
{
    match handover.pending(context) {
        Some(request) if count > 0 => exchange_handover(
            handover.next(context, world.reply(request)),
            handover.context_after(context, world.reply(request)),
            world.after(context.atoms, request),
            (count - 1) as nat,
        ),
        _ => (handover, context, world),
    }
}

/// Whatever data we have, while we own the clipboard, the clipboard manager is
/// asked to save it: for `SAVE_TARGETS` of `CLIPBOARD_MANAGER`, by our window. Then
/// it is waited for, with the handover in progress.
pub proof fn any_data_is_offered_to_the_manager(context: ContextView, world: World)
    requires
        context.server.win_id != 0,
        world.owner == context.server.win_id,
        context.data is Some,
    ensures
        exchange_handover(HandoverView::start(context), context, world, 3) == (
            HandoverView::Waiting,
            ContextView { handover_state: ManagerHandoverState::InProgress, ..context },
            World {
                conversions: world.conversions.push(
                    Conversion {
                        requestor: context.server.win_id,
                        selection: context.atoms.CLIPBOARD_MANAGER,
                        target: context.atoms.SAVE_TARGETS,
                        property: context.atoms.ARBOARD_CLIPBOARD,
                        time: 0,
                    },
                ),
                ..world
            },
        ),
        HandoverView::Waiting.pending(context) == Some(
            RequestView::WaitForHandover { millis: 100 },
        ),
{
    reveal_with_fuel(exchange_handover, 4);
}

/// Without a window, the clipboard or data, the manager is asked for nothing, and
/// the handover is over.
pub proof fn nothing_is_offered_otherwise(context: ContextView, world: World)
    requires
        context.server.win_id == 0 || world.owner != context.server.win_id || context.data is None,
    ensures
        exchange_handover(HandoverView::start(context), context, world, 1) == (
            HandoverView::Finished(Ok::<(), ErrorView>(())),
            context,
            world,
        ),
{
    reveal_with_fuel(exchange_handover, 2);
}

// ---------------------------------------------------------------- serving

/// The server of requests, the clipboard and the X server after so many exchanges.
pub open spec fn exchange_serving(
    server: ServerView,
    context: ContextView,
    world: World,
    count: nat,
) -> (ServerView, ContextView, World)
    decreases count,
{
    match server.pending() {
        Some(request) if count > 0 => exchange_serving(
            server.next(context, world.reply(request)),
            server.context_after(context, world.reply(request)),
            world.after(context.atoms, request),
            (count - 1) as nat,
        ),
        _ => (server, context, world),
    }
}

/// The word that a request was met, or, with no property, that it was not.
pub open spec fn word(request: SelectionRequestEvent, property: u32) -> SelectionNotifyEvent {
    SelectionNotifyEvent {
        response_type: 31,
        sequence: request.sequence,
        time: request.time,
        requestor: request.requestor,
        selection: request.selection,
        target: request.target,
        property,
    }
}

/// What taking a request leads to: the server that has taken it.
pub open spec fn taking(
    server: ServerView,
    context: ContextView,
    request: SelectionRequestEvent,
) -> ServerView {
    server.next(context, ReplyView::Event(Some(Event::SelectionRequest(request))))
}

/// The server of requests after it has met one, as far as a handover is concerned.
pub open spec fn noted(server: ServerView, context: ContextView) -> ServerView {
    let handing_over = context.handover_state == ManagerHandoverState::InProgress;
    ServerView {
        written: server.written || handing_over,
        notified: server.notified,
        phase: if handing_over && server.notified {
            ServePhaseView::Notifying
        } else {
            ServePhaseView::Waiting
        },
    }
}

/// The clipboard after a request was met, as far as a handover is concerned.
pub open spec fn handed_over(server: ServerView, context: ContextView) -> ContextView {
    if context.handover_state == ManagerHandoverState::InProgress && server.notified {
        ContextView { handover_state: ManagerHandoverState::Finished, ..context }
    } else {
        context
    }
}

/// A request for the list of targets is answered in every state: the list is in
/// the property that the requestor named, as atoms, and the requestor is told so,
/// once. The list begins with `TARGETS` and `SAVE_TARGETS`, and has the format of
/// our data, if there is any, and the other names of UTF-8 text.
pub proof fn a_request_for_targets_is_answered(
    server: ServerView,
    context: ContextView,
    world: World,
    request: SelectionRequestEvent,
)
    requires
        server.phase is Waiting,
        request.selection == context.atoms.CLIPBOARD,
        request.target == context.atoms.TARGETS,
    ensures
        ({
            let atoms = context.atoms;
            let always = seq![atoms.TARGETS, atoms.SAVE_TARGETS];
            let targets = match context.data {
                None => always,
                Some(data) => if data.format == atoms.UTF8_STRING {
                    always + seq![atoms.UTF8_STRING, atoms.UTF8_MIME_0, atoms.UTF8_MIME_1]
                } else {
                    always + seq![data.format]
                },
            };
            let (after, clipboard, there) = exchange_serving(
                taking(server, context, request),
                context,
                world,
                4,
            );
            &&& after == noted(server, context)
            &&& clipboard == handed_over(server, context)
            &&& there == World {
                properties: world.properties.insert(
                    (request.requestor, request.property),
                    Stored { type_: atoms.ATOM, contents: Contents::Words(targets) },
                ),
                sent: world.sent.push((request.requestor, word(request, request.property))),
                ..world
            }
        }),
{
    answer_is_exchanged(server, context, world, request);
}

/// A request for our data is answered in every state, under the name of its format
/// or, for UTF-8 text, under its other names: all its bytes are in the property that
/// the requestor named, under that name, and the requestor is told so, once.
pub proof fn a_request_for_our_data_is_answered(
    server: ServerView,
    context: ContextView,
    world: World,
    request: SelectionRequestEvent,
)
    requires
        server.phase is Waiting,
        request.selection == context.atoms.CLIPBOARD,
        request.target != context.atoms.TARGETS,
        context.data matches Some(data) && (data.format == request.target || (data.format
            == context.atoms.UTF8_STRING && (request.target == context.atoms.UTF8_MIME_0
            || request.target == context.atoms.UTF8_MIME_1))),
    ensures
        ({
            let (after, clipboard, there) = exchange_serving(
                taking(server, context, request),
                context,
                world,
                4,
            );
            &&& after == noted(server, context)
            &&& clipboard == handed_over(server, context)
            &&& there == World {
                properties: world.properties.insert(
                    (request.requestor, request.property),
                    Stored {
                        type_: request.target,
                        contents: Contents::Bytes(context.data.unwrap().bytes),
                    },
                ),
                sent: world.sent.push((request.requestor, word(request, request.property))),
                ..world
            }
        }),
{
    answer_is_exchanged(server, context, world, request);
}

/// Any other request for the clipboard is answered with a refusal in every state:
/// the requestor is told of no property, once, and nothing is written.
pub proof fn any_other_request_is_refused(
    server: ServerView,
    context: ContextView,
    world: World,
    request: SelectionRequestEvent,
)
    requires
        server.phase is Waiting,
        request.selection == context.atoms.CLIPBOARD,
        request.target != context.atoms.TARGETS,
        context.data matches Some(data) ==> data.format != request.target && !(data.format
            == context.atoms.UTF8_STRING && (request.target == context.atoms.UTF8_MIME_0
            || request.target == context.atoms.UTF8_MIME_1)),
    ensures
        ({
            let (after, clipboard, there) = exchange_serving(
                taking(server, context, request),
                context,
                world,
                2,
            );
            &&& after == noted(server, context)
            &&& clipboard == handed_over(server, context)
            &&& there == World {
                sent: world.sent.push((request.requestor, word(request, 0))),
                ..world
            }
        }),
{
    answer_is_exchanged(server, context, world, request);
}

/// A request for another selection is passed over: nothing is said to anybody. In
/// a handover it counts as answered all the same.
pub proof fn a_request_for_another_selection_is_passed_over(
    server: ServerView,
    context: ContextView,
    request: SelectionRequestEvent,
)
    requires
        server.phase is Waiting,
        request.selection != context.atoms.CLIPBOARD,
    ensures
        taking(server, context, request) == noted(server, context),
        server.context_after(
            context,
            ReplyView::Event(Some(Event::SelectionRequest(request))),
        ) == handed_over(server, context),
{
}

/// Every request for the clipboard is taken up at once, with all of its answer.
pub proof fn a_request_is_taken_up(
    server: ServerView,
    context: ContextView,
    request: SelectionRequestEvent,
)
    requires
        server.phase is Waiting,
        request.selection == context.atoms.CLIPBOARD,
    ensures
        taking(server, context, request) == (ServerView {
            phase: ServePhaseView::Answering(context.answer(request)),
            ..server
        }),
        server.context_after(
            context,
            ReplyView::Event(Some(Event::SelectionRequest(request))),
        ) == context,
        server.pending() == Some(RequestView::WaitForEvent),
{
}

/// The exchanges that an answer takes, one by one.
proof fn answer_is_exchanged(
    server: ServerView,
    context: ContextView,
    world: World,
    request: SelectionRequestEvent,
)
    requires
        server.phase is Waiting,
        request.selection == context.atoms.CLIPBOARD,
    ensures
        ({
            let plan = context.answer(request);
            let taken = taking(server, context, request);
            &&& plan.len() == 4 ==> exchange_serving(taken, context, world, 4) == (
                noted(server, context),
                handed_over(server, context),
                world.after(context.atoms, plan[0]).after(context.atoms, plan[1]).after(
                    context.atoms,
                    plan[2],
                ).after(context.atoms, plan[3]),
            )
            &&& plan.len() == 2 ==> exchange_serving(taken, context, world, 2) == (
                noted(server, context),
                handed_over(server, context),
                world.after(context.atoms, plan[0]).after(context.atoms, plan[1]),
            )
        }),
{
    reveal_with_fuel(exchange_serving, 5);
    let plan = context.answer(request);
    let taken = taking(server, context, request);
    assert(taken == server.at(ServePhaseView::Answering(plan)));
    if plan.len() == 4 {
        let rest = plan.drop_first();
        assert(rest[0] == plan[1]);
        assert(rest.drop_first()[0] == plan[2]);
        assert(rest.drop_first().drop_first()[0] == plan[3]);
        assert(rest.drop_first().drop_first().drop_first().len() == 0);
    } else {
        assert(plan.drop_first()[0] == plan[1]);
        assert(plan.drop_first().drop_first().len() == 0);
    }
}

// ---------------------------------------------------------------- reading

/// The reading of one format and the server after an exchange.
pub open spec fn exchange_read(read: ReadSingleView, world: World) -> (ReadSingleView, World) {
    match read.pending() {
        Some(request) => (
            read.next(world.reply(request)),
            world.after(read.atoms, request),
        ),
        None => (read, world),
    }
}

/// A reading begins by clearing the place for the contents, and asks for the
/// conversion of the clipboard to its format, into that place on its own window.
pub proof fn a_reading_asks_for_its_format(
    atoms: Atoms,
    reader: u32,
    target_format: u32,
    world: World,
)
    ensures
        ({
            let start = ReadSingleView::start(atoms, reader, target_format);
            let (cleared, world1) = exchange_read(start, world);
            let (asked, world2) = exchange_read(cleared, world1);
            let (synced, world3) = exchange_read(asked, world2);
            &&& start.atoms == atoms && start.reader == reader && start.target_format
                == target_format
            &&& synced == ReadSingleView { phase: ReadPhaseView::Starting, ..start }
            &&& asked.pending() == Some(RequestView::Sync)
            &&& world3 == World {
                properties: world.properties.remove((reader, atoms.ARBOARD_CLIPBOARD)),
                conversions: world.conversions.push(
                    Conversion {
                        requestor: reader,
                        selection: atoms.CLIPBOARD,
                        target: target_format,
                        property: atoms.ARBOARD_CLIPBOARD,
                        time: 0,
                    },
                ),
                ..world
            }
        }),
{
}

/// When the owner says where the contents are, they are fetched from there, all of
/// them, and the place is cleared: the outcome is what the owner has put there.
pub proof fn contents_are_fetched(
    read: ReadSingleView,
    event: SelectionNotifyEvent,
    world: World,
    bytes: Seq<u8>,
)
    requires
        read.phase == ReadPhaseView::Polling,
        !read.using_incr,
        event.property != 0,
        event.target == read.target_format,
        event.selection == read.atoms.CLIPBOARD,
        world.has(event.requestor, event.property, read.target_format, bytes),
        in_one_query(bytes),
    ensures
        ({
            let told = read.next(ReplyView::Event(Some(Event::SelectionNotify(event))));
            let (fetched, after) = exchange_read(told, world);
            &&& fetched == ReadSingleView {
                phase: ReadPhaseView::Finished(Ok::<Seq<u8>, ErrorView>(bytes)),
                ..read
            }
            &&& after == World {
                properties: world.properties.remove((event.requestor, event.property)),
                ..world
            }
        }),
{
    whole_property_is_told(world, event.requestor, event.property, read.target_format, bytes);
}

/// When the place holds an announcement instead, it is noticed by its type, then
/// cleared, which lets the owner begin; pieces are awaited from then on.
pub proof fn an_announcement_is_cleared(
    read: ReadSingleView,
    event: SelectionNotifyEvent,
    world: World,
    bytes: Seq<u8>,
)
    requires
        read.phase == ReadPhaseView::Polling,
        !read.using_incr,
        event.property != 0,
        event.target == read.target_format,
        event.selection == read.atoms.CLIPBOARD,
        read.target_format != read.atoms.INCR,
        read.target_format != 0,
        read.atoms.INCR != 0,
        world.has(event.requestor, event.property, read.atoms.INCR, bytes),
        in_one_query(bytes),
    ensures
        ({
            let told = read.next(ReplyView::Event(Some(Event::SelectionNotify(event))));
            let (noticed, world1) = exchange_read(told, world);
            let (cleared, world2) = exchange_read(noticed, world1);
            &&& world1 == world
            &&& cleared == ReadSingleView {
                using_incr: true,
                timeout_end: read.timeout_end + 10_000_000,
                phase: ReadPhaseView::Checking,
                ..read
            }
            &&& world2 == World {
                properties: world.properties.remove((event.requestor, event.property)),
                ..world
            }
        }),
{
    whole_property_is_told(world, event.requestor, event.property, read.atoms.INCR, bytes);
}

/// When a piece has come, it is fetched from where it is, all of it, and its place
/// is cleared, which lets the owner go on: the piece is added to those before.
pub proof fn a_piece_is_fetched(
    read: ReadSingleView,
    event: PropertyNotifyEvent,
    world: World,
    piece: Seq<u8>,
)
    requires
        read.phase == ReadPhaseView::Polling,
        read.using_incr,
        event.atom == read.atoms.ARBOARD_CLIPBOARD,
        event.state == 0,
        world.has(event.window, event.atom, read.target_format, piece),
        0 < piece.len(),
        in_one_query(piece),
    ensures
        ({
            let told = read.next(ReplyView::Event(Some(Event::PropertyNotify(event))));
            let (fetched, after) = exchange_read(told, world);
            &&& fetched == ReadSingleView {
                incr_data: read.incr_data + piece,
                phase: ReadPhaseView::Extending,
                ..read
            }
            &&& after == World {
                properties: world.properties.remove((event.window, event.atom)),
                ..world
            }
        }),
{
    whole_property_is_told(world, event.window, event.atom, read.target_format, piece);
}

/// When the place is filled with nothing, the transfer is over: the outcome is all
/// that was collected.
pub proof fn an_empty_piece_ends_the_transfer(
    read: ReadSingleView,
    event: PropertyNotifyEvent,
    world: World,
)
    requires
        read.phase == ReadPhaseView::Polling,
        read.using_incr,
        event.atom == read.atoms.ARBOARD_CLIPBOARD,
        event.state == 0,
        world.has(event.window, event.atom, read.target_format, seq![]),
    ensures
        ({
            let told = read.next(ReplyView::Event(Some(Event::PropertyNotify(event))));
            let (fetched, after) = exchange_read(told, world);
            &&& fetched.phase == ReadPhaseView::Finished(Ok::<Seq<u8>, ErrorView>(read.incr_data))
            &&& after == World {
                properties: world.properties.remove((event.window, event.atom)),
                ..world
            }
        }),
{
    whole_property_is_told(world, event.window, event.atom, read.target_format, seq![]);
}

/// A query in the right type, or in any, for more than there is tells everything.
proof fn whole_property_is_told(world: World, window: u32, name: u32, type_: u32, bytes: Seq<u8>)
    requires
        world.has(window, name, type_, bytes),
        in_one_query(bytes),
    ensures
        ({
            let query = PropertyQuery {
                delete: true,
                window,
                property: name,
                type_,
                long_offset: 0,
                long_length: 0x3fff_ffff,
            };
            &&& part(bytes, query) == bytes
            &&& world.finds(query)
            &&& world.looked_up(query) == (PropertyReplyView {
                format: 8,
                type_,
                value_len: bytes.len() as u32,
                value: bytes,
            })
        }),
{
    assert(bytes.skip(0) == bytes);
    assert(bytes.subrange(0, bytes.len() as int) == bytes);
}

/// What a reading asks of a property, field by field: the place that the owner or
/// the server has named, from its beginning, in full, and with deletion; as
/// contents, in the format that was asked for; as an announcement, as that.
pub proof fn properties_are_asked_for_in_full(
    read: ReadSingleView,
    told: SelectionNotifyEvent,
    news: PropertyNotifyEvent,
)
    ensures
        read.phase == ReadPhaseView::FetchingSelection(told) ==> (read.pending() matches Some(
            RequestView::GetProperty(query),
        ) && {
            &&& query.delete
            &&& query.window == told.requestor
            &&& query.property == told.property
            &&& query.type_ == told.target
            &&& query.long_offset == 0
            &&& query.long_length == 0x3fff_ffff
        }),
        read.phase == ReadPhaseView::FetchingAnnouncement(told) ==> (read.pending() matches Some(
            RequestView::GetProperty(query),
        ) && {
            &&& query.delete
            &&& query.window == told.requestor
            &&& query.property == told.property
            &&& query.type_ == read.atoms.INCR
            &&& query.long_offset == 0
            &&& query.long_length == 0x3fff_ffff
        }),
        read.phase == ReadPhaseView::FetchingPiece(news) ==> (read.pending() matches Some(
            RequestView::GetProperty(query),
        ) && {
            &&& query.delete
            &&& query.window == news.window
            &&& query.property == news.atom
            &&& query.type_ == read.target_format
            &&& query.long_offset == 0
            &&& query.long_length == 0x3fff_ffff
        }),
{
}

} // verus!
