//! Laws of the transfer of one format.
use vstd::prelude::*;
use crate::error::ErrorView;
use crate::atoms::Atoms;
use crate::protocol::{
    Event, PropertyNotifyEvent, PropertyReplyView, ReplyView, SelectionNotifyEvent, NONE,
    PROPERTY_NEW_VALUE,
};
use crate::read_single::{ReadPhaseView, ReadSingleView, LONG_TIMEOUT, SHORT_TIMEOUT};

verus! {

/// A reading after several replies.
pub open spec fn run_single(read: ReadSingleView, replies: Seq<ReplyView>) -> ReadSingleView
    decreases replies.len(),
{
    if replies.len() == 0 {
        read
    } else {
        run_single(read, replies.drop_last()).next(replies.last())
    }
}

/// The pieces that a reading takes out of these replies, in their order.
pub open spec fn pieces(read: ReadSingleView, replies: Seq<ReplyView>) -> Seq<Seq<u8>>
    decreases replies.len(),
{
    if replies.len() == 0 {
        seq![]
    } else {
        let before = pieces(read, replies.drop_last());
        match (run_single(read, replies.drop_last()).phase, replies.last()) {
            (
                ReadPhaseView::FetchingPiece(_),
                ReplyView::Property(reply),
            ) => if reply.value_len == 0 {
                before
            } else {
                before.push(reply.value)
            },
            _ => before,
        }
    }
}

/// All pieces, one behind the other.
pub open spec fn joined(pieces: Seq<Seq<u8>>) -> Seq<u8>
    decreases pieces.len(),
{
    if pieces.len() == 0 {
        seq![]
    } else {
        joined(pieces.drop_last()) + pieces.last()
    }
}

/// A reading that is over stays as it is.
pub proof fn finished_reading_stays(read: ReadSingleView, reply: ReplyView)
    requires
        read.phase is Finished,
    ensures
        read.next(reply) == read,
        read.pending() is None,
{
}

/// What a reading collects is at every time the pieces that have come, one
/// behind the other, whatever else has happened between them.
proof fn collected_pieces(read: ReadSingleView, replies: Seq<ReplyView>)
    requires
        read.incr_data.len() == 0,
    ensures
        !(run_single(read, replies).phase is Finished) ==> run_single(read, replies).incr_data
            == joined(pieces(read, replies)),
    decreases replies.len(),
{
    if replies.len() > 0 {
        collected_pieces(read, replies.drop_last());
        let before = pieces(read, replies.drop_last());
        if pieces(read, replies).len() > before.len() {
            assert(pieces(read, replies).drop_last() == before);
        }
    }
}

/// The outcome of a transfer. Where an incremental transfer ends with an empty
/// piece, the outcome is all pieces that have come before it, one behind the
/// other and with nothing left out.
pub proof fn incremental_transfer_joins_pieces(
    read: ReadSingleView,
    replies: Seq<ReplyView>,
    last: ReplyView,
)
    requires
        read.incr_data.len() == 0,
        run_single(read, replies).phase is FetchingPiece,
        last matches ReplyView::Property(reply) && reply.value_len == 0,
    ensures
        run_single(read, replies.push(last)).phase == ReadPhaseView::Finished(
            Ok(joined(pieces(read, replies))),
        ),
{
    collected_pieces(read, replies);
    assert(replies.push(last).drop_last() == replies);
}

/// Contents that come in one piece are the outcome, as they are.
pub proof fn direct_transfer_yields_the_property(read: ReadSingleView, reply: ReplyView)
    requires
        read.phase is FetchingSelection,
        reply matches ReplyView::Property(reply) && reply.type_ == read.target_format,
    ensures
        read.next(reply).phase == ReadPhaseView::Finished(
            Ok::<Seq<u8>, ErrorView>(reply->Property_0.value),
        ),
{
}

/// A reading succeeds with nothing but the contents that the owner sent: those
/// of the property in one piece, or the pieces collected.
pub proof fn success_has_a_source(read: ReadSingleView, reply: ReplyView, bytes: Seq<u8>)
    requires
        !(read.phase is Finished),
        read.next(reply).phase == ReadPhaseView::Finished(Ok::<Seq<u8>, ErrorView>(bytes)),
    ensures
        reply is Property,
        read.phase is FetchingSelection ==> bytes == reply->Property_0.value
            && reply->Property_0.type_ == read.target_format,
        !(read.phase is FetchingSelection) ==> read.phase is FetchingPiece && bytes
            == read.incr_data && reply->Property_0.value_len == 0,
{
}

/// A reading finds the contents unavailable for one of two reasons: the
/// deadline has passed, or the owner has refused, which an answer about another
/// target amounts to.
pub proof fn unavailable_has_a_reason(read: ReadSingleView, reply: ReplyView)
    requires
        !(read.phase is Finished),
    ensures
        read.next(reply).phase == ReadPhaseView::Finished(
            Err::<Seq<u8>, ErrorView>(ErrorView::ContentNotAvailable),
        ) <==> {
            ||| read.phase is Checking && (reply matches ReplyView::Clock(now) && now
                >= read.timeout_end)
            ||| read.phase is Polling && (reply matches ReplyView::Event(
                Some(Event::SelectionNotify(event)),
            ) && (event.property == NONE || event.target != read.target_format))
        },
{
}

/// Once an incremental transfer was announced, it stays so, and none is
/// announced again.
pub proof fn incremental_transfer_is_announced_once(read: ReadSingleView, replies: Seq<ReplyView>)
    requires
        read.well_formed(),
        read.using_incr,
    ensures
        run_single(read, replies).using_incr,
        !(run_single(read, replies).phase is FetchingAnnouncement),
        !(run_single(read, replies).phase is FetchingSelection),
    decreases replies.len(),
{
    if replies.len() > 0 {
        incremental_transfer_is_announced_once(read, replies.drop_last());
    }
}

/// Replies that come in two lots come as one.
pub proof fn run_single_in_two(
    read: ReadSingleView,
    first: Seq<ReplyView>,
    second: Seq<ReplyView>,
)
    ensures
        run_single(read, first + second) == run_single(run_single(read, first), second),
    decreases second.len(),
{
    if second.len() == 0 {
        assert(first + second == first);
    } else {
        run_single_in_two(read, first, second.drop_last());
        assert((first + second).drop_last() == first + second.drop_last());
    }
}

/// The replies up to the owner's answer, when everything goes as it should:
/// `asked` is the time when the owner was asked, `seen` that when the answer was
/// looked for.
pub open spec fn prompt_answer(
    asked: u128,
    seen: u128,
    event: SelectionNotifyEvent,
) -> Seq<ReplyView> {
    seq![
        ReplyView::Done,
        ReplyView::Done,
        ReplyView::Done,
        ReplyView::Clock(asked),
        ReplyView::Clock(seen),
        ReplyView::Event(Some(Event::SelectionNotify(event))),
    ]
}

/// Whether an answer is the one that a reading waits for.
pub open spec fn accepts(read: ReadSingleView, event: SelectionNotifyEvent) -> bool {
    &&& event.property != NONE
    &&& event.target == read.target_format
    &&& event.selection == read.atoms.CLIPBOARD
}

/// An owner that answers in time has its property read.
pub proof fn prompt_answer_is_looked_into(
    atoms: Atoms,
    reader: u32,
    target_format: u32,
    asked: u128,
    seen: u128,
    event: SelectionNotifyEvent,
)
    requires
        seen < asked + LONG_TIMEOUT,
        accepts(ReadSingleView::start(atoms, reader, target_format), event),
    ensures
        run_single(
            ReadSingleView::start(atoms, reader, target_format),
            prompt_answer(asked, seen, event),
        ) == (ReadSingleView {
            timeout_end: asked + LONG_TIMEOUT,
            phase: ReadPhaseView::FetchingSelection(event),
            ..ReadSingleView::start(atoms, reader, target_format)
        }),
{
    let read = ReadSingleView::start(atoms, reader, target_format);
    let replies = prompt_answer(asked, seen, event);
    assert(replies.take(6) == replies);
    assert(replies.take(0) == Seq::<ReplyView>::empty());
    assert forall|k: int| 0 < k <= 6 implies run_single(read, #[trigger] replies.take(k))
        == run_single(read, replies.take(k - 1)).next(replies[k - 1]) by {
        assert(replies.take(k).drop_last() == replies.take(k - 1));
    }
    assert(run_single(read, replies.take(1)) == read.at(ReadPhaseView::Converting));
    assert(run_single(read, replies.take(2)) == read.at(ReadPhaseView::Syncing));
    assert(run_single(read, replies.take(3)) == read.at(ReadPhaseView::Starting));
    let started = ReadSingleView { timeout_end: asked + LONG_TIMEOUT, ..read };
    assert(run_single(read, replies.take(4)) == started.at(ReadPhaseView::Checking));
    assert(run_single(read, replies.take(5)) == started.at(ReadPhaseView::Polling));
    assert(run_single(read, replies.take(6)) == started.at(
        ReadPhaseView::FetchingSelection(event),
    ));
}

/// A transfer in one piece succeeds if the owner answers in time and leaves the
/// contents in the format that was asked for.
pub proof fn prompt_owner_is_read(
    atoms: Atoms,
    reader: u32,
    target_format: u32,
    asked: u128,
    seen: u128,
    event: SelectionNotifyEvent,
    property: PropertyReplyView,
)
    requires
        seen < asked + LONG_TIMEOUT,
        accepts(ReadSingleView::start(atoms, reader, target_format), event),
        property.type_ == target_format,
    ensures
        run_single(
            ReadSingleView::start(atoms, reader, target_format),
            prompt_answer(asked, seen, event).push(ReplyView::Property(property)),
        ).phase == ReadPhaseView::Finished(Ok::<Seq<u8>, ErrorView>(property.value)),
{
    prompt_answer_is_looked_into(atoms, reader, target_format, asked, seen, event);
    let replies = prompt_answer(asked, seen, event);
    assert(replies.push(ReplyView::Property(property)).drop_last() == replies);
}

/// An owner that answers in time with an announcement has its pieces awaited,
/// with nothing collected yet and a little more time.
pub proof fn prompt_announcement_is_heeded(
    atoms: Atoms,
    reader: u32,
    target_format: u32,
    asked: u128,
    seen: u128,
    event: SelectionNotifyEvent,
    property: PropertyReplyView,
    announcement: PropertyReplyView,
)
    requires
        seen < asked + LONG_TIMEOUT,
        accepts(ReadSingleView::start(atoms, reader, target_format), event),
        property.type_ == atoms.INCR,
        target_format != atoms.INCR,
    ensures
        run_single(
            ReadSingleView::start(atoms, reader, target_format),
            prompt_answer(asked, seen, event).push(ReplyView::Property(property)).push(
                ReplyView::Property(announcement),
            ),
        ) == (ReadSingleView {
            using_incr: true,
            timeout_end: asked + LONG_TIMEOUT + SHORT_TIMEOUT,
            phase: ReadPhaseView::Checking,
            ..ReadSingleView::start(atoms, reader, target_format)
        }),
{
    prompt_answer_is_looked_into(atoms, reader, target_format, asked, seen, event);
    let replies = prompt_answer(asked, seen, event);
    let told = replies.push(ReplyView::Property(property));
    assert(told.drop_last() == replies);
    assert(told.push(ReplyView::Property(announcement)).drop_last() == told);
    let start = ReadSingleView::start(atoms, reader, target_format);
    assert(run_single(start, told).phase == ReadPhaseView::FetchingAnnouncement(event));
}

/// One piece of an incremental transfer: it was looked for at `seen`, announced
/// by `event`, and taken at `taken`.
pub struct Arrival {
    pub seen: u128,
    pub event: PropertyNotifyEvent,
    pub piece: PropertyReplyView,
    pub taken: u128,
}

impl Arrival {
    /// The replies that a piece comes with.
    pub open spec fn replies(self) -> Seq<ReplyView> {
        seq![
            ReplyView::Clock(self.seen),
            ReplyView::Event(Some(Event::PropertyNotify(self.event))),
            ReplyView::Property(self.piece),
            ReplyView::Clock(self.taken),
        ]
    }

    /// Whether a piece comes to the right place.
    pub open spec fn expected(self, atoms: Atoms) -> bool {
        &&& self.event.atom == atoms.ARBOARD_CLIPBOARD
        &&& self.event.state == PROPERTY_NEW_VALUE
    }
}

/// Whether the piece at `i` comes before the deadline: the first one's is given,
/// any other's was set by the piece before it.
pub open spec fn on_time(deadline: int, arrivals: Seq<Arrival>, i: int) -> bool {
    arrivals[i].seen < if i == 0 {
        deadline
    } else {
        arrivals[i - 1].taken + SHORT_TIMEOUT
    }
}

/// Whether each piece comes before its deadline.
pub open spec fn in_time(deadline: int, arrivals: Seq<Arrival>) -> bool {
    forall|i: int| 0 <= i < arrivals.len() ==> #[trigger] on_time(deadline, arrivals, i)
}

/// The replies that several pieces come with.
pub open spec fn arriving(arrivals: Seq<Arrival>) -> Seq<ReplyView>
    decreases arrivals.len(),
{
    if arrivals.len() == 0 {
        seq![]
    } else {
        arriving(arrivals.drop_last()) + arrivals.last().replies()
    }
}

/// The values of several pieces.
pub open spec fn values(arrivals: Seq<Arrival>) -> Seq<Seq<u8>> {
    arrivals.map_values(|arrival: Arrival| arrival.piece.value)
}

/// One piece that comes in time is added, and sets the next deadline.
proof fn piece_is_added(read: ReadSingleView, arrival: Arrival)
    requires
        read.using_incr,
        read.phase is Checking,
        arrival.expected(read.atoms),
        arrival.seen < read.timeout_end,
        arrival.piece.value_len != 0,
    ensures
        run_single(read, arrival.replies()) == (ReadSingleView {
            incr_data: read.incr_data + arrival.piece.value,
            timeout_end: arrival.taken + SHORT_TIMEOUT,
            ..read
        }),
{
    let replies = arrival.replies();
    assert(replies.take(4) == replies);
    assert(replies.take(0) == Seq::<ReplyView>::empty());
    assert forall|k: int| 0 < k <= 4 implies run_single(read, #[trigger] replies.take(k))
        == run_single(read, replies.take(k - 1)).next(replies[k - 1]) by {
        assert(replies.take(k).drop_last() == replies.take(k - 1));
    }
    assert(run_single(read, replies.take(1)) == read.at(ReadPhaseView::Polling));
    assert(run_single(read, replies.take(2)) == read.at(
        ReadPhaseView::FetchingPiece(arrival.event),
    ));
    assert(run_single(read, replies.take(3)).phase is Extending);
    assert(run_single(read, replies.take(4)).phase is Checking);
}

/// Pieces that come in time are all added.
pub proof fn prompt_pieces_are_added(read: ReadSingleView, arrivals: Seq<Arrival>)
    requires
        read.using_incr,
        read.phase is Checking,
        in_time(read.timeout_end, arrivals),
        forall|i: int|
            0 <= i < arrivals.len() ==> (#[trigger] arrivals[i]).expected(read.atoms)
                && arrivals[i].piece.value_len != 0,
    ensures
        run_single(read, arriving(arrivals)) == (ReadSingleView {
            incr_data: read.incr_data + joined(values(arrivals)),
            timeout_end: if arrivals.len() == 0 {
                read.timeout_end
            } else {
                arrivals.last().taken + SHORT_TIMEOUT
            },
            ..read
        }),
    decreases arrivals.len(),
{
    if arrivals.len() == 0 {
        assert(read.incr_data + joined(values(arrivals)) == read.incr_data);
    } else {
        let before = arrivals.drop_last();
        let last = arrivals.last();
        assert forall|i: int| 0 <= i < before.len() implies (#[trigger] before[i]).expected(
            read.atoms,
        ) && before[i].piece.value_len != 0 by {
            assert(before[i] == arrivals[i]);
        }
        assert forall|i: int| 0 <= i < before.len() implies #[trigger] on_time(
            read.timeout_end,
            before,
            i,
        ) by {
            assert(on_time(read.timeout_end, arrivals, i));
        }
        prompt_pieces_are_added(read, before);
        run_single_in_two(read, arriving(before), last.replies());
        assert(arrivals[arrivals.len() - 1].expected(read.atoms));
        assert(on_time(read.timeout_end, arrivals, arrivals.len() - 1));
        piece_is_added(run_single(read, arriving(before)), last);
        assert(values(arrivals).drop_last() == values(before));
        assert(read.incr_data + joined(values(before)) + last.piece.value == read.incr_data
            + joined(values(arrivals)));
    }
}

/// An incremental transfer succeeds with all its pieces, one behind the other,
/// if each comes in time and an empty one ends it.
pub proof fn prompt_incremental_transfer_is_read(
    read: ReadSingleView,
    arrivals: Seq<Arrival>,
    end: Arrival,
)
    requires
        read.using_incr,
        read.phase is Checking,
        read.incr_data.len() == 0,
        in_time(read.timeout_end, arrivals.push(end)),
        forall|i: int|
            0 <= i < arrivals.len() ==> (#[trigger] arrivals[i]).expected(read.atoms)
                && arrivals[i].piece.value_len != 0,
        end.expected(read.atoms),
        end.piece.value_len == 0,
    ensures
        run_single(read, arriving(arrivals) + end.replies().drop_last()).phase
            == ReadPhaseView::Finished(Ok::<Seq<u8>, ErrorView>(joined(values(arrivals)))),
{
    let all = arrivals.push(end);
    assert forall|i: int| 0 <= i < arrivals.len() implies #[trigger] on_time(
        read.timeout_end,
        arrivals,
        i,
    ) by {
        assert(on_time(read.timeout_end, all, i));
    }
    prompt_pieces_are_added(read, arrivals);
    assert(on_time(read.timeout_end, all, arrivals.len() as int));
    let waiting = run_single(read, arriving(arrivals));
    let replies = end.replies().drop_last();
    run_single_in_two(read, arriving(arrivals), replies);
    assert(read.incr_data + joined(values(arrivals)) == joined(values(arrivals)));
    assert(replies.take(3) == replies);
    assert(replies.take(0) == Seq::<ReplyView>::empty());
    assert forall|k: int| 0 < k <= 3 implies run_single(waiting, #[trigger] replies.take(k))
        == run_single(waiting, replies.take(k - 1)).next(replies[k - 1]) by {
        assert(replies.take(k).drop_last() == replies.take(k - 1));
    }
    assert(run_single(waiting, replies.take(1)) == waiting.at(ReadPhaseView::Polling));
    assert(run_single(waiting, replies.take(2)) == waiting.at(
        ReadPhaseView::FetchingPiece(end.event),
    ));
    assert(run_single(waiting, replies.take(3)).phase is Finished);
}

/// A reading goes on asking the same owner for the same format throughout.
pub proof fn target_stays(read: ReadSingleView, replies: Seq<ReplyView>)
    ensures
        run_single(read, replies).target_format == read.target_format,
        run_single(read, replies).reader == read.reader,
        run_single(read, replies).atoms == read.atoms,
    decreases replies.len(),
{
    if replies.len() > 0 {
        target_stays(read, replies.drop_last());
    }
}

} // verus!
