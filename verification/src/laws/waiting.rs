//! Laws of how long is waited for what is read.
use vstd::prelude::*;
use crate::atoms::Atoms;
use crate::error::ErrorView;
use crate::laws::transferring::{run_single, run_single_in_two};
use crate::protocol::{
    Event, PropertyReplyView, ReplyView, RequestView, SelectionNotifyEvent,
};
use crate::read_single::{ReadPhaseView, ReadSingleView};

verus! {

/// Something that passes while a reading waits, and the time it was looked for.
pub enum Pause {
    /// There was no event, and a pause was made.
    Empty { at: u128 },
    /// There was an event that does not concern the reading.
    Foreign { at: u128, event: Event },
}

/// Whether an event does not concern a reading: any other than an answer or news
/// of a property; an answer about another selection, or a further one during an
/// incremental transfer, if it is no refusal; news of another property, or of one
/// that went; and any news of a property while no pieces are awaited.
pub open spec fn foreign_to(read: ReadSingleView, event: Event) -> bool {
    match event {
        Event::SelectionNotify(event) => {
            &&& event.property != 0
            &&& event.target == read.target_format
            &&& event.selection != read.atoms.CLIPBOARD || read.using_incr
        },
        Event::PropertyNotify(event) => {
            ||| !read.using_incr
            ||| event.atom != read.atoms.ARBOARD_CLIPBOARD
            ||| event.state != 0
        },
        _ => true,
    }
}

impl Pause {
    /// The replies that it comes with.
    pub open spec fn replies(self) -> Seq<ReplyView> {
        match self {
            Pause::Empty { at } => seq![
                ReplyView::Clock(at),
                ReplyView::Event(None),
                ReplyView::Done,
            ],
            Pause::Foreign { at, event } => seq![
                ReplyView::Clock(at),
                ReplyView::Event(Some(event)),
            ],
        }
    }

    /// Whether it passes before the deadline of a reading, and does not concern it.
    pub open spec fn passes(self, read: ReadSingleView) -> bool {
        match self {
            Pause::Empty { at } => at < read.timeout_end,
            Pause::Foreign { at, event } => at < read.timeout_end && foreign_to(read, event),
        }
    }
}

/// The replies that several such things come with.
pub open spec fn pausing(pauses: Seq<Pause>) -> Seq<ReplyView>
    decreases pauses.len(),
{
    if pauses.len() == 0 {
        seq![]
    } else {
        pausing(pauses.drop_last()) + pauses.last().replies()
    }
}

/// A reading after two replies, and after three.
proof fn run_single_by_steps(read: ReadSingleView, a: ReplyView, b: ReplyView, c: ReplyView)
    ensures
        run_single(read, seq![a, b]) == read.next(a).next(b),
        run_single(read, seq![a, b, c]) == read.next(a).next(b).next(c),
{
    assert(seq![a, b, c].drop_last() == seq![a, b]);
    assert(seq![a, b].drop_last() == seq![a]);
    assert(seq![a].drop_last() == Seq::<ReplyView>::empty());
    reveal_with_fuel(run_single, 4);
}

/// However often no event is there, and whatever passes that does not concern it, a
/// reading waits on until its deadline as if nothing had been: the deadline and all
/// else stay as they are.
pub proof fn waiting_changes_nothing(read: ReadSingleView, pauses: Seq<Pause>)
    requires
        read.phase is Checking,
        forall|i: int| 0 <= i < pauses.len() ==> (#[trigger] pauses[i]).passes(read),
    ensures
        run_single(read, pausing(pauses)) == read,
    decreases pauses.len(),
{
    if pauses.len() > 0 {
        let before = pauses.drop_last();
        let last = pauses.last();
        assert forall|i: int| 0 <= i < before.len() implies (#[trigger] before[i]).passes(read) by {
            assert(before[i] == pauses[i]);
        }
        waiting_changes_nothing(read, before);
        run_single_in_two(read, pausing(before), last.replies());
        assert(pauses[pauses.len() - 1].passes(read));
        match last {
            Pause::Empty { at } => {
                run_single_by_steps(
                    read,
                    ReplyView::Clock(at),
                    ReplyView::Event(None),
                    ReplyView::Done,
                );
                assert(run_single(read, last.replies()) == read);
            },
            Pause::Foreign { at, event } => {
                run_single_by_steps(
                    read,
                    ReplyView::Clock(at),
                    ReplyView::Event(Some(event)),
                    ReplyView::Done,
                );
                assert(run_single(read, last.replies()) == read);
            },
        }
    }
}

/// The replies up to the time when the owner was asked.
pub open spec fn asked_at(asked: u128) -> Seq<ReplyView> {
    seq![ReplyView::Done, ReplyView::Done, ReplyView::Done, ReplyView::Clock(asked)]
}

/// From when the owner was asked, it has four seconds to begin.
pub proof fn the_owner_has_four_seconds(atoms: Atoms, reader: u32, target_format: u32, asked: u128)
    ensures
        run_single(ReadSingleView::start(atoms, reader, target_format), asked_at(asked)) == (
        ReadSingleView {
            atoms,
            reader,
            target_format,
            using_incr: false,
            incr_data: seq![],
            timeout_end: asked + 4_000_000_000,
            phase: ReadPhaseView::Checking,
        }),
{
    let start = ReadSingleView::start(atoms, reader, target_format);
    let replies = asked_at(asked);
    assert(replies.drop_last() == seq![ReplyView::Done, ReplyView::Done, ReplyView::Done]);
    run_single_by_steps(start, ReplyView::Done, ReplyView::Done, ReplyView::Done);
}

/// An owner that answers before the four seconds are over is read, however long it
/// took and whatever passed meanwhile.
pub proof fn a_slow_owner_is_read(
    atoms: Atoms,
    reader: u32,
    target_format: u32,
    asked: u128,
    pauses: Seq<Pause>,
    seen: u128,
    event: SelectionNotifyEvent,
    property: PropertyReplyView,
)
    requires
        ({
            let read = run_single(
                ReadSingleView::start(atoms, reader, target_format),
                asked_at(asked),
            );
            forall|i: int| 0 <= i < pauses.len() ==> (#[trigger] pauses[i]).passes(read)
        }),
        seen < asked + 4_000_000_000,
        event.property != 0,
        event.target == target_format,
        event.selection == atoms.CLIPBOARD,
        property.type_ == target_format,
    ensures
        run_single(
            ReadSingleView::start(atoms, reader, target_format),
            asked_at(asked) + pausing(pauses) + seq![
                ReplyView::Clock(seen),
                ReplyView::Event(Some(Event::SelectionNotify(event))),
                ReplyView::Property(property),
            ],
        ).phase == ReadPhaseView::Finished(Ok::<Seq<u8>, ErrorView>(property.value)),
{
    let start = ReadSingleView::start(atoms, reader, target_format);
    let read = run_single(start, asked_at(asked));
    let end = seq![
        ReplyView::Clock(seen),
        ReplyView::Event(Some(Event::SelectionNotify(event))),
        ReplyView::Property(property),
    ];
    the_owner_has_four_seconds(atoms, reader, target_format, asked);
    waiting_changes_nothing(read, pauses);
    run_single_in_two(start, asked_at(asked), pausing(pauses));
    run_single_in_two(start, asked_at(asked) + pausing(pauses), end);
    run_single_by_steps(
        read,
        ReplyView::Clock(seen),
        ReplyView::Event(Some(Event::SelectionNotify(event))),
        ReplyView::Property(property),
    );
}

/// An owner that has not answered when the deadline has come is given up.
pub proof fn a_late_owner_is_given_up(read: ReadSingleView, pauses: Seq<Pause>, now: u128)
    requires
        read.phase is Checking,
        forall|i: int| 0 <= i < pauses.len() ==> (#[trigger] pauses[i]).passes(read),
        now >= read.timeout_end,
    ensures
        run_single(read, pausing(pauses).push(ReplyView::Clock(now))) == (ReadSingleView {
            phase: ReadPhaseView::Finished(
                Err::<Seq<u8>, ErrorView>(ErrorView::ContentNotAvailable),
            ),
            ..read
        }),
{
    waiting_changes_nothing(read, pauses);
    assert(pausing(pauses).push(ReplyView::Clock(now)).drop_last() == pausing(pauses));
}

/// The deadline moves for three reasons only: it is set four seconds off when the
/// owner was asked, is moved by ten milliseconds by an announcement, and is set ten
/// milliseconds off by each piece.
pub proof fn the_deadline_moves_for_a_reason(read: ReadSingleView, reply: ReplyView)
    ensures
        read.phase is Starting && reply is Clock ==> read.next(reply).timeout_end
            == reply->Clock_0 + 4_000_000_000,
        read.phase is FetchingAnnouncement && reply is Property ==> read.next(reply).timeout_end
            == read.timeout_end + 10_000_000,
        read.phase is Extending && reply is Clock ==> read.next(reply).timeout_end
            == reply->Clock_0 + 10_000_000,
        read.next(reply).timeout_end != read.timeout_end ==> {
            ||| read.phase is Starting && reply is Clock
            ||| read.phase is FetchingAnnouncement && reply is Property
            ||| read.phase is Extending && reply is Clock
        },
{
}

/// What is collected changes for two reasons only: a piece is added behind what is
/// there, and an empty piece hands everything over.
pub proof fn the_collection_changes_for_a_reason(read: ReadSingleView, reply: ReplyView)
    ensures
        read.next(reply).incr_data != read.incr_data ==> read.phase is FetchingPiece
            && reply is Property,
        read.phase is FetchingPiece && reply is Property && reply->Property_0.value_len != 0
            ==> read.next(reply).incr_data == read.incr_data + reply->Property_0.value,
        read.phase is FetchingPiece && reply is Property && reply->Property_0.value_len == 0
            ==> read.next(reply).phase == ReadPhaseView::Finished(
            Ok::<Seq<u8>, ErrorView>(read.incr_data),
        ),
        read.next(reply).using_incr <==> read.using_incr || (read.phase is FetchingAnnouncement
            && reply is Property),
{
}

/// A reading fails for two reasons only, each with its description: something that
/// was asked for failed, or the contents are of a type that was not asked for.
pub proof fn a_failed_reading_says_why(
    read: ReadSingleView,
    reply: ReplyView,
    description: Seq<char>,
)
    requires
        !(read.phase is Finished),
    ensures
        read.next(reply).phase == ReadPhaseView::Finished(
            Err::<Seq<u8>, ErrorView>(ErrorView::Unknown { description }),
        ) <==> {
            ||| reply == ReplyView::Failed(description) && (read.phase is Deleting
                || read.phase is Converting || read.phase is Syncing || read.phase is Polling
                || read.phase is FetchingSelection || read.phase is FetchingAnnouncement
                || read.phase is FetchingPiece)
            ||| description == "incorrect type received from clipboard"@
                && read.phase is FetchingSelection && reply is Property
                && reply->Property_0.type_ != read.target_format && reply->Property_0.type_
                != read.atoms.INCR
        },
{
}

/// How a reading goes on, from each of its phases, when what was asked for has
/// come. It ends only as the other laws say, and a reply to something else leaves
/// it in its phase.
pub proof fn a_reading_goes_on(read: ReadSingleView, reply: ReplyView)
    ensures
        ({
            let next = read.next(reply).phase;
            let pending = read.pending();
            &&& read.phase is Deleting ==> {
                &&& pending == Some(
                    RequestView::DeleteProperty {
                        window: read.reader,
                        property: read.atoms.ARBOARD_CLIPBOARD,
                    },
                )
                &&& reply is Done <==> next is Converting
                &&& next is Converting || next is Finished || next == read.phase
            }
            &&& read.phase is Converting ==> {
                &&& pending matches Some(RequestView::ConvertSelection(conversion)) && {
                    &&& conversion.requestor == read.reader
                    &&& conversion.selection == read.atoms.CLIPBOARD
                    &&& conversion.target == read.target_format
                    &&& conversion.property == read.atoms.ARBOARD_CLIPBOARD
                    &&& conversion.time == 0
                }
                &&& reply is Done <==> next is Syncing
                &&& next is Syncing || next is Finished || next == read.phase
            }
            &&& read.phase is Syncing ==> {
                &&& pending == Some(RequestView::Sync)
                &&& reply is Done <==> next is Starting
                &&& next is Starting || next is Finished || next == read.phase
            }
            &&& read.phase is Starting ==> {
                &&& pending == Some(RequestView::ReadClock)
                &&& reply is Clock <==> next is Checking
                &&& next is Checking || next == read.phase
            }
            &&& read.phase is Checking ==> {
                &&& pending == Some(RequestView::ReadClock)
                &&& (reply matches ReplyView::Clock(now) && now < read.timeout_end)
                    <==> next is Polling
                &&& next is Polling || next is Finished || next == read.phase
            }
            &&& read.phase is Polling ==> {
                &&& pending == Some(RequestView::PollForEvent)
                &&& reply == ReplyView::Event(None) <==> next is Sleeping
                &&& (reply matches ReplyView::Event(Some(event)) && foreign_to(read, event))
                    <==> next is Checking
                &&& next is FetchingSelection || next is FetchingPiece || next is Sleeping
                    || next is Checking || next is Finished || next == read.phase
            }
            &&& read.phase is Sleeping ==> {
                &&& pending == Some(RequestView::Sleep { millis: 1 })
                &&& reply is Done <==> next is Checking
                &&& next is Checking || next == read.phase
            }
            &&& read.phase is FetchingSelection ==> {
                &&& next is FetchingAnnouncement || next is Finished || next == read.phase
                &&& next is FetchingAnnouncement <==> reply is Property
                    && reply->Property_0.type_ == read.atoms.INCR && read.target_format
                    != read.atoms.INCR
                &&& next is FetchingAnnouncement ==> next->FetchingAnnouncement_0
                    == read.phase->FetchingSelection_0
            }
            &&& read.phase is FetchingAnnouncement ==> {
                &&& reply is Property <==> next is Checking
                &&& next is Checking || next is Finished || next == read.phase
            }
            &&& read.phase is FetchingPiece ==> {
                &&& (reply is Property && reply->Property_0.value_len != 0)
                    <==> next is Extending
                &&& next is Extending || next is Finished || next == read.phase
            }
            &&& read.phase is Extending ==> {
                &&& pending == Some(RequestView::ReadClock)
                &&& reply is Clock <==> next is Checking
                &&& next is Checking || next == read.phase
            }
            &&& read.phase is Finished ==> pending is None && next == read.phase
        }),
{
}

/// An event that concerns a reading is looked into: the answer that it waits for,
/// and news of a piece.
pub proof fn what_concerns_a_reading_is_looked_into(read: ReadSingleView, event: Event)
    requires
        read.phase is Polling,
    ensures
        event matches Event::SelectionNotify(told) && told.property != 0 && told.target
            == read.target_format && told.selection == read.atoms.CLIPBOARD && !read.using_incr
            ==> read.next(ReplyView::Event(Some(event))).phase
            == ReadPhaseView::FetchingSelection(event->SelectionNotify_0),
        event matches Event::PropertyNotify(news) && news.atom == read.atoms.ARBOARD_CLIPBOARD
            && news.state == 0 && read.using_incr ==> read.next(
            ReplyView::Event(Some(event)),
        ).phase == ReadPhaseView::FetchingPiece(event->PropertyNotify_0),
{
}

} // verus!
