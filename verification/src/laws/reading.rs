//! Laws of reading what somebody else has on the clipboard.
use vstd::prelude::*;
use crate::context::{ContextView, DataView};
use crate::error::ErrorView;
use crate::laws::opening::{smooth_opening, window_is_opened};
use crate::laws::transferring::{run_single, target_stays};
use crate::protocol::ReplyView;
use crate::read::{ReadStateView, ReadView};
use crate::read_single::{ReadPhaseView, ReadSingleView};
use crate::window::OpenWindowView;

verus! {

/// A reading after several replies.
pub open spec fn run_read(
    read: ReadView,
    context: ContextView,
    replies: Seq<ReplyView>,
) -> ReadView
    decreases replies.len(),
{
    if replies.len() == 0 {
        read
    } else {
        run_read(read, context, replies.drop_last()).next(context, replies.last())
    }
}

/// Whether these replies, and no fewer of them, bring the reading of one format
/// to this outcome.
pub open spec fn leads_to(
    single: ReadSingleView,
    replies: Seq<ReplyView>,
    outcome: Result<Seq<u8>, ErrorView>,
) -> bool {
    &&& run_single(single, replies).phase == ReadPhaseView::Finished(outcome)
    &&& forall|k: int|
        0 <= k < replies.len() ==> !(run_single(single, #[trigger] replies.take(k)).phase is
            Finished)
}

/// The reading of the format at `index`, about to begin.
pub open spec fn attempt(
    read: ReadView,
    context: ContextView,
    reader: u32,
    index: int,
) -> ReadSingleView {
    ReadSingleView::start(context.atoms, reader, read.formats[index])
}

/// All replies, one list behind the other.
pub open spec fn in_turn(lists: Seq<Seq<ReplyView>>) -> Seq<ReplyView>
    decreases lists.len(),
{
    if lists.len() == 0 {
        seq![]
    } else {
        in_turn(lists.drop_last()) + lists.last()
    }
}

/// Replies that come in two lots come as one.
proof fn run_read_in_two(
    read: ReadView,
    context: ContextView,
    first: Seq<ReplyView>,
    second: Seq<ReplyView>,
)
    ensures
        run_read(read, context, first + second) == run_read(
            run_read(read, context, first),
            context,
            second,
        ),
    decreases second.len(),
{
    if second.len() == 0 {
        assert(first + second == first);
    } else {
        run_read_in_two(read, context, first, second.drop_last());
        assert((first + second).drop_last() == first + second.drop_last());
    }
}

/// While one format is not settled, the reading stays with it.
proof fn stays_with_attempt(
    read: ReadView,
    context: ContextView,
    reader: u32,
    index: int,
    replies: Seq<ReplyView>,
)
    requires
        0 <= index < read.formats.len(),
        forall|k: int|
            0 <= k <= replies.len() ==> !(run_single(
                attempt(read, context, reader, index),
                #[trigger] replies.take(k),
            ).phase is Finished),
    ensures
        run_read(read.trying(context, reader, index), context, replies) == (ReadView {
            state: ReadStateView::Trying {
                index,
                single: run_single(attempt(read, context, reader, index), replies),
            },
            ..read
        }),
    decreases replies.len(),
{
    if replies.len() > 0 {
        let before = replies.drop_last();
        assert forall|k: int| 0 <= k <= before.len() implies !(run_single(
            attempt(read, context, reader, index),
            #[trigger] before.take(k),
        ).phase is Finished) by {
            assert(before.take(k) == replies.take(k));
        }
        stays_with_attempt(read, context, reader, index, before);
        assert(replies.take(replies.len() as int) == replies);
    }
}

/// What becomes of a reading when one format is settled: it ends with the
/// contents, or with an error other than that they are not available; else it
/// comes to the next format.
pub proof fn format_is_settled(
    read: ReadView,
    context: ContextView,
    reader: u32,
    index: int,
    replies: Seq<ReplyView>,
    outcome: Result<Seq<u8>, ErrorView>,
)
    requires
        0 <= index < read.formats.len(),
        leads_to(attempt(read, context, reader, index), replies, outcome),
    ensures
        run_read(read.trying(context, reader, index), context, replies) == match outcome {
            Ok(bytes) => read.finished(Ok(DataView { bytes, format: read.formats[index] })),
            Err(ErrorView::ContentNotAvailable) => read.trying(context, reader, index + 1),
            Err(error) => read.finished(Err(error)),
        },
{
    let single = attempt(read, context, reader, index);
    if replies.len() == 0 {
        assert(run_single(single, replies).phase == ReadPhaseView::Deleting);
    } else {
        let before = replies.drop_last();
        assert forall|k: int| 0 <= k <= before.len() implies !(run_single(
            single,
            #[trigger] before.take(k),
        ).phase is Finished) by {
            assert(before.take(k) == replies.take(k));
        }
        stays_with_attempt(read, context, reader, index, before);
        target_stays(single, replies);
    }
}

/// Formats that the owner does not have are passed over.
pub proof fn unavailable_formats_are_passed_over(
    read: ReadView,
    context: ContextView,
    reader: u32,
    replies: Seq<Seq<ReplyView>>,
)
    requires
        replies.len() <= read.formats.len(),
        forall|j: int|
            0 <= j < replies.len() ==> leads_to(
                attempt(read, context, reader, j),
                #[trigger] replies[j],
                Err(ErrorView::ContentNotAvailable),
            ),
    ensures
        run_read(read.trying(context, reader, 0), context, in_turn(replies)) == read.trying(
            context,
            reader,
            replies.len() as int,
        ),
    decreases replies.len(),
{
    if replies.len() > 0 {
        let last = replies.len() - 1;
        let before = replies.drop_last();
        assert forall|j: int| 0 <= j < before.len() implies leads_to(
            attempt(read, context, reader, j),
            #[trigger] before[j],
            Err(ErrorView::ContentNotAvailable),
        ) by {
            assert(before[j] == replies[j]);
        }
        unavailable_formats_are_passed_over(read, context, reader, before);
        assert(leads_to(
            attempt(read, context, reader, last),
            replies[last],
            Err(ErrorView::ContentNotAvailable),
        ));
        format_is_settled(
            read,
            context,
            reader,
            last,
            replies[last],
            Err(ErrorView::ContentNotAvailable),
        );
        run_read_in_two(
            read.trying(context, reader, 0),
            context,
            in_turn(before),
            replies[last],
        );
    }
}

/// The replies that come before the first format is asked for: somebody else
/// has the clipboard, and a window to ask through is opened.
pub open spec fn foreign(
    owner: u32,
    screen: usize,
    roots: Seq<u32>,
    reader: u32,
) -> Seq<ReplyView> {
    seq![ReplyView::Owner(owner)] + smooth_opening(screen, roots, reader)
}

/// What somebody else has on the clipboard is asked for through a window of its
/// own, beginning with the first format.
pub proof fn foreign_contents_are_asked_for(
    formats: Seq<u32>,
    context: ContextView,
    owner: u32,
    screen: usize,
    roots: Seq<u32>,
    reader: u32,
)
    requires
        !context.owns(owner),
        screen < roots.len(),
    ensures
        run_read(ReadView::start(formats), context, foreign(owner, screen, roots, reader))
            == ReadView::start(formats).trying(context, reader, 0),
{
    let start = ReadView::start(formats);
    let replies = foreign(owner, screen, roots, reader);
    window_is_opened(screen, roots, reader);
    assert(replies.take(5) == replies);
    assert(replies.take(0) == Seq::<ReplyView>::empty());
    assert forall|k: int| 0 < k <= 5 implies run_read(start, context, #[trigger] replies.take(k))
        == run_read(start, context, replies.take(k - 1)).next(context, replies[k - 1]) by {
        assert(replies.take(k).drop_last() == replies.take(k - 1));
    }
    assert(run_read(start, context, replies.take(1)) == ReadView {
        state: ReadStateView::Opening(OpenWindowView::Connecting),
        ..start
    });
    assert(run_read(start, context, replies.take(2)) == ReadView {
        state: ReadStateView::Opening(OpenWindowView::Naming { root: roots[screen as int] }),
        ..start
    });
    assert(run_read(start, context, replies.take(3)) == ReadView {
        state: ReadStateView::Opening(
            OpenWindowView::Creating { root: roots[screen as int], win_id: reader },
        ),
        ..start
    });
    assert(run_read(start, context, replies.take(4)) == ReadView {
        state: ReadStateView::Opening(OpenWindowView::Flushing { win_id: reader }),
        ..start
    });
    assert(run_read(start, context, replies.take(5)) == start.trying(context, reader, 0));
}

/// The first of the formats that the clipboard owner supports is the format of
/// the outcome: where it does not have those before, and has this one, the
/// outcome is what it has. (From where the first format is asked for.)
pub proof fn first_supported_format_is_read(
    read: ReadView,
    context: ContextView,
    reader: u32,
    unavailable: Seq<Seq<ReplyView>>,
    available: Seq<ReplyView>,
    bytes: Seq<u8>,
)
    requires
        unavailable.len() < read.formats.len(),
        forall|j: int|
            0 <= j < unavailable.len() ==> leads_to(
                attempt(read, context, reader, j),
                #[trigger] unavailable[j],
                Err(ErrorView::ContentNotAvailable),
            ),
        leads_to(attempt(read, context, reader, unavailable.len() as int), available, Ok(bytes)),
    ensures
        run_read(
            read.trying(context, reader, 0),
            context,
            in_turn(unavailable) + available,
        ).state == ReadStateView::Finished(
            Ok::<DataView, ErrorView>(
                DataView { bytes, format: read.formats[unavailable.len() as int] },
            ),
        ),
{
    unavailable_formats_are_passed_over(read, context, reader, unavailable);
    format_is_settled(
        read,
        context,
        reader,
        unavailable.len() as int,
        available,
        Ok(bytes),
    );
    run_read_in_two(
        read.trying(context, reader, 0),
        context,
        in_turn(unavailable),
        available,
    );
}

/// Where the owner has none of the formats, the contents are not available.
pub proof fn no_supported_format_is_reported(
    read: ReadView,
    context: ContextView,
    reader: u32,
    unavailable: Seq<Seq<ReplyView>>,
)
    requires
        unavailable.len() == read.formats.len(),
        forall|j: int|
            0 <= j < unavailable.len() ==> leads_to(
                attempt(read, context, reader, j),
                #[trigger] unavailable[j],
                Err(ErrorView::ContentNotAvailable),
            ),
    ensures
        run_read(read.trying(context, reader, 0), context, in_turn(unavailable)).state
            == ReadStateView::Finished(
            Err::<DataView, ErrorView>(ErrorView::ContentNotAvailable),
        ),
{
    unavailable_formats_are_passed_over(read, context, reader, unavailable);
}

/// A reading never changes the formats it asks for, and what it yields is in
/// one of them.
pub proof fn outcome_is_in_a_wanted_format(
    formats: Seq<u32>,
    context: ContextView,
    replies: Seq<ReplyView>,
)
    ensures
        ({
            let read = run_read(ReadView::start(formats), context, replies);
            &&& read.formats == formats
            &&& read.state matches ReadStateView::Finished(Ok(data)) ==> formats.contains(
                data.format,
            )
            &&& read.state matches ReadStateView::Trying { index, single } ==> 0 <= index
                < formats.len()
        }),
    decreases replies.len(),
{
    if replies.len() > 0 {
        outcome_is_in_a_wanted_format(formats, context, replies.drop_last());
    }
}

} // verus!
