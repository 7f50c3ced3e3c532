//! Replies that answer nothing change nothing.
use vstd::prelude::*;
use crate::clipboard::TeardownView;
use crate::context::ContextView;
use crate::handover::HandoverView;
use crate::open::OpenContextView;
use crate::protocol::{answers, ReplyView};
use crate::read::{ReadStateView, ReadView};
use crate::read_single::ReadSingleView;
use crate::serve::ServerView;
use crate::window::OpenWindowView;
use crate::write::WriteView;

verus! {

/// A reply that cannot come of what has to be done leaves the opening of a
/// window as it is.
pub proof fn stray_reply_to_window(window: OpenWindowView, reply: ReplyView)
    requires
        window.pending() matches Some(request) ==> !answers(request, reply),
    ensures
        window.next(reply) == window,
{
}

/// A reply that cannot come of what has to be done leaves the opening of the
/// clipboard as it is.
pub proof fn stray_reply_to_opening(opening: OpenContextView, reply: ReplyView)
    requires
        opening.pending() matches Some(request) ==> !answers(request, reply),
        opening.well_formed(),
    ensures
        opening.next(reply) == opening,
{
}

/// A reply that cannot come of what has to be done leaves the reading of one
/// format as it is.
pub proof fn stray_reply_to_single(single: ReadSingleView, reply: ReplyView)
    requires
        single.pending() matches Some(request) ==> !answers(request, reply),
    ensures
        single.next(reply) == single,
{
}

/// A reply that cannot come of what has to be done leaves a reading as it is.
pub proof fn stray_reply_to_reading(read: ReadView, context: ContextView, reply: ReplyView)
    requires
        read.pending(context) matches Some(request) ==> !answers(request, reply),
        read.well_formed(),
    ensures
        read.next(context, reply) == read,
{
    if let ReadStateView::Trying { index, single } = read.state {
        stray_reply_to_single(single, reply);
    }
}

/// A reply that cannot come of what has to be done leaves a writing and the
/// clipboard as they are.
pub proof fn stray_reply_to_writing(write: WriteView, context: ContextView, reply: ReplyView)
    requires
        write.pending(context) matches Some(request) ==> !answers(request, reply),
    ensures
        write.next(context, reply) == write,
        write.context_after(context, reply) == context,
{
}

/// A reply that cannot come of what has to be done leaves a handover and the
/// clipboard as they are.
pub proof fn stray_reply_to_handover(
    handover: HandoverView,
    context: ContextView,
    reply: ReplyView,
)
    requires
        handover.pending(context) matches Some(request) ==> !answers(request, reply),
    ensures
        handover.next(context, reply) == handover,
        handover.context_after(context, reply) == context,
{
}

/// A reply that cannot come of what has to be done leaves the server and the
/// clipboard as they are.
pub proof fn stray_reply_to_server(server: ServerView, context: ContextView, reply: ReplyView)
    requires
        server.pending() matches Some(request) ==> !answers(request, reply),
        server.well_formed(),
    ensures
        server.next(context, reply) == server,
        server.context_after(context, reply) == context,
{
}

/// A reply that cannot come of what has to be done leaves a teardown and the
/// clipboard as they are.
pub proof fn stray_reply_to_teardown(
    teardown: TeardownView,
    context: ContextView,
    reply: ReplyView,
)
    requires
        teardown.pending(context) matches Some(request) ==> !answers(request, reply),
        teardown.well_formed(),
    ensures
        teardown.next(context, reply) == teardown,
        teardown.context_after(context, reply) == context,
{
    if let TeardownView::HandingOver(handover) = teardown {
        stray_reply_to_handover(handover, context, reply);
    }
}

} // verus!
