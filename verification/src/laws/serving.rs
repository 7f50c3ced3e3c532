//! Laws of answering requests.
use vstd::prelude::*;
use crate::clipboard::TeardownView;
use crate::context::{ContextView, DataView};
use crate::error::ErrorView;
use crate::laws::writing::{run_write, writing_is_refused_after_serving};
use crate::protocol::{
    Event, ReplyView, RequestView, SelectionRequestEvent, NONE,
};
use crate::serve::{ServePhaseView, ServerView};
use crate::write::{stopped_text, WriteView};

verus! {

/// The server and the clipboard after several replies.
pub open spec fn run_server(
    server: ServerView,
    context: ContextView,
    replies: Seq<ReplyView>,
) -> (ServerView, ContextView)
    decreases replies.len(),
{
    if replies.len() == 0 {
        (server, context)
    } else {
        let (server, context) = run_server(server, context, replies.drop_last());
        (server.next(context, replies.last()), server.context_after(context, replies.last()))
    }
}

/// This many things done.
pub open spec fn done(count: nat) -> Seq<ReplyView> {
    Seq::new(count, |i: int| ReplyView::Done)
}

/// Whether a request tells a requestor of the outcome.
pub open spec fn notifies(request: RequestView) -> bool {
    request is SendSelectionNotify
}

/// Every request for the clipboard is answered: the requestor is told of the
/// outcome once, about the very request it made, and that at the end. What it
/// is told names its property just if the request was met.
pub proof fn every_request_is_answered_once(context: ContextView, event: SelectionRequestEvent)
    requires
        event.selection == context.atoms.CLIPBOARD,
    ensures
        ({
            let answer = context.answer(event);
            let last = answer.len() - 2;
            let property = if context.serves(event.target) {
                event.property
            } else {
                NONE
            };
            &&& answer.len() >= 2
            &&& answer[last] == ContextView::notification(event, property)
            &&& answer[last + 1] == RequestView::Flush
            &&& forall|i: int|
                0 <= i < answer.len() ==> (#[trigger] notifies(answer[i]) <==> i == last)
        }),
{
}

/// A request that cannot be met is answered with a refusal, and nothing is
/// written for the requestor.
pub proof fn refused_request_writes_nothing(context: ContextView, event: SelectionRequestEvent)
    requires
        event.selection == context.atoms.CLIPBOARD,
        !context.serves(event.target),
    ensures
        context.answer(event) == seq![
            ContextView::notification(event, NONE),
            RequestView::Flush,
        ],
        forall|i: int|
            0 <= i < context.answer(event).len() ==> {
                &&& !(#[trigger] context.answer(event)[i] is ChangeProperty8)
                &&& !(context.answer(event)[i] is ChangeProperty32)
            },
{
}

/// A request for our contents, under any name that their format goes by, is met
/// with all their bytes, written to the property that the requestor named, before
/// it is told so.
pub proof fn contents_are_sent_whole(context: ContextView, event: SelectionRequestEvent)
    requires
        event.selection == context.atoms.CLIPBOARD,
        event.target != context.atoms.TARGETS,
        context.serves(event.target),
    ensures
        context.answer(event).len() == 4,
        context.answer(event)[0] matches RequestView::ChangeProperty8 { change, data } && {
            &&& change.window == event.requestor
            &&& change.property == event.property
            &&& change.type_ == event.target
            &&& data == context.data.unwrap().bytes
        },
        context.answer(event)[2] == ContextView::notification(event, event.property),
{
}

/// Every target that we offer can be asked for. (`SAVE_TARGETS` is no target, but
/// a word to the clipboard manager.)
pub proof fn offered_targets_are_served(context: ContextView, target: u32)
    requires
        context.targets().contains(target),
        target != context.atoms.SAVE_TARGETS,
    ensures
        context.serves(target),
{
}

/// Every target that can be asked for is offered.
pub proof fn served_targets_are_offered(context: ContextView, target: u32)
    requires
        context.serves(target),
    ensures
        context.targets().contains(target),
{
    assert(context.targets()[0] == context.atoms.TARGETS);
    if let Some(data) = context.data {
        assert(context.targets()[2] == data.format);
        if data.format == context.atoms.UTF8_STRING {
            assert(context.targets()[3] == context.atoms.UTF8_MIME_0);
            assert(context.targets()[4] == context.atoms.UTF8_MIME_1);
        }
    }
}

/// A request for another selection than the clipboard gets no answer.
pub proof fn other_selections_get_no_answer(context: ContextView, event: SelectionRequestEvent)
    requires
        event.selection != context.atoms.CLIPBOARD,
    ensures
        context.answer(event).len() == 0,
{
}

/// An answer is carried out in its order: after the first few things are done,
/// the next one is what has to be done.
pub proof fn answer_is_carried_out_in_order(
    server: ServerView,
    context: ContextView,
    plan: Seq<RequestView>,
    count: nat,
)
    requires
        count < plan.len(),
    ensures
        ({
            let (after, clipboard) = run_server(
                server.at(ServePhaseView::Answering(plan)),
                context,
                done(count),
            );
            &&& after == server.at(ServePhaseView::Answering(plan.skip(count as int)))
            &&& after.pending() == Some(plan[count as int])
            &&& clipboard == context
        }),
    decreases count,
{
    if count == 0 {
        assert(done(0) == Seq::<ReplyView>::empty());
        assert(plan.skip(0) == plan);
    } else {
        answer_is_carried_out_in_order(server, context, plan, (count - 1) as nat);
        assert(done(count).drop_last() == done((count - 1) as nat));
        assert(plan.skip(count - 1).drop_first() == plan.skip(count as int));
    }
}

/// When all of an answer is done, the server takes note that the request was
/// answered.
pub proof fn answer_comes_to_its_end(
    server: ServerView,
    context: ContextView,
    plan: Seq<RequestView>,
)
    requires
        plan.len() > 0,
    ensures
        run_server(server.at(ServePhaseView::Answering(plan)), context, done(plan.len())).0
            == server.after_answer(context),
{
    let count = (plan.len() - 1) as nat;
    answer_is_carried_out_in_order(server, context, plan, count);
    assert(done(plan.len()).drop_last() == done(count));
    assert(plan.skip(count as int).drop_first().len() == 0);
}

/// Serving touches our data just when somebody else takes the clipboard, and
/// then it is gone.
pub proof fn data_goes_with_the_clipboard(
    server: ServerView,
    context: ContextView,
    reply: ReplyView,
)
    ensures
        server.context_after(context, reply).data == context.data || {
            &&& server.phase is Waiting
            &&& reply matches ReplyView::Event(Some(Event::SelectionClear(event)))
                && event.selection == context.atoms.CLIPBOARD
            &&& server.context_after(context, reply).data is None
        },
        server.phase is Waiting && (reply matches ReplyView::Event(
            Some(Event::SelectionClear(event)),
        ) && event.selection == context.atoms.CLIPBOARD) ==> server.context_after(
            context,
            reply,
        ).data is None,
{
}

/// Serving ends well just when our window is destroyed, and with an error just
/// when something fails.
pub proof fn serving_ends_for_a_reason(
    server: ServerView,
    context: ContextView,
    reply: ReplyView,
)
    requires
        !(server.phase is Finished),
    ensures
        server.next(context, reply).phase == ServePhaseView::Finished(Ok::<(), ErrorView>(()))
            <==> server.phase is Waiting && reply == ReplyView::Event(
            Some(Event::DestroyNotify),
        ),
        (server.next(context, reply).phase matches ServePhaseView::Finished(Err(_))) <==> (
        server.phase is Waiting || server.phase is Answering) && reply is Failed,
{
}

/// Serving leaves the window and the atoms as they are.
pub proof fn serving_keeps_the_rest(server: ServerView, context: ContextView, reply: ReplyView)
    ensures
        server.context_after(context, reply).server == context.server,
        server.context_after(context, reply).atoms == context.atoms,
{
}

/// A serving that is over stays as it is, with nothing further to be done, and so
/// does the clipboard.
pub proof fn finished_serving_stays(server: ServerView, context: ContextView, reply: ReplyView)
    requires
        server.phase is Finished,
    ensures
        server.pending() is None,
        server.next(context, reply) == server,
        server.context_after(context, reply) == context,
{
}

/// However it ends, and not before, the end of a serving is recorded: requests
/// count as no longer answered just when the serving is over.
pub proof fn end_of_serving_is_recorded(
    server: ServerView,
    context: ContextView,
    replies: Seq<ReplyView>,
)
    requires
        context.serve_stopped <==> server.phase is Finished,
    ensures
        run_server(server, context, replies).1.serve_stopped <==> run_server(
            server,
            context,
            replies,
        ).0.phase is Finished,
    decreases replies.len(),
{
    if replies.len() > 0 {
        end_of_serving_is_recorded(server, context, replies.drop_last());
    }
}

/// Once requests are no longer answered, nothing changes that.
pub proof fn serving_is_not_resumed(
    server: ServerView,
    write: WriteView,
    teardown: TeardownView,
    context: ContextView,
    reply: ReplyView,
)
    requires
        context.serve_stopped,
    ensures
        server.context_after(context, reply).serve_stopped,
        write.context_after(context, reply).serve_stopped,
        teardown.context_after(context, reply).serve_stopped,
{
}

/// After the end of a serving, every writing is refused, and leaves the clipboard
/// as it is.
pub proof fn writing_is_refused_after_the_end(
    context: ContextView,
    served: Seq<ReplyView>,
    data: DataView,
    replies: Seq<ReplyView>,
)
    requires
        !context.serve_stopped,
        run_server(ServerView::start(), context, served).0.phase is Finished,
    ensures
        ({
            let after = run_server(ServerView::start(), context, served).1;
            run_write(WriteView::start(after, data), after, replies) == (
                WriteView::Finished(Err(ErrorView::Unknown { description: stopped_text() })),
                after,
            )
        }),
{
    end_of_serving_is_recorded(ServerView::start(), context, served);
    writing_is_refused_after_serving(
        run_server(ServerView::start(), context, served).1,
        data,
        replies,
    );
}

/// A failure ends the serving with an error that tells of it: as it was described
/// while waiting for an event, as an unknown error while answering. Nothing
/// further is done, and requests are no longer answered.
pub proof fn failure_ends_the_serving(
    server: ServerView,
    context: ContextView,
    description: Seq<char>,
)
    requires
        server.phase is Waiting || server.phase is Answering,
    ensures
        ({
            let after = server.next(context, ReplyView::Failed(description));
            let told = if server.phase is Waiting {
                description
            } else {
                ErrorView::Unknown { description }.text()
            };
            &&& after.phase == ServePhaseView::Finished(
                Err::<(), ErrorView>(ErrorView::Unknown { description: told }),
            )
            &&& after.pending() is None
            &&& server.context_after(context, ReplyView::Failed(description)).serve_stopped
        }),
{
}

} // verus!
