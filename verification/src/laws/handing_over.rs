//! Laws of the handover to the clipboard manager, and of the teardown.
use vstd::prelude::*;
use crate::clipboard::{TeardownView, MIN_OWNERS};
use crate::context::{ContextView, ManagerHandoverState};
use crate::error::ErrorView;
use crate::handover::HandoverView;
use crate::laws::serving::{answer_comes_to_its_end, answer_is_carried_out_in_order, done, run_server};
use crate::protocol::{Event, ReplyView, RequestView, SelectionNotifyEvent, SelectionRequestEvent};
use crate::serve::{ServePhaseView, ServerView};
use crate::write::WriteView;

verus! {

/// The handover and the clipboard after several replies.
pub open spec fn run_handover(
    handover: HandoverView,
    context: ContextView,
    replies: Seq<ReplyView>,
) -> (HandoverView, ContextView)
    decreases replies.len(),
{
    if replies.len() == 0 {
        (handover, context)
    } else {
        let (handover, context) = run_handover(handover, context, replies.drop_last());
        (handover.next(context, replies.last()), handover.context_after(context, replies.last()))
    }
}

/// Whether the flags of the server agree with the state of the handover: it is
/// finished with both halves done only.
pub open spec fn agree(server: ServerView, context: ContextView) -> bool {
    context.handover_state == ManagerHandoverState::Finished ==> server.written
        && server.notified
}

/// Serving finishes a handover just when it is in progress and both its halves
/// are done: a request was answered and the manager has spoken up.
pub proof fn handover_finishes_with_both_halves(
    server: ServerView,
    context: ContextView,
    reply: ReplyView,
)
    requires
        context.handover_state != ManagerHandoverState::Finished,
    ensures
        server.context_after(context, reply).handover_state == ManagerHandoverState::Finished ==> {
            &&& context.handover_state == ManagerHandoverState::InProgress
            &&& server.next(context, reply).written
            &&& server.next(context, reply).notified
            &&& server.next(context, reply).pending() == Some(RequestView::NotifyHandover)
        },
        server.context_after(context, reply).handover_state == ManagerHandoverState::Finished
            || server.context_after(context, reply).handover_state == context.handover_state,
{
}

/// However long the serving goes on, a handover that is finished had both its
/// halves done.
pub proof fn finished_handover_had_both_halves(
    server: ServerView,
    context: ContextView,
    replies: Seq<ReplyView>,
)
    requires
        agree(server, context),
    ensures
        agree(
            run_server(server, context, replies).0,
            run_server(server, context, replies).1,
        ),
    decreases replies.len(),
{
    if replies.len() > 0 {
        finished_handover_had_both_halves(server, context, replies.drop_last());
    }
}

/// Nobody but the server finishes a handover, and nobody but the one who hands
/// over begins one.
pub proof fn others_leave_the_handover_alone(
    write: WriteView,
    handover: HandoverView,
    server: ServerView,
    context: ContextView,
    reply: ReplyView,
)
    ensures
        write.context_after(context, reply).handover_state == context.handover_state,
        handover.context_after(context, reply).handover_state == context.handover_state
            || handover.context_after(context, reply).handover_state
            == ManagerHandoverState::InProgress,
        server.context_after(context, reply).handover_state == context.handover_state
            || server.context_after(context, reply).handover_state
            == ManagerHandoverState::Finished,
{
}

/// The replies that a request is answered with: the event, and everything done.
pub open spec fn answered(context: ContextView, request: SelectionRequestEvent) -> Seq<ReplyView> {
    seq![ReplyView::Event(Some(Event::SelectionRequest(request)))] + done(
        context.answer(request).len(),
    )
}

/// Replies that come in two lots come as one.
proof fn run_server_in_two(
    server: ServerView,
    context: ContextView,
    first: Seq<ReplyView>,
    second: Seq<ReplyView>,
)
    ensures
        run_server(server, context, first + second) == run_server(
            run_server(server, context, first).0,
            run_server(server, context, first).1,
            second,
        ),
    decreases second.len(),
{
    if second.len() == 0 {
        assert(first + second == first);
    } else {
        run_server_in_two(server, context, first, second.drop_last());
        assert((first + second).drop_last() == first + second.drop_last());
    }
}

/// One reply is the first step.
proof fn run_server_once(server: ServerView, context: ContextView, reply: ReplyView)
    ensures
        run_server(server, context, seq![reply]) == (
            server.next(context, reply),
            server.context_after(context, reply),
        ),
{
    assert(seq![reply].drop_last() == Seq::<ReplyView>::empty());
    reveal_with_fuel(run_server, 2);
}

/// A request that is answered while a handover is in progress is noted, and
/// finishes the handover just if the manager has spoken up before.
pub proof fn answered_request_is_one_half(
    server: ServerView,
    context: ContextView,
    request: SelectionRequestEvent,
)
    requires
        server.phase is Waiting,
        context.handover_state == ManagerHandoverState::InProgress,
    ensures
        run_server(server, context, answered(context, request)) == (
            ServerView {
                written: true,
                phase: if server.notified {
                    ServePhaseView::Notifying
                } else {
                    ServePhaseView::Waiting
                },
                ..server
            },
            ContextView {
                handover_state: if server.notified {
                    ManagerHandoverState::Finished
                } else {
                    ManagerHandoverState::InProgress
                },
                ..context
            },
        ),
{
    let plan = context.answer(request);
    let event = ReplyView::Event(Some(Event::SelectionRequest(request)));
    run_server_in_two(server, context, seq![event], done(plan.len()));
    run_server_once(server, context, event);
    if plan.len() == 0 {
        assert(done(0) == Seq::<ReplyView>::empty());
    } else {
        answer_comes_to_its_end(server, context, plan);
        answer_is_carried_out_in_order(server, context, plan, (plan.len() - 1) as nat);
        assert(done(plan.len()).drop_last() == done((plan.len() - 1) as nat));
        assert(plan.skip(plan.len() - 1).drop_first().len() == 0);
    }
}

/// Word from the manager while a handover is in progress is noted, and finishes
/// the handover just if a request was answered before.
pub proof fn word_from_the_manager_is_the_other_half(
    server: ServerView,
    context: ContextView,
    word: SelectionNotifyEvent,
)
    requires
        server.phase is Waiting,
        context.handover_state == ManagerHandoverState::InProgress,
        word.selection == context.atoms.CLIPBOARD_MANAGER,
    ensures
        run_server(
            server,
            context,
            seq![ReplyView::Event(Some(Event::SelectionNotify(word)))],
        ) == (
            ServerView {
                notified: true,
                phase: if server.written {
                    ServePhaseView::Notifying
                } else {
                    ServePhaseView::Waiting
                },
                ..server
            },
            ContextView {
                handover_state: if server.written {
                    ManagerHandoverState::Finished
                } else {
                    ManagerHandoverState::InProgress
                },
                ..context
            },
        ),
{
    run_server_once(server, context, ReplyView::Event(Some(Event::SelectionNotify(word))));
}

/// The two halves of a handover finish it in either order, and its end is then
/// reported.
pub proof fn halves_may_come_in_either_order(
    context: ContextView,
    request: SelectionRequestEvent,
    word: SelectionNotifyEvent,
)
    requires
        context.handover_state == ManagerHandoverState::InProgress,
        word.selection == context.atoms.CLIPBOARD_MANAGER,
    ensures
        ({
            let told = seq![ReplyView::Event(Some(Event::SelectionNotify(word)))];
            let server = ServerView::start();
            let finished = (
                ServerView { written: true, notified: true, phase: ServePhaseView::Notifying },
                ContextView { handover_state: ManagerHandoverState::Finished, ..context },
            );
            &&& run_server(server, context, answered(context, request) + told) == finished
            &&& run_server(server, context, told + answered(context, request)) == finished
        }),
{
    let told = seq![ReplyView::Event(Some(Event::SelectionNotify(word)))];
    let server = ServerView::start();
    run_server_in_two(server, context, answered(context, request), told);
    answered_request_is_one_half(server, context, request);
    word_from_the_manager_is_the_other_half(
        ServerView { written: true, ..server },
        context,
        word,
    );
    run_server_in_two(server, context, told, answered(context, request));
    word_from_the_manager_is_the_other_half(server, context, word);
    answered_request_is_one_half(ServerView { notified: true, ..server }, context, request);
}

/// Without the selection, or without data, nothing is asked of the manager.
pub proof fn nothing_is_handed_over_in_vain(context: ContextView, owner: u32)
    requires
        !context.owns(owner) || context.data is None,
        context.server.win_id != 0,
    ensures
        run_handover(
            HandoverView::start(context),
            context,
            seq![ReplyView::Owner(owner)],
        ) == (HandoverView::Finished(Ok::<(), ErrorView>(())), context),
{
    assert(seq![ReplyView::Owner(owner)].drop_last() == Seq::<ReplyView>::empty());
    reveal_with_fuel(run_handover, 2);
}

/// A handover never touches our data, and marks itself as in progress before it
/// begins to wait.
pub proof fn handover_keeps_the_data(context: ContextView, replies: Seq<ReplyView>)
    ensures
        ({
            let (handover, after) = run_handover(HandoverView::start(context), context, replies);
            &&& after.data == context.data
            &&& after.server == context.server
            &&& after.atoms == context.atoms
            &&& after.serve_stopped == context.serve_stopped
            &&& handover is Waiting ==> after.handover_state == ManagerHandoverState::InProgress
        }),
    decreases replies.len(),
{
    if replies.len() > 0 {
        handover_keeps_the_data(context, replies.drop_last());
    }
}

/// A handover that has begun to wait succeeds, whether or not the time was up.
pub proof fn waiting_handover_succeeds(context: ContextView, timed_out: bool)
    ensures
        HandoverView::Waiting.next(context, ReplyView::HandoverWaited { timed_out })
            == HandoverView::Finished(Ok::<(), ErrorView>(())),
{
}

/// The teardown and the clipboard after several replies.
pub open spec fn run_teardown(
    teardown: TeardownView,
    context: ContextView,
    replies: Seq<ReplyView>,
) -> (TeardownView, ContextView)
    decreases replies.len(),
{
    if replies.len() == 0 {
        (teardown, context)
    } else {
        let (teardown, context) = run_teardown(teardown, context, replies.drop_last());
        (teardown.next(context, replies.last()), teardown.context_after(context, replies.last()))
    }
}

/// Only the last user's leaving brings the clipboard to its end, also when the
/// thread that serves requests has ended before; with more owners than one user
/// leaves room for, nothing is done.
pub proof fn only_the_last_user_ends_the_clipboard(context: ContextView, owners: int)
    ensures
        TeardownView::start(context, owners).pending(context) is None <==> owners > MIN_OWNERS,
{
}

/// Whatever came of the handover, the window is destroyed after it, and then the
/// thread that serves requests is waited for, if there is one.
pub proof fn teardown_goes_on_after_the_handover(
    handover: HandoverView,
    context: ContextView,
    present: bool,
)
    requires
        handover is Finished,
    ensures
        ({
            let taking = TeardownView::with_handover(handover);
            let destroying = taking.next(context, ReplyView::GlobalTaken { present });
            let flushing = destroying.next(context, ReplyView::Done);
            let joining = flushing.next(context, ReplyView::Done);
            &&& taking.pending(context) == Some(RequestView::TakeGlobal)
            &&& destroying.pending(context) == Some(
                RequestView::DestroyWindow { window: context.server.win_id },
            )
            &&& flushing.pending(context) == Some(RequestView::Flush)
            &&& joining.pending(context) == if present {
                Some(RequestView::JoinServer)
            } else {
                None
            }
        }),
{
}

/// The thread that serves requests is waited for only after the window it
/// listens on was destroyed, which was sent.
pub proof fn server_is_joined_after_its_window(
    teardown: TeardownView,
    context: ContextView,
    reply: ReplyView,
)
    requires
        !(teardown is Joining),
        teardown.next(context, reply) is Joining,
    ensures
        teardown == (TeardownView::Flushing { present: true }),
        reply is Done,
{
}

} // verus!
