use smol_clip::atoms::Atoms;
use smol_clip::clipboard::{Clipboard, Teardown};
use smol_clip::context::{ClipboardContext, ClipboardData, ManagerHandoverState};
use smol_clip::error::Error;
use smol_clip::handover::Handover;
use smol_clip::protocol::{
    Conversion, Event, Reply, Request, SelectionNotifyEvent, SelectionRequestEvent,
};
use smol_clip::serve::{serve_requests, Server};
use smol_clip::window::XContext;

fn context(win_id: u32) -> ClipboardContext {
    let ids: Vec<u32> = (1..15).collect();
    let mut context = ClipboardContext::fresh(XContext { win_id }, Atoms::from_ids(&ids).unwrap());
    context.data = Some(ClipboardData { bytes: vec![1, 2, 3], format: 7 });
    context
}

fn outcome(handover: Handover) -> Result<(), Error> {
    match handover {
        Handover::Finished(result) => result,
        other => panic!("{:?}", other),
    }
}

/// A request for this selection comes, and is answered.
fn answer(server: &mut Server, context: &mut ClipboardContext, selection: u32) {
    let event = SelectionRequestEvent {
        sequence: 1,
        time: 2,
        requestor: 55,
        selection,
        target: 7,
        property: 66,
    };
    let steps = context.handle_selection_request(&event).len();
    server.step(context, Reply::Event(Some(Event::SelectionRequest(event))));
    for _ in 0..steps {
        server.step(context, Reply::Done);
    }
}

/// Word comes from the owner of this selection.
fn hear(server: &mut Server, context: &mut ClipboardContext, selection: u32) {
    let event = SelectionNotifyEvent {
        response_type: 31,
        sequence: 1,
        time: 2,
        requestor: 77,
        selection,
        target: 3,
        property: 0,
    };
    server.step(context, Reply::Event(Some(Event::SelectionNotify(event))));
}

#[test]
fn the_manager_is_asked_to_save_our_data() {
    let mut context = context(77);
    let mut handover = context.ask_clipboard_manager_to_request_our_data();
    assert_eq!(
        handover.request(&context),
        Some(Request::GetSelectionOwner { selection: 1 })
    );
    handover.step(&mut context, Reply::Owner(77));
    assert_eq!(
        handover.request(&context),
        Some(Request::ConvertSelection(Conversion {
            requestor: 77,
            selection: 2,
            target: 3,
            property: 14,
            time: 0,
        }))
    );
    handover.step(&mut context, Reply::Done);
    assert_eq!(handover.request(&context), Some(Request::Flush));
    assert_eq!(context.handover_state, ManagerHandoverState::Idle);
    handover.step(&mut context, Reply::Done);
    assert_eq!(context.handover_state, ManagerHandoverState::InProgress);
    assert_eq!(handover.request(&context), Some(Request::WaitForHandover { millis: 100 }));
    handover.step(&mut context, Reply::HandoverWaited { timed_out: true });
    assert_eq!(handover.request(&context), None);
    assert_eq!(outcome(handover), Ok(()));
    assert_eq!(context.data.unwrap().bytes, vec![1, 2, 3]);
}

#[test]
fn without_a_window_nothing_is_handed_over() {
    let context = context(0);
    let handover = context.ask_clipboard_manager_to_request_our_data();
    assert_eq!(outcome(handover), Ok(()));
}

#[test]
fn without_the_selection_nothing_is_handed_over() {
    let mut context = context(77);
    let mut handover = context.ask_clipboard_manager_to_request_our_data();
    handover.step(&mut context, Reply::Owner(5));
    assert_eq!(outcome(handover), Ok(()));
    assert_eq!(context.handover_state, ManagerHandoverState::Idle);
}

#[test]
fn without_data_nothing_is_handed_over() {
    let mut context = context(77);
    context.data = None;
    let mut handover = context.ask_clipboard_manager_to_request_our_data();
    handover.step(&mut context, Reply::Owner(77));
    assert_eq!(outcome(handover), Ok(()));
}

#[test]
fn failures_of_the_handover_are_described() {
    let replies = vec![Reply::Owner(77), Reply::Done];
    for failing in 0..3 {
        let mut context = context(77);
        let mut handover = context.ask_clipboard_manager_to_request_our_data();
        for reply in &replies[..failing] {
            handover.step(&mut context, reply.clone());
        }
        handover.step(&mut context, Reply::Failed("lost".to_string()));
        assert_eq!(outcome(handover), Err(Error::Unknown { description: "lost".to_string() }));
        assert_eq!(context.handover_state, ManagerHandoverState::Idle);
    }
}

#[test]
fn a_handover_is_finished_by_an_answer_and_word_from_the_manager() {
    let mut context = context(77);
    context.handover_state = ManagerHandoverState::InProgress;
    let mut server = serve_requests();
    answer(&mut server, &mut context, 1);
    assert!(server.written);
    assert_eq!(context.handover_state, ManagerHandoverState::InProgress);
    hear(&mut server, &mut context, 2);
    assert_eq!(context.handover_state, ManagerHandoverState::Finished);
    assert_eq!(server.request(), Some(Request::NotifyHandover));
    server.step(&mut context, Reply::Done);
    assert_eq!(server.request(), Some(Request::WaitForEvent));
}

#[test]
fn a_handover_is_finished_in_the_other_order_too() {
    let mut context = context(77);
    context.handover_state = ManagerHandoverState::InProgress;
    let mut server = serve_requests();
    hear(&mut server, &mut context, 2);
    assert!(server.notified);
    assert_eq!(context.handover_state, ManagerHandoverState::InProgress);
    answer(&mut server, &mut context, 1);
    assert_eq!(context.handover_state, ManagerHandoverState::Finished);
    assert_eq!(server.request(), Some(Request::NotifyHandover));
}

#[test]
fn any_request_counts_as_answered_in_a_handover() {
    let mut context = context(77);
    context.handover_state = ManagerHandoverState::InProgress;
    let mut server = serve_requests();
    answer(&mut server, &mut context, 9);
    assert!(server.written);
}

#[test]
fn word_from_others_is_no_word_from_the_manager() {
    let mut context = context(77);
    context.handover_state = ManagerHandoverState::InProgress;
    let mut server = serve_requests();
    hear(&mut server, &mut context, 1);
    assert!(!server.notified);
}

#[test]
fn outside_a_handover_nothing_is_noted() {
    for state in [ManagerHandoverState::Idle, ManagerHandoverState::Finished] {
        let mut context = context(77);
        context.handover_state = state;
        let mut server = serve_requests();
        answer(&mut server, &mut context, 1);
        hear(&mut server, &mut context, 2);
        assert!(!server.written && !server.notified);
        assert_eq!(context.handover_state, state);
    }
}

#[test]
fn the_last_user_ends_the_clipboard() {
    let mut clipboard = Clipboard::opened(context(77));
    let mut teardown = clipboard.drop(3);
    for (request, reply) in [
        (Request::GetSelectionOwner { selection: 1 }, Reply::Owner(5)),
        (Request::TakeGlobal, Reply::GlobalTaken { present: true }),
        (Request::DestroyWindow { window: 77 }, Reply::Done),
        (Request::Flush, Reply::Done),
        (Request::JoinServer, Reply::Done),
    ] {
        assert_eq!(teardown.request(&clipboard.inner), Some(request));
        teardown.step(&mut clipboard.inner, reply);
    }
    assert_eq!(teardown.request(&clipboard.inner), None);
}

#[test]
fn the_last_user_ends_a_clipboard_that_is_no_longer_served() {
    for owners in [1, 2] {
        let mut clipboard = Clipboard::opened(context(77));
        clipboard.inner.stop_serving();
        let mut teardown = clipboard.drop(owners);
        assert_eq!(
            teardown.request(&clipboard.inner),
            Some(Request::GetSelectionOwner { selection: 1 })
        );
        teardown.step(&mut clipboard.inner, Reply::Owner(77));
        assert!(matches!(
            teardown.request(&clipboard.inner),
            Some(Request::ConvertSelection(_))
        ));
    }
}

#[test]
fn the_leaving_of_others_changes_nothing() {
    let clipboard = Clipboard::opened(context(77));
    for owners in [4, 5, 100] {
        let teardown = clipboard.drop(owners);
        assert!(matches!(teardown, Teardown::Finished));
    }
}

#[test]
fn the_end_goes_on_after_a_failed_handover() {
    let mut clipboard = Clipboard::opened(context(77));
    let mut teardown = clipboard.drop(3);
    teardown.step(&mut clipboard.inner, Reply::Failed("lost".to_string()));
    assert_eq!(teardown.request(&clipboard.inner), Some(Request::TakeGlobal));
}

#[test]
fn a_window_that_cannot_be_destroyed_leaves_the_server_alone() {
    for failing in 0..2 {
        let mut clipboard = Clipboard::opened(context(0));
        let mut teardown = clipboard.drop(3);
        teardown.step(&mut clipboard.inner, Reply::GlobalTaken { present: true });
        for _ in 0..failing {
            teardown.step(&mut clipboard.inner, Reply::Done);
        }
        teardown.step(&mut clipboard.inner, Reply::Failed("lost".to_string()));
        assert!(matches!(teardown, Teardown::Finished));
    }
}

#[test]
fn without_a_shared_clipboard_no_server_is_joined() {
    let mut clipboard = Clipboard::opened(context(0));
    let mut teardown = clipboard.drop(3);
    teardown.step(&mut clipboard.inner, Reply::GlobalTaken { present: false });
    teardown.step(&mut clipboard.inner, Reply::Done);
    teardown.step(&mut clipboard.inner, Reply::Done);
    assert!(matches!(teardown, Teardown::Finished));
}

#[test]
fn a_server_that_panicked_is_still_joined() {
    let mut clipboard = Clipboard::opened(context(0));
    let mut teardown = clipboard.drop(3);
    for reply in [Reply::GlobalTaken { present: true }, Reply::Done, Reply::Done] {
        teardown.step(&mut clipboard.inner, reply);
    }
    assert_eq!(teardown.request(&clipboard.inner), Some(Request::JoinServer));
    teardown.step(&mut clipboard.inner, Reply::Failed("panicked".to_string()));
    assert!(matches!(teardown, Teardown::Finished));
}
