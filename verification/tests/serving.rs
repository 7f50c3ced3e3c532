use smol_clip::atoms::Atoms;
use smol_clip::context::{ClipboardContext, ClipboardData};
use smol_clip::error::Error;
use smol_clip::protocol::{
    Event, PropertyChange, PropertyNotifyEvent, PropertyReply, Reply, Request, SelectionClearEvent,
    SelectionNotifyEvent, SelectionRequestEvent,
};
use smol_clip::read_single::{ReadPhase, ReadSingle};
use smol_clip::serve::{serve_requests, ServePhase};
use smol_clip::window::XContext;
use smol_clip::write::Write;

fn context(format: Option<u32>) -> ClipboardContext {
    let ids: Vec<u32> = (1..15).collect();
    let mut context =
        ClipboardContext::fresh(XContext { win_id: 77 }, Atoms::from_ids(&ids).unwrap());
    context.data = format.map(|format| ClipboardData { bytes: vec![1, 2, 3], format });
    context
}

fn request(selection: u32, target: u32) -> SelectionRequestEvent {
    SelectionRequestEvent {
        sequence: 9,
        time: 1234,
        requestor: 55,
        selection,
        target,
        property: 66,
    }
}

fn notification(target: u32, property: u32) -> Request {
    Request::SendSelectionNotify {
        propagate: false,
        destination: 55,
        event_mask: 0,
        event: SelectionNotifyEvent {
            response_type: 31,
            sequence: 9,
            time: 1234,
            requestor: 55,
            selection: 1,
            target,
            property,
        },
    }
}

fn targets_are(context: &ClipboardContext, data: Vec<u32>) {
    assert_eq!(
        context.handle_selection_request(&request(1, 4)),
        vec![
            Request::ChangeProperty32 {
                change: PropertyChange { mode: 0, window: 55, property: 66, type_: 5 },
                data,
            },
            Request::Flush,
            notification(4, 66),
            Request::Flush,
        ]
    );
}

#[test]
fn the_targets_of_text_are_listed() {
    targets_are(&context(Some(7)), vec![4, 3, 7, 8, 9]);
}

#[test]
fn the_targets_of_an_image_are_listed() {
    targets_are(&context(Some(13)), vec![4, 3, 13]);
}

#[test]
fn without_contents_few_targets_are_listed() {
    targets_are(&context(None), vec![4, 3]);
}

#[test]
fn contents_are_sent_in_their_format() {
    assert_eq!(
        context(Some(7)).handle_selection_request(&request(1, 7)),
        vec![
            Request::ChangeProperty8 {
                change: PropertyChange { mode: 0, window: 55, property: 66, type_: 7 },
                data: vec![1, 2, 3],
            },
            Request::Flush,
            notification(7, 66),
            Request::Flush,
        ]
    );
}

#[test]
fn text_is_sent_under_its_other_names() {
    for target in [8, 9] {
        assert_eq!(
            context(Some(7)).handle_selection_request(&request(1, target)),
            vec![
                Request::ChangeProperty8 {
                    change: PropertyChange { mode: 0, window: 55, property: 66, type_: target },
                    data: vec![1, 2, 3],
                },
                Request::Flush,
                notification(target, 66),
                Request::Flush,
            ]
        );
    }
}

#[test]
fn other_contents_have_no_other_names() {
    for (format, target) in [(13, 8), (13, 9), (8, 7), (8, 9), (10, 8)] {
        assert_eq!(
            context(Some(format)).handle_selection_request(&request(1, target)),
            vec![notification(target, 0), Request::Flush]
        );
    }
}

#[test]
fn every_listed_target_is_served() {
    for format in [7, 8, 10, 13] {
        let context = context(Some(format));
        for target in context.targets() {
            if target != 3 {
                assert_eq!(context.handle_selection_request(&request(1, target)).len(), 4);
            }
        }
    }
}

#[test]
fn other_formats_are_refused() {
    for target in [10, 13, 3] {
        assert_eq!(
            context(Some(7)).handle_selection_request(&request(1, target)),
            vec![notification(target, 0), Request::Flush]
        );
    }
}

#[test]
fn without_contents_a_request_is_refused() {
    assert_eq!(
        context(None).handle_selection_request(&request(1, 7)),
        vec![notification(7, 0), Request::Flush]
    );
}

#[test]
fn requests_for_other_selections_are_passed_over() {
    assert_eq!(context(Some(7)).handle_selection_request(&request(2, 7)), vec![]);
    assert_eq!(context(Some(7)).handle_selection_request(&request(2, 4)), vec![]);
}

#[test]
fn an_answer_is_given_step_by_step() {
    let mut context = context(Some(7));
    let plan = context.handle_selection_request(&request(1, 7));
    let mut server = serve_requests();
    assert_eq!(server.request(), Some(Request::WaitForEvent));
    server.step(&mut context, Reply::Event(Some(Event::SelectionRequest(request(1, 7)))));
    for expected in plan {
        assert_eq!(server.request(), Some(expected));
        server.step(&mut context, Reply::Done);
    }
    assert_eq!(server.request(), Some(Request::WaitForEvent));
    assert!(!server.written);
    assert_eq!(context.data.unwrap().bytes, vec![1, 2, 3]);
}

#[test]
fn a_failed_answer_ends_the_serving() {
    let mut context = context(Some(7));
    let mut server = serve_requests();
    server.step(&mut context, Reply::Event(Some(Event::SelectionRequest(request(1, 7)))));
    assert!(!context.serve_stopped);
    server.step(&mut context, Reply::Failed("lost".to_string()));
    assert_eq!(server.request(), None);
    assert!(context.serve_stopped);
    match server.phase {
        ServePhase::Finished(result) => assert_eq!(
            result,
            Err(Error::Unknown {
                description: "Unknown error while interacting with the clipboard: lost".to_string()
            })
        ),
        other => panic!("{:?}", other),
    }
}

#[test]
fn a_failed_wait_ends_the_serving() {
    let mut context = context(None);
    let mut server = serve_requests();
    server.step(&mut context, Reply::Failed("lost".to_string()));
    assert!(context.serve_stopped);
    match server.phase {
        ServePhase::Finished(result) => {
            assert_eq!(result, Err(Error::Unknown { description: "lost".to_string() }))
        }
        other => panic!("{:?}", other),
    }
}

#[test]
fn the_end_of_the_window_ends_the_serving() {
    let mut context = context(Some(7));
    let mut server = serve_requests();
    server.step(&mut context, Reply::Event(Some(Event::DestroyNotify)));
    assert!(matches!(server.phase, ServePhase::Finished(Ok(()))));
    assert!(context.data.is_some());
    assert!(context.serve_stopped);
}

#[test]
fn nothing_is_written_after_the_end_of_serving() {
    let mut context = context(Some(7));
    let mut server = serve_requests();
    server.step(&mut context, Reply::Event(Some(Event::Other)));
    let data = ClipboardData { bytes: vec![9], format: 7 };
    assert!(matches!(context.write(data.clone()), Write::AskingOwner(_)));
    server.step(&mut context, Reply::Event(Some(Event::DestroyNotify)));
    assert!(matches!(
        context.write(data),
        Write::Finished(Err(Error::Unknown { .. }))
    ));
    server.step(&mut context, Reply::Event(Some(Event::Other)));
    assert!(context.serve_stopped);
    assert_eq!(context.data.unwrap().bytes, vec![1, 2, 3]);
}

#[test]
fn our_data_goes_when_somebody_takes_the_clipboard() {
    let mut context = context(Some(7));
    let mut server = serve_requests();
    let other = SelectionClearEvent { selection: 2 };
    server.step(&mut context, Reply::Event(Some(Event::SelectionClear(other))));
    assert!(context.data.is_some());
    let ours = SelectionClearEvent { selection: 1 };
    server.step(&mut context, Reply::Event(Some(Event::SelectionClear(ours))));
    assert!(context.data.is_none());
    assert_eq!(server.request(), Some(Request::WaitForEvent));
}

#[test]
fn other_events_change_nothing() {
    let mut context = context(Some(7));
    let mut server = serve_requests();
    let news = PropertyNotifyEvent { window: 77, atom: 14, state: 0 };
    for event in [Event::Other, Event::PropertyNotify(news)] {
        server.step(&mut context, Reply::Event(Some(event)));
        assert_eq!(server.request(), Some(Request::WaitForEvent));
        assert!(!server.written && !server.notified);
    }
    server.step(&mut context, Reply::Clock(3));
    assert_eq!(server.request(), Some(Request::WaitForEvent));
}

#[test]
fn contents_pass_from_one_client_to_another() {
    let context = context(Some(7));
    let mut reader = ReadSingle::new(context.atoms, 55, 7);
    reader.step(Reply::Done);
    let conversion = match reader.request() {
        Some(Request::ConvertSelection(conversion)) => conversion,
        other => panic!("{:?}", other),
    };
    let event = SelectionRequestEvent {
        sequence: 9,
        time: conversion.time,
        requestor: conversion.requestor,
        selection: conversion.selection,
        target: conversion.target,
        property: conversion.property,
    };
    let plan = context.handle_selection_request(&event);
    let (change, data) = match &plan[0] {
        Request::ChangeProperty8 { change, data } => (*change, data.clone()),
        other => panic!("{:?}", other),
    };
    let notified = match &plan[2] {
        Request::SendSelectionNotify { event, .. } => *event,
        other => panic!("{:?}", other),
    };
    for reply in [
        Reply::Done,
        Reply::Done,
        Reply::Clock(0),
        Reply::Clock(1),
        Reply::Event(Some(Event::SelectionNotify(notified))),
    ] {
        reader.step(reply);
    }
    match reader.request() {
        Some(Request::GetProperty(query)) => {
            assert_eq!(query.window, change.window);
            assert_eq!(query.property, change.property);
            assert_eq!(query.type_, change.type_);
        }
        other => panic!("{:?}", other),
    }
    reader.step(Reply::Property(PropertyReply {
        format: 8,
        type_: change.type_,
        value_len: data.len() as u32,
        value: data,
    }));
    match reader.phase {
        ReadPhase::Finished(result) => assert_eq!(result, Ok(vec![1, 2, 3])),
        other => panic!("{:?}", other),
    }
}

#[test]
fn a_refusal_passes_from_one_client_to_another() {
    let context = context(Some(7));
    let mut reader = ReadSingle::new(context.atoms, 55, 13);
    for reply in [Reply::Done, Reply::Done, Reply::Done, Reply::Clock(0), Reply::Clock(1)] {
        reader.step(reply);
    }
    let plan = context.handle_selection_request(&request(1, 13));
    let notified = match &plan[0] {
        Request::SendSelectionNotify { event, .. } => *event,
        other => panic!("{:?}", other),
    };
    reader.step(Reply::Event(Some(Event::SelectionNotify(notified))));
    match reader.phase {
        ReadPhase::Finished(result) => assert_eq!(result, Err(Error::ContentNotAvailable)),
        other => panic!("{:?}", other),
    }
}
