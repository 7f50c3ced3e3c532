use smol_clip::atoms::Atoms;
use smol_clip::error::Error;
use smol_clip::protocol::{
    Event, PropertyNotifyEvent, PropertyQuery, PropertyReply, Reply, Request, SelectionClearEvent,
    SelectionNotifyEvent,
};
use smol_clip::read_single::{announced_length, ReadPhase, ReadSingle};

const LONG: u128 = 4_000_000_000;
const SHORT: u128 = 10_000_000;

/// Window 88 asks for target 13.
fn reading() -> ReadSingle {
    let ids: Vec<u32> = (1..15).collect();
    ReadSingle::new(Atoms::from_ids(&ids).unwrap(), 88, 13)
}

/// The same, once the owner was asked at this time.
fn asked(now: u128) -> ReadSingle {
    let mut read = reading();
    for reply in [Reply::Done, Reply::Done, Reply::Done, Reply::Clock(now)] {
        read.step(reply);
    }
    read
}

fn notify(selection: u32, target: u32, property: u32) -> Reply {
    Reply::Event(Some(Event::SelectionNotify(SelectionNotifyEvent {
        response_type: 31,
        sequence: 0,
        time: 0,
        requestor: 88,
        selection,
        target,
        property,
    })))
}

fn filled(atom: u32, state: u8) -> Reply {
    Reply::Event(Some(Event::PropertyNotify(PropertyNotifyEvent { window: 88, atom, state })))
}

fn property(type_: u32, value: &[u8]) -> Reply {
    Reply::Property(PropertyReply {
        format: 8,
        type_,
        value_len: value.len() as u32,
        value: value.to_vec(),
    })
}

fn query(type_: u32) -> Option<Request> {
    Some(Request::GetProperty(PropertyQuery {
        delete: true,
        window: 88,
        property: 14,
        type_,
        long_offset: 0,
        long_length: 0x3fff_ffff,
    }))
}

/// The same, once an incremental transfer was announced.
fn announced() -> ReadSingle {
    let mut read = asked(0);
    for reply in [Reply::Clock(1), notify(1, 13, 14), property(6, &[]), property(6, &[])] {
        read.step(reply);
    }
    read
}

fn outcome(read: ReadSingle) -> Result<Vec<u8>, Error> {
    match read.phase {
        ReadPhase::Finished(result) => result,
        other => panic!("{:?}", other),
    }
}

#[test]
fn the_owner_has_four_seconds_to_begin() {
    let mut read = asked(500);
    assert_eq!(read.timeout_end, 500 + LONG);
    read.step(Reply::Clock(500 + LONG - 1));
    assert_eq!(read.request(), Some(Request::PollForEvent));

    let mut read = asked(500);
    read.step(Reply::Clock(500 + LONG));
    assert_eq!(outcome(read), Err(Error::ContentNotAvailable));
}

#[test]
fn without_an_event_there_is_a_pause() {
    let mut read = asked(0);
    read.step(Reply::Clock(1));
    read.step(Reply::Event(None));
    assert_eq!(read.request(), Some(Request::Sleep { millis: 1 }));
    read.step(Reply::Done);
    assert_eq!(read.request(), Some(Request::ReadClock));
}

#[test]
fn contents_in_one_piece_are_read() {
    let mut read = asked(0);
    read.step(Reply::Clock(1));
    read.step(notify(1, 13, 14));
    assert_eq!(read.request(), query(13));
    read.step(property(13, &[1, 2, 3]));
    assert_eq!(outcome(read), Ok(vec![1, 2, 3]));
}

#[test]
fn empty_contents_are_read() {
    let mut read = asked(0);
    read.step(Reply::Clock(1));
    read.step(notify(1, 13, 14));
    read.step(property(13, &[]));
    assert_eq!(outcome(read), Ok(vec![]));
}

#[test]
fn a_refusal_means_no_contents() {
    let mut read = asked(0);
    read.step(Reply::Clock(1));
    read.step(notify(1, 13, 0));
    assert_eq!(outcome(read), Err(Error::ContentNotAvailable));
}

#[test]
fn an_answer_about_another_target_means_no_contents() {
    let mut read = asked(0);
    read.step(Reply::Clock(1));
    read.step(notify(1, 7, 14));
    assert_eq!(outcome(read), Err(Error::ContentNotAvailable));
}

#[test]
fn an_answer_about_another_selection_is_passed_over() {
    let mut read = asked(0);
    read.step(Reply::Clock(1));
    read.step(notify(2, 13, 14));
    assert_eq!(read.request(), Some(Request::ReadClock));
    assert!(matches!(read.phase, ReadPhase::Checking));
}

#[test]
fn other_events_are_passed_over() {
    for event in [
        Event::Other,
        Event::DestroyNotify,
        Event::SelectionClear(SelectionClearEvent { selection: 1 }),
    ] {
        let mut read = asked(0);
        read.step(Reply::Clock(1));
        read.step(Reply::Event(Some(event)));
        assert!(matches!(read.phase, ReadPhase::Checking));
    }
}

#[test]
fn a_property_of_another_type_is_an_error() {
    let mut read = asked(0);
    read.step(Reply::Clock(1));
    read.step(notify(1, 13, 14));
    read.step(property(7, &[1]));
    assert_eq!(
        outcome(read),
        Err(Error::Unknown { description: "incorrect type received from clipboard".to_string() })
    );
}

#[test]
fn an_announcement_is_read_again_and_grants_time() {
    let mut read = asked(100);
    read.step(Reply::Clock(101));
    read.step(notify(1, 13, 14));
    read.step(property(6, &[]));
    assert_eq!(read.request(), query(6));
    assert!(!read.using_incr);
    read.step(property(6, &[]));
    assert!(read.using_incr);
    assert_eq!(read.timeout_end, 100 + LONG + SHORT);
    assert_eq!(read.request(), Some(Request::ReadClock));
}

#[test]
fn pieces_are_joined_in_order() {
    let mut read = announced();
    for (now, piece) in [(10, vec![1, 2]), (20, vec![3]), (30, vec![4, 5, 6])] {
        read.step(Reply::Clock(now));
        read.step(filled(14, 0));
        assert_eq!(read.request(), query(13));
        read.step(property(13, &piece));
        assert_eq!(read.request(), Some(Request::ReadClock));
        read.step(Reply::Clock(now + 5));
        assert_eq!(read.timeout_end, now + 5 + SHORT);
    }
    read.step(Reply::Clock(40));
    read.step(filled(14, 0));
    read.step(property(0, &[]));
    assert_eq!(outcome(read), Ok(vec![1, 2, 3, 4, 5, 6]));
}

#[test]
fn pieces_have_to_come_in_time() {
    let mut read = announced();
    for reply in [Reply::Clock(10), filled(14, 0), property(13, &[1]), Reply::Clock(20)] {
        read.step(reply);
    }
    read.step(Reply::Clock(20 + SHORT));
    assert_eq!(outcome(read), Err(Error::ContentNotAvailable));
}

#[test]
fn news_of_other_properties_brings_no_piece() {
    for event in [filled(13, 0), filled(14, 1)] {
        let mut read = announced();
        read.step(Reply::Clock(10));
        read.step(event);
        assert!(matches!(read.phase, ReadPhase::Checking));
    }
}

#[test]
fn before_an_announcement_there_are_no_pieces() {
    let mut read = asked(0);
    read.step(Reply::Clock(1));
    read.step(filled(14, 0));
    assert!(matches!(read.phase, ReadPhase::Checking));
    assert!(!read.using_incr);
}

#[test]
fn an_incremental_transfer_is_not_announced_again() {
    let mut read = announced();
    let deadline = read.timeout_end;
    read.step(Reply::Clock(10));
    read.step(notify(1, 13, 14));
    assert!(matches!(read.phase, ReadPhase::Checking));
    assert_eq!(read.timeout_end, deadline);
}

#[test]
fn every_failure_of_a_reading_is_described() {
    let replies = vec![
        Reply::Done,
        Reply::Done,
        Reply::Done,
        Reply::Clock(0),
        Reply::Clock(1),
        notify(1, 13, 14),
        property(6, &[]),
        property(6, &[]),
        Reply::Clock(2),
        filled(14, 0),
    ];
    for failing in [0, 1, 2, 5, 6, 7, 9, 10] {
        let mut read = reading();
        for reply in &replies[..failing] {
            read.step(reply.clone());
        }
        read.step(Reply::Failed("lost".to_string()));
        assert_eq!(
            outcome(read),
            Err(Error::Unknown { description: "lost".to_string() })
        );
    }
}

#[test]
fn a_clock_does_not_fail() {
    let mut read = asked(0);
    read.step(Reply::Failed("lost".to_string()));
    assert!(matches!(read.phase, ReadPhase::Checking));
}

#[test]
fn a_finished_reading_stays_finished() {
    let mut read = asked(0);
    for reply in [Reply::Clock(1), notify(1, 13, 14), property(13, &[1]), notify(1, 13, 0)] {
        read.step(reply);
    }
    assert_eq!(read.request(), None);
    assert_eq!(outcome(read), Ok(vec![1]));
}

#[test]
fn the_announced_length_is_in_the_byte_order_of_the_machine() {
    let mut reply = PropertyReply {
        format: 32,
        type_: 6,
        value_len: 4,
        value: 70_000u32.to_ne_bytes().to_vec(),
    };
    assert_eq!(announced_length(&reply), 70_000);
    reply.value.extend([1, 2, 3, 4]);
    assert_eq!(announced_length(&reply), 70_000);
    reply.value_len = 1;
    assert_eq!(announced_length(&reply), 0);
    reply.value_len = 4;
    reply.format = 8;
    assert_eq!(announced_length(&reply), 0);
    reply.format = 32;
    reply.value = vec![1, 2, 3];
    assert_eq!(announced_length(&reply), 0);
}
