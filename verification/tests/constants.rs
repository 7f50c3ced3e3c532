use smol_clip::protocol::{
    CLASS_COPY_FROM_PARENT, COPY_DEPTH_FROM_PARENT, COPY_FROM_PARENT, CURRENT_TIME,
    EVENT_MASK_NO_EVENT, EVENT_MASK_PROPERTY_CHANGE, EVENT_MASK_STRUCTURE_NOTIFY, NONE,
    PROPERTY_LENGTH, PROPERTY_NEW_VALUE, PROP_MODE_REPLACE, SELECTION_NOTIFY_EVENT,
};
use smol_clip::read_single::{LATEST_TIME, LONG_TIMEOUT, SHORT_TIMEOUT};
use std::time::Duration;
use x11rb::protocol::xproto::{EventMask, PropMode, Property, Time, WindowClass};

#[test]
fn numbers_are_those_of_the_protocol() {
    assert_eq!(NONE, x11rb::NONE);
    assert_eq!(CURRENT_TIME, u32::from(Time::CURRENT_TIME));
    assert_eq!(COPY_FROM_PARENT, x11rb::COPY_FROM_PARENT);
    assert_eq!(COPY_DEPTH_FROM_PARENT, x11rb::COPY_DEPTH_FROM_PARENT);
    assert_eq!(CLASS_COPY_FROM_PARENT, u16::from(WindowClass::COPY_FROM_PARENT));
    assert_eq!(PROP_MODE_REPLACE, u8::from(PropMode::REPLACE));
    assert_eq!(PROPERTY_NEW_VALUE, u8::from(Property::NEW_VALUE));
    assert_eq!(EVENT_MASK_NO_EVENT, u32::from(EventMask::NO_EVENT));
    assert_eq!(EVENT_MASK_STRUCTURE_NOTIFY, u32::from(EventMask::STRUCTURE_NOTIFY));
    assert_eq!(EVENT_MASK_PROPERTY_CHANGE, u32::from(EventMask::PROPERTY_CHANGE));
    assert_eq!(SELECTION_NOTIFY_EVENT, x11rb::protocol::xproto::SELECTION_NOTIFY_EVENT);
    assert_eq!(PROPERTY_LENGTH, u32::MAX / 4);
}

#[test]
fn timeouts_are_in_nanoseconds() {
    assert_eq!(LONG_TIMEOUT, Duration::from_millis(4000).as_nanos());
    assert_eq!(SHORT_TIMEOUT, Duration::from_millis(10).as_nanos());
    assert_eq!(LATEST_TIME, Duration::new(u64::MAX, 999_999_999).as_nanos());
}
