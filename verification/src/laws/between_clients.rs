//! Laws of two clients, one of which has what the other reads.
//!
//! The X server stands between them: it tells the owner of a conversion that was
//! asked for, keeps the property that the owner writes, and delivers the
//! notification that the owner sends.
use vstd::prelude::*;
use crate::clipboard::{text_contents, text_formats, text_in};
use crate::context::{ContextView, DataView};
use crate::error::ErrorView;
use crate::laws::writing::text_survives;
use crate::protocol::{
    Conversion, Event, PropertyChange, PropertyReplyView, ReplyView, RequestView,
    SelectionNotifyEvent, SelectionRequestEvent, NONE, PROP_MODE_REPLACE,
};
use crate::read_single::{ReadPhaseView, ReadSingleView};

verus! {

/// Whether the owner is told of this conversion by this event.
pub open spec fn tells_of(event: SelectionRequestEvent, conversion: Conversion) -> bool {
    &&& event.requestor == conversion.requestor
    &&& event.selection == conversion.selection
    &&& event.target == conversion.target
    &&& event.property == conversion.property
}

/// Whether this request sends the notification that arrives as this event. The
/// server may mark the event as sent, and numbers it anew.
pub open spec fn delivers(request: RequestView, arrived: SelectionNotifyEvent) -> bool {
    request matches RequestView::SendSelectionNotify { event, .. } && arrived
        == (SelectionNotifyEvent {
        response_type: arrived.response_type,
        sequence: arrived.sequence,
        ..event
    })
}

/// What the owner has under the name that the reader asks for, the reader gets,
/// byte for byte: the owner writes it into the property that the reader then
/// looks into.
pub proof fn contents_pass_to_the_reader(
    owner: ContextView,
    data: DataView,
    reader: ReadSingleView,
    request: SelectionRequestEvent,
    notification: SelectionNotifyEvent,
    format: u8,
    value_len: u32,
)
    requires
        owner.data == Some(data),
        owner.atoms == reader.atoms,
        owner.serves(reader.target_format),
        reader.target_format != owner.atoms.TARGETS,
        owner.atoms.ARBOARD_CLIPBOARD != NONE,
        !reader.using_incr,
        reader.at(ReadPhaseView::Converting).pending() matches Some(
            RequestView::ConvertSelection(conversion),
        ) && tells_of(request, conversion),
        delivers(owner.answer(request)[2], notification),
    ensures
        owner.answer(request)[0] == (RequestView::ChangeProperty8 {
            change: PropertyChange {
                mode: PROP_MODE_REPLACE,
                window: reader.reader,
                property: reader.atoms.ARBOARD_CLIPBOARD,
                type_: reader.target_format,
            },
            data: data.bytes,
        }),
        ({
            let told = reader.at(ReadPhaseView::Polling).next(
                ReplyView::Event(Some(Event::SelectionNotify(notification))),
            );
            let reply = PropertyReplyView {
                format,
                type_: reader.target_format,
                value_len,
                value: data.bytes,
            };
            &&& told.pending() == Some(
                ReadSingleView::query(
                    reader.reader,
                    reader.atoms.ARBOARD_CLIPBOARD,
                    reader.target_format,
                ),
            )
            &&& told.next(ReplyView::Property(reply)) == reader.finished(
                Ok::<Seq<u8>, ErrorView>(data.bytes),
            )
        }),
{
}

/// Where the owner does not have the format that the reader asks for, the reader
/// learns from its answer that the contents are not available.
pub proof fn refusal_reaches_the_reader(
    owner: ContextView,
    reader: ReadSingleView,
    request: SelectionRequestEvent,
    notification: SelectionNotifyEvent,
)
    requires
        !owner.serves(reader.target_format),
        owner.atoms == reader.atoms,
        reader.at(ReadPhaseView::Converting).pending() matches Some(
            RequestView::ConvertSelection(conversion),
        ) && tells_of(request, conversion),
        delivers(owner.answer(request)[0], notification),
    ensures
        reader.at(ReadPhaseView::Polling).next(
            ReplyView::Event(Some(Event::SelectionNotify(notification))),
        ) == reader.finished(Err::<Seq<u8>, ErrorView>(ErrorView::ContentNotAvailable)),
{
}

/// Text that one client puts on the clipboard is the text that another gets from
/// it, under each of the three names that UTF-8 text is asked for first.
pub proof fn text_passes_to_the_reader(owner: ContextView, text: Seq<char>, index: int)
    requires
        owner.data == Some(text_contents(owner.atoms, text)),
        owner.atoms.distinct(),
        0 <= index < 3,
    ensures
        owner.serves(text_formats(owner.atoms)[index]),
        ({
            let data = DataView {
                bytes: owner.data.unwrap().bytes,
                format: text_formats(owner.atoms)[index],
            };
            text_in(owner.atoms, Ok::<DataView, ErrorView>(data)) == Ok::<Seq<char>, ErrorView>(
                text,
            )
        }),
{
    text_survives(owner.atoms, text);
    assert(owner.atoms.ids()[6 + index] == text_formats(owner.atoms)[index]);
    assert(owner.atoms.ids()[9] == owner.atoms.STRING);
}

} // verus!
