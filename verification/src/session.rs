//! The reader half of a relay session: what one inbound frame asks the relay
//! to do. The session keeps nothing between frames, so each frame is planned
//! by itself; the caller writes the file, records the message and hands the
//! text to the registry, in this order, and goes on whatever the first two
//! come to.

use crate::attachment::{prepare, prepared, AttachmentError, StoreRequest, StoreRequestView};
use crate::event::{Event, EventView, MessageRecord, RecordView};
use crate::json::{json_object, json_text};
use crate::wire::{decode_event, decoded, encode_event, members_for, WireError};
use vstd::prelude::*;
use vstd::string::StringSliceAdditionalSpecFns;
use vstd::utf8::encode_utf8;

verus! {

/// One inbound frame: a text frame with its text, or any other frame.
#[derive(Clone, Debug, PartialEq, Eq)]
pub enum Frame {
    Text(String),
    Other,
}

/// The mathematical value of a [`Frame`].
pub enum FrameView {
    Text(Seq<char>),
    Other,
}

impl View for Frame {
    type V = FrameView;

    open spec fn view(&self) -> FrameView {
        match self {
            Frame::Text(text) => FrameView::Text(text@),
            Frame::Other => FrameView::Other,
        }
    }
}

/// What an accepted event asks for.
#[derive(Clone, Debug, PartialEq, Eq)]
pub struct Dispatch {
    /// The file to write for the attachment, or why there is none to write;
    /// nothing where the event asks for no attachment to be stored.
    pub attachment: Option<Result<StoreRequest, AttachmentError>>,
    /// The record to hand to the message store.
    pub record: MessageRecord,
    /// The text to offer to every registered peer.
    pub outbound: String,
}

/// The mathematical value of a [`Dispatch`].
pub struct DispatchView {
    pub attachment: Option<Result<StoreRequestView, AttachmentError>>,
    pub record: RecordView,
    pub outbound: Seq<char>,
}

/// The view of what is planned for the attachment.
pub open spec fn attachment_view(planned: Option<Result<StoreRequest, AttachmentError>>) -> Option<
    Result<StoreRequestView, AttachmentError>,
> {
    match planned {
        None => None,
        Some(Ok(request)) => Some(Ok(request@)),
        Some(Err(e)) => Some(Err(e)),
    }
}

impl View for Dispatch {
    type V = DispatchView;

    open spec fn view(&self) -> DispatchView {
        DispatchView {
            attachment: attachment_view(self.attachment),
            record: self.record@,
            outbound: self.outbound@,
        }
    }
}

/// What one frame asks for.
#[derive(Clone, Debug, PartialEq, Eq)]
pub enum Plan {
    /// Not a text frame: nothing is done.
    Ignore,
    /// A text frame that is no event: nothing is done but to log the reason.
    Reject(WireError),
    /// An event: it is stored and sent on.
    Relay(Dispatch),
}

/// The mathematical value of a [`Plan`].
pub enum PlanView {
    Ignore,
    Reject(WireError),
    Relay(DispatchView),
}

impl View for Plan {
    type V = PlanView;

    open spec fn view(&self) -> PlanView {
        match self {
            Plan::Ignore => PlanView::Ignore,
            Plan::Reject(e) => PlanView::Reject(*e),
            Plan::Relay(dispatch) => PlanView::Relay(dispatch@),
        }
    }
}

/// What is planned for the attachment of an event: nothing unless the event
/// is of the attachment kind and carries both payload and reference; else
/// what the attachment store makes of the two.
pub open spec fn attachment_plan(event: EventView) -> Option<
    Result<StoreRequestView, AttachmentError>,
> {
    match event.attachment() {
        None => None,
        Some((payload, reference)) => Some(prepared(encode_utf8(payload), reference)),
    }
}

/// What an event asks for: the record and the outbound text are those of
/// the event whatever becomes of its attachment.
pub open spec fn dispatch_of(event: EventView) -> DispatchView {
    DispatchView {
        attachment: attachment_plan(event),
        record: event.record(),
        outbound: json_text(members_for(event)),
    }
}

/// What a frame asks for, given what its text decodes to.
pub open spec fn plan_for(outcome: Result<EventView, WireError>) -> PlanView {
    match outcome {
        Err(e) => PlanView::Reject(e),
        Ok(event) => PlanView::Relay(dispatch_of(event)),
    }
}

/// What a frame asks for.
pub open spec fn plan_of(frame: FrameView) -> PlanView {
    match frame {
        FrameView::Other => PlanView::Ignore,
        FrameView::Text(text) => plan_for(decoded(json_object(text))),
    }
}

impl PlanView {
    /// The number of records that the plan hands to the message store.
    pub open spec fn records(self) -> Seq<RecordView> {
        match self {
            PlanView::Relay(dispatch) => seq![dispatch.record],
            _ => Seq::empty(),
        }
    }

    /// The texts that the plan hands to the registry.
    pub open spec fn broadcasts(self) -> Seq<Seq<char>> {
        match self {
            PlanView::Relay(dispatch) => seq![dispatch.outbound],
            _ => Seq::empty(),
        }
    }

    /// The files that the plan asks to write.
    pub open spec fn writes(self) -> Seq<StoreRequestView> {
        match self {
            PlanView::Relay(dispatch) => match dispatch.attachment {
                Some(Ok(request)) => seq![request],
                _ => Seq::empty(),
            },
            _ => Seq::empty(),
        }
    }
}

impl Event {
    /// What is planned for the attachment of this event.
    pub fn plan_attachment(&self) -> (planned: Option<Result<StoreRequest, AttachmentError>>)
        ensures
            attachment_view(planned) == attachment_plan(self@),
    {
        match self.attachment() {
            None => None,
            Some((payload, reference)) => Some(prepare(payload, reference)),
        }
    }

    /// What this event asks for.
    pub fn dispatch(&self) -> (dispatch: Dispatch)
        ensures
            dispatch@ == dispatch_of(self@),
    {
        Dispatch {
            attachment: self.plan_attachment(),
            record: self.record(),
            outbound: encode_event(self),
        }
    }
}

/// What a frame asks for, once its text has been decoded: a text that is no
/// event asks for nothing.
pub fn plan_decoded(outcome: Result<Event, WireError>) -> (plan: Plan)
    ensures
        match outcome {
            Ok(event) => plan@ == plan_for(Ok(event@)),
            Err(e) => plan@ == plan_for(Err(e)),
        },
{
    match outcome {
        Err(e) => Plan::Reject(e),
        Ok(event) => Plan::Relay(event.dispatch()),
    }
}

/// What one inbound frame asks for. A frame that is no text frame is
/// ignored. A text frame that is no event is rejected, and nothing is
/// stored or sent. An event is relayed: its record goes to the store and
/// its text to every peer, and its attachment is written where it has one
/// that decodes.
pub fn plan_frame(frame: &Frame) -> (plan: Plan)
    ensures
        plan@ == plan_of(frame@),
{
    match frame {
        Frame::Other => Plan::Ignore,
        Frame::Text(text) => plan_decoded(decode_event(text.as_str())),
    }
}

} // verus!
