//! The relay as a whole, in mathematical terms: what the peers' queues and
//! the message store have been given after a run of frames, and what holds
//! of that for every run.

use crate::attachment::{carried_bytes, AttachmentError};
use crate::event::{EventView, RecordView};
use crate::json::json_text;
use crate::registry::{recipients, Delivery};
use crate::session::{dispatch_of, plan_for, plan_of, DispatchView, FrameView, PlanView};
use crate::wire::{members_for, WireError};
use vstd::prelude::*;
use vstd::utf8::encode_utf8;

verus! {

/// What each peer's outbound queue has been given, by handle, oldest first.
pub type Queues = Map<u64, Seq<Seq<char>>>;

/// What the queue of a peer has been given; nothing for a peer that no
/// text was sent to yet.
pub open spec fn given(queues: Queues, handle: u64) -> Seq<Seq<char>> {
    if queues.contains_key(handle) {
        queues[handle]
    } else {
        Seq::empty()
    }
}

/// The queues after one send: a queue that took the text has it last, a
/// queue that refused is as it was.
pub open spec fn offer(queues: Queues, entry: Delivery, text: Seq<char>) -> Queues {
    if entry.accepted {
        queues.insert(entry.handle, given(queues, entry.handle).push(text))
    } else {
        queues
    }
}

/// The queues after the sends of one broadcast, taken in the order of its
/// report.
pub open spec fn deliver(queues: Queues, report: Seq<Delivery>, text: Seq<char>) -> Queues
    decreases report.len(),
{
    if report.len() == 0 {
        queues
    } else {
        offer(deliver(queues, report.drop_last(), text), report.last(), text)
    }
}

/// What the relay has handed on: to the peers' queues and to the message
/// store.
pub struct RelayState {
    pub queues: Queues,
    pub records: Seq<RecordView>,
}

/// The relay after one accepted event: its record is handed to the store
/// once, and its text goes to the queues as the broadcast's report says.
pub open spec fn relay(state: RelayState, dispatch: DispatchView, report: Seq<Delivery>)
    -> RelayState {
    RelayState {
        queues: deliver(state.queues, report, dispatch.outbound),
        records: state.records.push(dispatch.record),
    }
}

/// What the frames of one connection ask to relay, in their order: the
/// dispatches of those frames that are events.
pub open spec fn relayed(frames: Seq<FrameView>) -> Seq<DispatchView>
    decreases frames.len(),
{
    if frames.len() == 0 {
        Seq::empty()
    } else {
        let before = relayed(frames.drop_last());
        match plan_of(frames.last()) {
            PlanView::Relay(dispatch) => before.push(dispatch),
            _ => before,
        }
    }
}

/// A broadcast changes the queue of a peer outside its report in nothing,
/// and the queue of a peer that its report names once, as that entry says:
/// the text comes last, once, if the queue took it, and the queue is as it
/// was if it refused.
pub proof fn lemma_deliver_one(queues: Queues, report: Seq<Delivery>, text: Seq<char>, at: int)
    requires
        recipients(report).no_duplicates(),
        0 <= at < report.len(),
    ensures
        given(deliver(queues, report, text), report[at].handle) == if report[at].accepted {
            given(queues, report[at].handle).push(text)
        } else {
            given(queues, report[at].handle)
        },
    decreases report.len(),
{
    let front = report.drop_last();
    let handle = report[at].handle;
    assert(recipients(front) == recipients(report).drop_last());
    if at == report.len() - 1 {
        assert(!recipients(front).contains(handle)) by {
            if recipients(front).contains(handle) {
                let i = choose|i: int| 0 <= i < front.len() && recipients(front)[i] == handle;
                assert(recipients(report)[i] == recipients(report)[at]);
            }
        }
        lemma_deliver_untouched(queues, front, text, handle);
    } else {
        assert(front[at] == report[at]);
        lemma_deliver_one(queues, front, text, at);
        assert(recipients(report)[report.len() - 1] != recipients(report)[at]);
    }
}

/// A broadcast changes nothing in the queue of a peer that its report does
/// not name.
pub proof fn lemma_deliver_untouched(
    queues: Queues,
    report: Seq<Delivery>,
    text: Seq<char>,
    handle: u64,
)
    requires
        !recipients(report).contains(handle),
    ensures
        given(deliver(queues, report, text), handle) == given(queues, handle),
    decreases report.len(),
{
    if report.len() > 0 {
        let front = report.drop_last();
        assert(recipients(front) == recipients(report).drop_last());
        assert(!recipients(front).contains(handle)) by {
            if recipients(front).contains(handle) {
                let i = choose|i: int| 0 <= i < front.len() && recipients(front)[i] == handle;
                assert(recipients(report)[i] == handle);
            }
        }
        lemma_deliver_untouched(queues, front, text, handle);
        assert(recipients(report)[report.len() - 1] == report.last().handle);
    }
}

/// Fan-out reaches everyone. Where every registered peer is connected, so
/// that no queue refuses, one broadcast puts the text into the queue of
/// every registered peer, the sender's own among them, once and last.
pub proof fn lemma_broadcast_reaches_every_peer(
    queues: Queues,
    handles: Seq<u64>,
    report: Seq<Delivery>,
    text: Seq<char>,
    handle: u64,
)
    requires
        handles.no_duplicates(),
        recipients(report) == handles,
        forall|i: int| 0 <= i < report.len() ==> (#[trigger] report[i]).accepted,
        handles.contains(handle),
    ensures
        given(deliver(queues, report, text), handle) == given(queues, handle).push(text),
{
    let at = choose|i: int| 0 <= i < handles.len() && handles[i] == handle;
    assert(recipients(report)[at] == report[at].handle);
    assert(report[at].accepted);
    lemma_deliver_one(queues, report, text, at);
}

/// A refusal stays with the queue that refused. Whatever the other queues
/// do, a registered peer whose queue takes the text has it once and last
/// after the broadcast, and a peer whose queue refuses has its queue as it
/// was.
pub proof fn lemma_refusal_stays_local(
    queues: Queues,
    handles: Seq<u64>,
    report: Seq<Delivery>,
    text: Seq<char>,
    at: int,
)
    requires
        handles.no_duplicates(),
        recipients(report) == handles,
        0 <= at < report.len(),
    ensures
        report[at].accepted ==> given(deliver(queues, report, text), report[at].handle) == given(
            queues,
            report[at].handle,
        ).push(text),
        !report[at].accepted ==> given(deliver(queues, report, text), report[at].handle) == given(
            queues,
            report[at].handle,
        ),
{
    lemma_deliver_one(queues, report, text, at);
}

/// A frame that is no event asks for nothing: no record goes to the store,
/// no text to the peers and no file is written.
pub proof fn lemma_rejected_frame_asks_nothing(frame: FrameView)
    requires
        !(plan_of(frame) is Relay),
    ensures
        plan_of(frame).records() == Seq::<RecordView>::empty(),
        plan_of(frame).broadcasts() == Seq::<Seq<char>>::empty(),
        plan_of(frame).writes().len() == 0,
{
}

/// A text frame that fails to decode is such a frame, and the reason is
/// the decoder's.
pub proof fn lemma_undecodable_is_rejected(outcome: Result<EventView, WireError>)
    requires
        outcome is Err,
    ensures
        plan_for(outcome) == PlanView::Reject(outcome->Err_0),
        plan_for(outcome).records().len() == 0,
        plan_for(outcome).broadcasts().len() == 0,
        plan_for(outcome).writes().len() == 0,
{
}

/// What a run of frames asks to relay is what its parts ask, one after the
/// other.
pub proof fn lemma_relayed_concat(first: Seq<FrameView>, second: Seq<FrameView>)
    ensures
        relayed(first + second) == relayed(first) + relayed(second),
    decreases second.len(),
{
    if second.len() == 0 {
        assert(first + second == first);
        assert(relayed(first) + relayed(second) == relayed(first));
    } else {
        let joined = first + second;
        assert(joined.drop_last() == first + second.drop_last());
        assert(joined.last() == second.last());
        lemma_relayed_concat(first, second.drop_last());
        match plan_of(second.last()) {
            PlanView::Relay(dispatch) => {
                assert(relayed(joined) == (relayed(first) + relayed(second.drop_last())).push(
                    dispatch,
                ));
                assert(relayed(second) == relayed(second.drop_last()).push(dispatch));
                assert((relayed(first) + relayed(second.drop_last())).push(dispatch) == relayed(
                    first,
                ) + relayed(second));
            },
            _ => {},
        }
    }
}

/// A connection stays usable after a frame that is no event: the frames
/// before and after it ask for what they would ask without it.
pub proof fn lemma_connection_survives_bad_frame(
    before: Seq<FrameView>,
    bad: FrameView,
    after: Seq<FrameView>,
)
    requires
        !(plan_of(bad) is Relay),
    ensures
        relayed(before.push(bad) + after) == relayed(before + after),
{
    lemma_relayed_concat(before.push(bad), after);
    lemma_relayed_concat(before, after);
    assert(before.push(bad).drop_last() == before);
    assert(relayed(before.push(bad)) == relayed(before));
}

/// An attachment that does not decode costs the event nothing else. For an
/// event of the attachment kind with payload and reference, whose payload
/// carries no bytes: no file is to be written, the record is that of the
/// event, and the text still goes out.
pub proof fn lemma_bad_payload_still_relayed(event: EventView)
    requires
        event.attachment() matches Some(parts) && carried_bytes(encode_utf8(parts.0)) is None,
    ensures
        dispatch_of(event).attachment == Some(
            Err::<crate::attachment::StoreRequestView, AttachmentError>(
                AttachmentError::InvalidEncoding,
            ),
        ),
        plan_for(Ok(event)).writes().len() == 0,
        plan_for(Ok(event)).records() == seq![event.record()],
        plan_for(Ok(event)).broadcasts() == seq![json_text(members_for(event))],
        event.record().chat_id == event.chat_id,
        event.record().user_id == event.user_id,
        event.record().content == event.content,
        event.record().kind == event.kind,
{
}

/// Every accepted event asks for one record and one broadcast, whatever
/// its attachment comes to.
pub proof fn lemma_event_asks_once(event: EventView)
    ensures
        plan_for(Ok(event)).records() == seq![event.record()],
        plan_for(Ok(event)).broadcasts() == seq![json_text(members_for(event))],
        plan_for(Ok(event)).writes().len() <= 1,
{
}

/// Two events from two connections. The registry is used by one session at
/// a time, so the two are relayed one after the other, in one order or the
/// other. Either way the store is handed each record once, and every
/// registered peer that is connected has each text once at the end of its
/// queue; only the order of the two may differ.
pub proof fn lemma_two_events_each_once(
    state: RelayState,
    handles: Seq<u64>,
    first: DispatchView,
    first_report: Seq<Delivery>,
    second: DispatchView,
    second_report: Seq<Delivery>,
    handle: u64,
)
    requires
        handles.no_duplicates(),
        recipients(first_report) == handles,
        recipients(second_report) == handles,
        forall|i: int| 0 <= i < first_report.len() ==> (#[trigger] first_report[i]).accepted,
        forall|i: int| 0 <= i < second_report.len() ==> (#[trigger] second_report[i]).accepted,
        handles.contains(handle),
    ensures
        relay(relay(state, first, first_report), second, second_report).records
            == state.records.push(first.record).push(second.record),
        relay(relay(state, second, second_report), first, first_report).records
            == state.records.push(second.record).push(first.record),
        given(relay(relay(state, first, first_report), second, second_report).queues, handle)
            == given(state.queues, handle).push(first.outbound).push(second.outbound),
        given(relay(relay(state, second, second_report), first, first_report).queues, handle)
            == given(state.queues, handle).push(second.outbound).push(first.outbound),
{
    let after_first = deliver(state.queues, first_report, first.outbound);
    lemma_broadcast_reaches_every_peer(state.queues, handles, first_report, first.outbound, handle);
    lemma_broadcast_reaches_every_peer(after_first, handles, second_report, second.outbound, handle);
    let after_second = deliver(state.queues, second_report, second.outbound);
    lemma_broadcast_reaches_every_peer(
        state.queues,
        handles,
        second_report,
        second.outbound,
        handle,
    );
    lemma_broadcast_reaches_every_peer(after_second, handles, first_report, first.outbound, handle);
}

} // verus!
