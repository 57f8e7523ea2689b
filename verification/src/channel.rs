//! The boundary to the channel and WebSocket libraries: a peer's outbound
//! queue is reached through its sending half, which takes whole messages.
//! Nothing in this file is proved.

use vstd::prelude::*;

verus! {

#[verifier::external_type_specification]
#[verifier::external_body]
pub struct ExMessage(tokio_tungstenite::tungstenite::protocol::Message);

#[verifier::external_type_specification]
#[verifier::external_body]
#[verifier::reject_recursive_types(T)]
pub struct ExUnboundedSender<T>(tokio::sync::mpsc::UnboundedSender<T>);

#[verifier::external_type_specification]
#[verifier::external_body]
#[verifier::reject_recursive_types(T)]
pub struct ExSendError<T>(tokio::sync::mpsc::error::SendError<T>);

/// The sending half of a peer's outbound queue.
pub type Outbound = tokio::sync::mpsc::UnboundedSender<
    tokio_tungstenite::tungstenite::protocol::Message,
>;

/// `tungstenite::Message::text`: the text message that holds the given
/// text. A message is opaque here, so nothing is stated of it.
#[verifier::external_body]
pub(crate) fn text_message(text: &str) -> tokio_tungstenite::tungstenite::protocol::Message {
    tokio_tungstenite::tungstenite::protocol::Message::text(text)
}

/// `tokio::sync::mpsc::UnboundedSender::send` never waits. Whether the
/// message is taken depends on the receiving half being there, so nothing is
/// stated of the result.
pub assume_specification<T>[ tokio::sync::mpsc::UnboundedSender::<T>::send ](
    sender: &tokio::sync::mpsc::UnboundedSender<T>,
    message: T,
) -> (r: Result<(), tokio::sync::mpsc::error::SendError<T>>)
;

} // verus!
