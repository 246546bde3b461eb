//! Dispatch of inbound messages to the UI layer.
//!
//! Each deliverable message kind goes to exactly one event channel; message
//! kinds the station does not consume are reported as unroutable, and the
//! caller logs and drops them — never a fault.

use vstd::prelude::*;
use crate::messages::{MessageView, TypedMessage};

verus! {

/// The event channels the operator UI listens on.
#[derive(Clone, Copy, PartialEq, Eq, Structural, Debug)]
pub enum UiChannel {
    /// Vehicle status broadcasts.
    VehicleStatus,
    /// Answers to configuration requests.
    VehicleConfig,
    /// User-facing notifications.
    OperatorToast,
    /// Forwarded log lines.
    LogConsole,
}

/// The channel a message kind is routed to, if the station consumes it.
pub open spec fn channel_of(m: MessageView) -> Option<UiChannel> {
    match m {
        MessageView::StatusUpdate(_) => Option::Some(UiChannel::VehicleStatus),
        MessageView::ConfigResponse(_) => Option::Some(UiChannel::VehicleConfig),
        MessageView::Notification(_) => Option::Some(UiChannel::OperatorToast),
        MessageView::LogMessage(_) => Option::Some(UiChannel::LogConsole),
        _ => Option::None,
    }
}

/// Route one delivered message: each consumed kind to its one channel,
/// anything else to none.
pub fn dispatch(m: &TypedMessage) -> (r: Option<UiChannel>)
    ensures
        r == channel_of(m@),
{
    match m {
        TypedMessage::StatusUpdate(_) => Some(UiChannel::VehicleStatus),
        TypedMessage::ConfigResponse(_) => Some(UiChannel::VehicleConfig),
        TypedMessage::Notification(_) => Some(UiChannel::OperatorToast),
        TypedMessage::LogMessage(_) => Some(UiChannel::LogConsole),
        _ => None,
    }
}

} // verus!
