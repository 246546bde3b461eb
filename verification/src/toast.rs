//! User-facing notifications.
//!
//! A toast is the one kind of peer- or station-originated event that is shown
//! directly to the operator. Building the value is pure; handing it to the UI
//! layer is not this crate's concern.

use vstd::prelude::*;

verus! {

/// Severity of a toast shown to the operator.
#[derive(Clone, Copy, PartialEq, Eq, Structural, Debug)]
pub enum ToastType {
    Success,
    Info,
    Warn,
    Error,
    Loading,
}

/// A cancel action a toast can offer: aborting a running thruster test
/// (identified by its thruster number) or a regulator auto-tuning run.
#[derive(Clone, Copy, PartialEq, Eq, Structural, Debug)]
pub enum ToastCancel {
    CancelThrusterTest(u8),
    CancelRegulatorAutoTuning,
}

/// A user-facing notification with optional identity, severity, detail text
/// and cancelable action.
#[derive(Clone, Debug)]
pub struct Toast {
    pub id: Option<String>,
    pub toast_type: Option<ToastType>,
    pub message: String,
    pub description: Option<String>,
    pub cancel: Option<ToastCancel>,
}

/// The mathematical value of a toast: its text fields as character sequences.
pub struct ToastView {
    pub id: Option<Seq<char>>,
    pub toast_type: Option<ToastType>,
    pub message: Seq<char>,
    pub description: Option<Seq<char>>,
    pub cancel: Option<ToastCancel>,
}

impl View for Toast {
    type V = ToastView;

    open spec fn view(&self) -> ToastView {
        ToastView {
            id: match self.id {
                Option::Some(s) => Option::Some(s@),
                Option::None => Option::None,
            },
            toast_type: self.toast_type,
            message: self.message@,
            description: match self.description {
                Option::Some(s) => Option::Some(s@),
                Option::None => Option::None,
            },
            cancel: self.cancel,
        }
    }
}

/// Build a toast with no severity attached.
pub fn toast(
    id: Option<String>,
    message: String,
    description: Option<String>,
    cancel: Option<ToastCancel>,
) -> (r: Toast)
    ensures
        r@ == (Toast { id, toast_type: Option::None, message, description, cancel })@,
{
    toast_message(id, None, message, description, cancel)
}

/// Build a success toast.
pub fn toast_success(
    id: Option<String>,
    message: String,
    description: Option<String>,
    cancel: Option<ToastCancel>,
) -> (r: Toast)
    ensures
        r@ == (Toast { id, toast_type: Option::Some(ToastType::Success), message, description, cancel })@,
{
    toast_message(id, Some(ToastType::Success), message, description, cancel)
}

/// Build an informational toast.
pub fn toast_info(
    id: Option<String>,
    message: String,
    description: Option<String>,
    cancel: Option<ToastCancel>,
) -> (r: Toast)
    ensures
        r@ == (Toast { id, toast_type: Option::Some(ToastType::Info), message, description, cancel })@,
{
    toast_message(id, Some(ToastType::Info), message, description, cancel)
}

/// Build a warning toast.
pub fn toast_warn(
    id: Option<String>,
    message: String,
    description: Option<String>,
    cancel: Option<ToastCancel>,
) -> (r: Toast)
    ensures
        r@ == (Toast { id, toast_type: Option::Some(ToastType::Warn), message, description, cancel })@,
{
    toast_message(id, Some(ToastType::Warn), message, description, cancel)
}

/// Build an error toast.
pub fn toast_error(
    id: Option<String>,
    message: String,
    description: Option<String>,
    cancel: Option<ToastCancel>,
) -> (r: Toast)
    ensures
        r@ == (Toast { id, toast_type: Option::Some(ToastType::Error), message, description, cancel })@,
{
    toast_message(id, Some(ToastType::Error), message, description, cancel)
}

/// Build a loading-progress toast.
pub fn toast_loading(
    id: Option<String>,
    message: String,
    description: Option<String>,
    cancel: Option<ToastCancel>,
) -> (r: Toast)
    ensures
        r@ == (Toast { id, toast_type: Option::Some(ToastType::Loading), message, description, cancel })@,
{
    toast_message(id, Some(ToastType::Loading), message, description, cancel)
}

/// Build a toast from all of its parts.
pub fn toast_message(
    id: Option<String>,
    toast_type: Option<ToastType>,
    message: String,
    description: Option<String>,
    cancel: Option<ToastCancel>,
) -> (r: Toast)
    ensures
        r@ == (Toast { id, toast_type, message, description, cancel })@,
{
    Toast { id, toast_type, message, description, cancel }
}

} // verus!
