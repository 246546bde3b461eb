use rovlink::toast::{
    toast, toast_error, toast_info, toast_loading, toast_message, toast_success, toast_warn,
    ToastCancel, ToastType,
};

#[test]
fn plain_toast_has_no_severity() {
    let t = toast(None, String::from("hello"), None, None);
    assert!(t.toast_type.is_none());
    assert_eq!(t.message, "hello");
    assert!(t.id.is_none() && t.description.is_none() && t.cancel.is_none());
}

#[test]
fn each_builder_sets_its_severity() {
    let s = toast_success(None, String::from("saved"), None, None);
    assert!(matches!(s.toast_type, Some(ToastType::Success)));
    let i = toast_info(None, String::from("fyi"), None, None);
    assert!(matches!(i.toast_type, Some(ToastType::Info)));
    let w = toast_warn(None, String::from("careful"), None, None);
    assert!(matches!(w.toast_type, Some(ToastType::Warn)));
    let e = toast_error(None, String::from("failed"), None, None);
    assert!(matches!(e.toast_type, Some(ToastType::Error)));
    let l = toast_loading(Some(String::from("update-progress")), String::from("40%"), None, None);
    assert!(matches!(l.toast_type, Some(ToastType::Loading)));
    assert_eq!(l.id.as_deref(), Some("update-progress"));
}

#[test]
fn toast_message_carries_every_part() {
    let t = toast_message(
        Some(String::from("thruster-3")),
        Some(ToastType::Loading),
        String::from("testing thruster"),
        Some(String::from("running")),
        Some(ToastCancel::CancelThrusterTest(3)),
    );
    assert_eq!(t.id.as_deref(), Some("thruster-3"));
    assert_eq!(t.message, "testing thruster");
    assert_eq!(t.description.as_deref(), Some("running"));
    assert!(matches!(t.cancel, Some(ToastCancel::CancelThrusterTest(3))));
}
