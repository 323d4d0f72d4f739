use systembus_notifier::dispatch::handle_signal;
use systembus_notifier::notify::build_notification;
use systembus_notifier::translate::{translate, NotificationPayload, SignalArg};

#[test]
fn translates_two_text_arguments_verbatim() {
    let args = vec![
        SignalArg::Text(String::from("Battery Low")),
        SignalArg::Text(String::from("10% remaining")),
    ];
    let payload = translate(&args).expect("a payload");
    assert_eq!(payload.summary, "Battery Low");
    assert_eq!(payload.body, "10% remaining");
}

#[test]
fn drops_signal_without_arguments() {
    let args: Vec<SignalArg> = Vec::new();
    assert!(translate(&args).is_none());
}

#[test]
fn drops_signal_with_non_text_summary() {
    let args = vec![SignalArg::Other, SignalArg::Text(String::from("body"))];
    assert!(translate(&args).is_none());
}

#[test]
fn defaults_body_when_second_argument_missing() {
    let args = vec![SignalArg::Text(String::from("Disk Full"))];
    let payload = translate(&args).expect("a payload");
    assert_eq!(payload.summary, "Disk Full");
    assert_eq!(payload.body, "");
}

#[test]
fn defaults_body_when_second_argument_not_text() {
    let args = vec![SignalArg::Text(String::from("Disk Full")), SignalArg::Other];
    let payload = translate(&args).expect("a payload");
    assert_eq!(payload.summary, "Disk Full");
    assert_eq!(payload.body, "");
}

#[test]
fn keeps_arguments_past_the_second_irrelevant() {
    let args = vec![
        SignalArg::Text(String::from("a")),
        SignalArg::Text(String::from("b")),
        SignalArg::Other,
        SignalArg::Text(String::from("c")),
    ];
    let payload = translate(&args).expect("a payload");
    assert_eq!(payload.summary, "a");
    assert_eq!(payload.body, "b");
}

#[test]
fn built_call_has_fixed_shape() {
    let payload = NotificationPayload {
        summary: String::from(""),
        body: String::from(""),
    };
    let call = build_notification(&payload);
    assert_eq!(call.app_name, "system");
    assert_eq!(call.replaces_id, 0);
    assert_eq!(call.icon, "utilities-system-monitor");
    assert_eq!(call.summary, "");
    assert_eq!(call.body, "");
    assert!(call.actions.is_empty());
    assert_eq!(call.expire_timeout, -1);
}

#[test]
fn scenario_battery_low() {
    let args = vec![
        SignalArg::Text(String::from("Battery Low")),
        SignalArg::Text(String::from("10% remaining")),
    ];
    let call = handle_signal(&args).expect("an outbound call");
    assert_eq!(call.app_name, "system");
    assert_eq!(call.replaces_id, 0);
    assert_eq!(call.icon, "utilities-system-monitor");
    assert_eq!(call.summary, "Battery Low");
    assert_eq!(call.body, "10% remaining");
    assert!(call.actions.is_empty());
    assert_eq!(call.expire_timeout, -1);
}

#[test]
fn scenario_disk_full_without_body() {
    let args = vec![SignalArg::Text(String::from("Disk Full"))];
    let call = handle_signal(&args).expect("an outbound call");
    assert_eq!(call.summary, "Disk Full");
    assert_eq!(call.body, "");
    assert_eq!(call.replaces_id, 0);
    assert_eq!(call.expire_timeout, -1);
}

#[test]
fn scenario_single_non_text_argument() {
    let args = vec![SignalArg::Other];
    assert!(handle_signal(&args).is_none());
}
