use systembus_notifier::address::{default_address, u32_to_decimal};
use systembus_notifier::notify::notification_target;
use systembus_notifier::rule::{monitor_rule, watched_signal};

#[test]
fn writes_small_numbers_in_decimal() {
    assert_eq!(u32_to_decimal(0), "0");
    assert_eq!(u32_to_decimal(7), "7");
    assert_eq!(u32_to_decimal(10), "10");
    assert_eq!(u32_to_decimal(1000), "1000");
}

#[test]
fn writes_the_largest_uid_in_decimal() {
    assert_eq!(u32_to_decimal(u32::MAX), "4294967295");
}

#[test]
fn derives_the_default_session_address() {
    assert_eq!(default_address(1000), "unix:path=/run/user/1000/bus");
    assert_eq!(default_address(0), "unix:path=/run/user/0/bus");
}

#[test]
fn installs_the_fixed_monitor_rule() {
    assert_eq!(
        monitor_rule(),
        "type='signal',interface='net.nuetzlich.SystemNotifications',member='Notify'"
    );
    let signal = watched_signal();
    assert_eq!(signal.interface, "net.nuetzlich.SystemNotifications");
    assert_eq!(signal.member, "Notify");
}

#[test]
fn targets_the_notification_service() {
    let target = notification_target();
    assert_eq!(target.destination, "org.freedesktop.Notifications");
    assert_eq!(target.path, "/org/freedesktop/Notifications");
    assert_eq!(target.interface, "org.freedesktop.Notifications");
    assert_eq!(target.member, "Notify");
}
