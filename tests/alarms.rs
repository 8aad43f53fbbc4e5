use embassy_gd32_core::alarm::{AlarmTable, Callback, INACTIVE};
use embassy_gd32_core::systick::{reload_value, SystickDriver, SYSTICK_ALARM_COUNT};

#[test]
fn allocation_gives_distinct_handles_then_capacity_error() {
    let mut t = AlarmTable::new(3);
    let a = t.allocate_alarm().unwrap();
    let b = t.allocate_alarm().unwrap();
    let c = t.allocate_alarm().unwrap();
    assert_eq!((a.id(), b.id(), c.id()), (0, 1, 2));
    assert!(a != b && b != c && a != c);
    assert!(t.allocate_alarm().is_err());
    assert!(t.allocate_alarm().is_err());
    assert_eq!(t.allocated(), 3);
    assert!(t.handle(2).is_some());
    assert!(t.handle(3).is_none());
}

#[test]
fn systick_capacity_is_four() {
    let mut d = SystickDriver::new();
    for i in 0..SYSTICK_ALARM_COUNT {
        assert_eq!(d.allocate_alarm().unwrap().id(), i);
    }
    assert!(d.allocate_alarm().is_err());
}

#[test]
fn alarm_in_the_past_is_refused() {
    let mut d = SystickDriver::new();
    let h = d.allocate_alarm().unwrap();
    for _ in 0..10 {
        assert!(d.on_tick().is_empty());
    }
    assert!(!d.set_alarm(h, 10));
    assert!(!d.set_alarm(h, 3));
    assert_eq!(d.alarms().slot(h).deadline, INACTIVE);
    assert!(d.set_alarm(h, 11));
    assert_eq!(d.alarms().slot(h).deadline, 11);
}

#[test]
fn alarm_fires_once_and_is_inactive_again() {
    let mut t = AlarmTable::new(2);
    let h = t.allocate_alarm().unwrap();
    let cb = Callback { func: 1, ctx: 2 };
    t.set_callback(h, cb);
    assert!(t.set_alarm(h, 5, 0));
    assert_eq!(t.next_deadline(), 5);
    assert!(t.fire_due(4).is_empty());
    assert_eq!(t.fire_due(5), vec![cb]);
    assert_eq!(t.slot(h).deadline, INACTIVE);
    assert!(t.fire_due(6).is_empty());
    assert_eq!(t.next_deadline(), INACTIVE);
    // Re-armed from within its own callback: a new, separate firing.
    assert!(t.set_alarm(h, 9, 5));
    assert_eq!(t.fire_due(20), vec![cb]);
}

#[test]
fn simultaneous_alarms_each_fire_once() {
    let mut t = AlarmTable::new(3);
    let a = t.allocate_alarm().unwrap();
    let b = t.allocate_alarm().unwrap();
    let c = t.allocate_alarm().unwrap();
    t.set_callback(a, Callback { func: 10, ctx: 0 });
    t.set_callback(b, Callback { func: 11, ctx: 1 });
    t.set_callback(c, Callback { func: 12, ctx: 2 });
    assert!(t.set_alarm(a, 7, 0));
    assert!(t.set_alarm(b, 3, 0));
    assert!(t.set_alarm(c, 100, 0));
    assert_eq!(t.next_deadline(), 3);
    let fired = t.fire_due(7);
    assert_eq!(fired, vec![Callback { func: 10, ctx: 0 }, Callback { func: 11, ctx: 1 }]);
    assert_eq!(t.next_deadline(), 100);
    assert!(t.fire_due(7).is_empty());
}

#[test]
fn end_to_end_alarm_after_hundred_ticks() {
    let mut d = SystickDriver::new();
    let h = d.allocate_alarm().unwrap();
    let ctx = 0xC0FF_EE00usize;
    d.set_alarm_callback(h, Callback { func: 42, ctx });
    let start = d.now();
    assert!(d.set_alarm(h, start + 100));
    for _ in 0..50 {
        assert!(d.on_tick().is_empty());
    }
    assert_eq!(d.now(), start + 50);
    let mut fired = Vec::new();
    for _ in 0..50 {
        fired.extend(d.on_tick());
    }
    assert_eq!(d.now(), start + 100);
    assert_eq!(fired, vec![Callback { func: 42, ctx }]);
    assert_eq!(d.alarms().slot(h).deadline, INACTIVE);
    for _ in 0..20 {
        assert!(d.on_tick().is_empty());
    }
}

#[test]
fn systick_reload_value() {
    assert_eq!(reload_value(8_000_000, 1_000), 7_999);
    assert_eq!(reload_value(1_000_000, 1_000_000), 0);
}
