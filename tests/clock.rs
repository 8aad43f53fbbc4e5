use embassy_gd32_core::alarm::{Callback, INACTIVE};
use embassy_gd32_core::timedriver_rtc::{alarm_register, read_counter, AlarmRegister, RtcDriver, RtcState};

#[test]
fn rtc_time_never_decreases_across_overflow() {
    let mut s = RtcState::new();
    let t1 = s.read_time(false, 0xFFFF_FFF0);
    let t2 = s.read_time(false, 0xFFFF_FFFF);
    let t3 = s.read_time(true, 3);
    let t4 = s.read_time(false, 3);
    let t5 = s.read_time(false, 9);
    assert_eq!(t1, 0xFFFF_FFF0);
    assert_eq!(t3, 0x1_0000_0003);
    assert!(t1 <= t2 && t2 <= t3 && t3 <= t4 && t4 <= t5);
    assert_eq!(t5, 0x1_0000_0009);
}

#[test]
fn counter_halves_combine() {
    assert_eq!(read_counter(0x1234, 0xABCD), 0x1234_ABCD);
    assert_eq!(read_counter(0, 7), 7);
}

#[test]
fn alarm_register_takes_low_32_bits() {
    assert_eq!(alarm_register(0x5_1234_5678), AlarmRegister { high: 0x1234, low: 0x5678 });
    assert_eq!(alarm_register(INACTIVE), AlarmRegister { high: 0xFFFF, low: 0xFFFF });
}

#[test]
fn rtc_driver_arms_and_fires() {
    let mut d = RtcDriver::new();
    let h = d.allocate_alarm().unwrap();
    d.set_alarm_callback(h, Callback { func: 3, ctx: 4 });
    assert!(!d.set_alarm(h, 100, false, 100));
    assert!(d.set_alarm(h, 150, false, 120));
    assert_eq!(d.next_alarm(), AlarmRegister { high: 0, low: 150 });
    assert!(d.on_interrupt(false, 149).is_empty());
    assert_eq!(d.on_interrupt(false, 150), vec![Callback { func: 3, ctx: 4 }]);
    assert_eq!(d.alarms().slot(h).deadline, INACTIVE);
    assert!(d.on_interrupt(false, 400).is_empty());
    assert_eq!(d.now(true, 1), 0x1_0000_0001);
    assert!(d.allocate_alarm().is_ok());
    assert!(d.allocate_alarm().is_ok());
    assert!(d.allocate_alarm().is_err());
}
