use heap_alloc::rtc::{
    bcd_hour_to_binary, bcd_to_binary, decode_time, get_day_of_week, get_month,
    is_update_ended, ClockTime, PortOp, Rtc,
};

#[test]
fn rtc_uses_cmos_ports() {
    let r = Rtc::new();
    assert_eq!(r.command, 0x70);
    assert_eq!(r.data, 0x71);
}

#[test]
fn register_access_selects_then_transfers() {
    let r = Rtc::new();
    assert_eq!(
        r.read_reg(4),
        vec![PortOp::Write { port: 0x70, value: 4 }, PortOp::Read { port: 0x71 }]
    );
    assert_eq!(
        r.write_reg(0xA, 0x26),
        vec![PortOp::Write { port: 0x70, value: 0xA }, PortOp::Write { port: 0x71, value: 0x26 }]
    );
    assert_eq!(
        r.read_interrupt_kind(),
        vec![PortOp::Write { port: 0x70, value: 0xC }, PortOp::Read { port: 0x71 }]
    );
}

#[test]
fn update_ended_interrupt_keeps_other_bits() {
    let r = Rtc::new();
    assert_eq!(
        r.enable_update_ended_int(0x02),
        vec![PortOp::Write { port: 0x70, value: 0xB }, PortOp::Write { port: 0x71, value: 0x12 }]
    );
    assert_eq!(r.enable_update_ended_int(0x12)[1], PortOp::Write { port: 0x71, value: 0x12 });
    assert!(is_update_ended(0x90));
    assert!(!is_update_ended(0x80));
}

#[test]
fn format_bit() {
    let r = Rtc::new();
    assert!(r.is_12hr_clock(0x06));
    assert!(!r.is_12hr_clock(0x02));
}

#[test]
fn packed_decimal_decoding() {
    assert_eq!(bcd_to_binary(0x59), 59);
    assert_eq!(bcd_to_binary(0x00), 0);
    assert_eq!(bcd_to_binary(0x99), 99);
    assert_eq!(bcd_hour_to_binary(0x23), 23);
    assert_eq!(bcd_hour_to_binary(0x92), 0x80 | 12);
    let raw = ClockTime {
        seconds: 0x45,
        minutes: 0x30,
        hours: 0x17,
        day_of_week: 0x04,
        day: 0x21,
        month: 0x10,
        year: 0x26,
    };
    let t = decode_time(raw, false);
    assert_eq!(
        t,
        ClockTime { seconds: 45, minutes: 30, hours: 17, day_of_week: 4, day: 21, month: 10, year: 26 }
    );
    assert_eq!(decode_time(raw, true), raw);
}

#[test]
fn day_and_month_names() {
    assert_eq!(get_day_of_week(1), "Sunday");
    assert_eq!(get_day_of_week(2), "Monday");
    assert_eq!(get_day_of_week(7), "Saturday");
    assert_eq!(get_month(1), "January");
    assert_eq!(get_month(9), "September");
    assert_eq!(get_month(12), "December");
}
