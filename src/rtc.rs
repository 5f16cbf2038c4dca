//! CMOS real-time-clock driver: which port operations read and program the
//! clock's registers, and how the values read are decoded.
//!
//! The port operations themselves are performed by the caller.
use vstd::prelude::*;

verus! {

/// Port that selects a CMOS register.
pub const RTC_COMMAND_PORT: u16 = 0x70;
/// Port through which the selected register is read or written.
pub const RTC_DATA_PORT: u16 = 0x71;
/// Status register B: interrupt enables and data format.
pub const REG_STATUS_B: u8 = 0xB;
/// Status register C: which interrupt fired.
pub const REG_STATUS_C: u8 = 0xC;
/// Bit of register B that enables, and of register C that reports, the
/// update-ended interrupt.
pub const UPDATE_ENDED_BIT: u8 = 0x10;
/// Bit of register B tested by `is_12hr_clock`.
pub const FORMAT_BIT: u8 = 0x4;

/// One access to an I/O port.
#[derive(Clone, Copy, Debug, PartialEq, Eq, Structural)]
pub enum PortOp {
    Write { port: u16, value: u8 },
    Read { port: u16 },
}

/// The clock, by the two ports it is reached through.
#[derive(Clone, Copy, Debug, PartialEq, Eq, Structural)]
pub struct Rtc {
    pub command: u16,
    pub data: u16,
}

/// The time as the clock's registers hold it.
#[derive(Clone, Copy, Debug, PartialEq, Eq, Structural)]
pub struct ClockTime {
    pub seconds: u8,
    pub minutes: u8,
    pub hours: u8,
    pub day_of_week: u8,
    pub day: u8,
    pub month: u8,
    pub year: u8,
}

/// The binary value of a two-digit packed decimal byte.
pub open spec fn bcd_value(v: u8) -> int {
    (v % 16) as int + (v / 16) as int * 10
}

/// The binary value of a packed decimal hour, keeping its top (PM) bit.
pub open spec fn bcd_hour_value(v: u8) -> int {
    ((v % 16) as int + ((v % 128) / 16) as int * 10) + (if v >= 128 { 128int } else { 0int })
}

impl Rtc {
    pub open spec fn read_ops(self, reg: u8) -> Seq<PortOp> {
        seq![PortOp::Write { port: self.command, value: reg }, PortOp::Read { port: self.data }]
    }

    pub open spec fn write_ops(self, reg: u8, val: u8) -> Seq<PortOp> {
        seq![
            PortOp::Write { port: self.command, value: reg },
            PortOp::Write { port: self.data, value: val },
        ]
    }

    /// The clock on its standard ports.
    pub fn new() -> (r: Rtc)
        ensures
            r.command == RTC_COMMAND_PORT,
            r.data == RTC_DATA_PORT,
    {
        Rtc { command: RTC_COMMAND_PORT, data: RTC_DATA_PORT }
    }

    /// Reading register `reg`: select it, then read the data port.
    pub fn read_reg(&self, reg: u8) -> (r: Vec<PortOp>)
        ensures
            r@ == self.read_ops(reg),
    {
        let mut ops: Vec<PortOp> = Vec::new();
        ops.push(PortOp::Write { port: self.command, value: reg });
        ops.push(PortOp::Read { port: self.data });
        assert(ops@ =~= self.read_ops(reg));
        ops
    }

    /// Writing `val` to register `reg`: select it, then write the data port.
    pub fn write_reg(&self, reg: u8, val: u8) -> (r: Vec<PortOp>)
        ensures
            r@ == self.write_ops(reg, val),
    {
        let mut ops: Vec<PortOp> = Vec::new();
        ops.push(PortOp::Write { port: self.command, value: reg });
        ops.push(PortOp::Write { port: self.data, value: val });
        assert(ops@ =~= self.write_ops(reg, val));
        ops
    }

    /// Given register B as read (`status_b`), the writes that set its
    /// update-ended interrupt enable and keep its other bits.
    pub fn enable_update_ended_int(&self, status_b: u8) -> (r: Vec<PortOp>)
        ensures
            r@ == self.write_ops(REG_STATUS_B, status_b | UPDATE_ENDED_BIT),
    {
        self.write_reg(REG_STATUS_B, status_b | UPDATE_ENDED_BIT)
    }

    /// Reading which interrupt fired: register C.
    pub fn read_interrupt_kind(&self) -> (r: Vec<PortOp>)
        ensures
            r@ == self.read_ops(REG_STATUS_C),
    {
        self.read_reg(REG_STATUS_C)
    }

    /// Whether register B, as read, has its format bit set; where it is clear
    /// the time registers hold packed decimal.
    pub fn is_12hr_clock(&self, status_b: u8) -> (r: bool)
        ensures
            r == (status_b & FORMAT_BIT != 0),
    {
        status_b & FORMAT_BIT != 0
    }
}

/// Whether register C, as read, reports an update-ended interrupt.
pub fn is_update_ended(kind: u8) -> (r: bool)
    ensures
        r == (kind & UPDATE_ENDED_BIT != 0),
{
    kind & UPDATE_ENDED_BIT != 0
}

/// The binary value of a packed decimal byte.
pub fn bcd_to_binary(v: u8) -> (r: u8)
    ensures
        r == bcd_value(v),
{
    let lo: u8 = v & 0x0F;
    assert(lo == v % 16) by (bit_vector)
        requires
            lo == v & 0x0F,
    ;
    lo + (v / 16) * 10
}

/// The binary value of a packed decimal hour, keeping its top (PM) bit.
pub fn bcd_hour_to_binary(v: u8) -> (r: u8)
    ensures
        r == bcd_hour_value(v),
{
    let lo: u8 = v & 0x0F;
    let mid: u8 = v & 0x70;
    let pm: u8 = v & 0x80;
    assert(lo == v % 16 && mid == (v % 128) / 16 * 16 && pm == (if v >= 128 { 128u8 } else { 0u8 }))
        by (bit_vector)
        requires
            lo == v & 0x0F,
            mid == v & 0x70,
            pm == v & 0x80,
    ;
    let t: u8 = lo + (mid / 16) * 10;
    assert(t < 128);
    assert(t | pm == t + pm) by (bit_vector)
        requires
            t < 128,
            pm == 0 || pm == 128,
    ;
    t | pm
}

/// The time in binary: registers in packed decimal are converted, registers
/// already in binary (`binary` set) are kept.
pub fn decode_time(raw: ClockTime, binary: bool) -> (r: ClockTime)
    ensures
        binary ==> r == raw,
        !binary ==> r == (ClockTime {
            seconds: bcd_value(raw.seconds) as u8,
            minutes: bcd_value(raw.minutes) as u8,
            hours: bcd_hour_value(raw.hours) as u8,
            day_of_week: bcd_value(raw.day_of_week) as u8,
            day: bcd_value(raw.day) as u8,
            month: bcd_value(raw.month) as u8,
            year: bcd_value(raw.year) as u8,
        }),
{
    if binary {
        return raw;
    }
    ClockTime {
        seconds: bcd_to_binary(raw.seconds),
        minutes: bcd_to_binary(raw.minutes),
        hours: bcd_hour_to_binary(raw.hours),
        day_of_week: bcd_to_binary(raw.day_of_week),
        day: bcd_to_binary(raw.day),
        month: bcd_to_binary(raw.month),
        year: bcd_to_binary(raw.year),
    }
}

pub open spec fn day_name(dow: u8) -> Seq<char> {
    if dow == 1 {
        "Sunday"@
    } else if dow == 2 {
        "Monday"@
    } else if dow == 3 {
        "Tuesday"@
    } else if dow == 4 {
        "Wednesday"@
    } else if dow == 5 {
        "Thursday"@
    } else if dow == 6 {
        "Friday"@
    } else {
        "Saturday"@
    }
}

pub open spec fn month_name(month: u8) -> Seq<char> {
    if month == 1 {
        "January"@
    } else if month == 2 {
        "February"@
    } else if month == 3 {
        "March"@
    } else if month == 4 {
        "April"@
    } else if month == 5 {
        "May"@
    } else if month == 6 {
        "June"@
    } else if month == 7 {
        "July"@
    } else if month == 8 {
        "August"@
    } else if month == 9 {
        "September"@
    } else if month == 10 {
        "October"@
    } else if month == 11 {
        "November"@
    } else {
        "December"@
    }
}

/// The name of a day of the week, numbered from Sunday as 1.
pub fn get_day_of_week(dow: u8) -> (r: &'static str)
    requires
        1 <= dow <= 7,
    ensures
        r@ == day_name(dow),
{
    match dow {
        2 => "Monday",
        3 => "Tuesday",
        4 => "Wednesday",
        5 => "Thursday",
        6 => "Friday",
        7 => "Saturday",
        _ => "Sunday",
    }
}

/// The name of a month, numbered from January as 1.
pub fn get_month(month: u8) -> (r: &'static str)
    requires
        1 <= month <= 12,
    ensures
        r@ == month_name(month),
{
    match month {
        1 => "January",
        2 => "February",
        3 => "March",
        4 => "April",
        5 => "May",
        6 => "June",
        7 => "July",
        8 => "August",
        9 => "September",
        10 => "October",
        11 => "November",
        _ => "December",
    }
}

} // verus!
