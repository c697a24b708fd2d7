//! The record of what the charger last reported, and how a reply of the
//! serial bridge becomes that record.
use vstd::prelude::*;

use crate::json::{member_str, EntryView, JsonObject, json_object_members};
use crate::pid::{parse_pid, pid_name};
use crate::text::{all_digits, decimal_in_range, decimal_value, digits_value, is_digit, lemma_digits_value_nonneg, parse_isize, parse_u16, parse_u8, parse_usize, str_eq};

verus! {

/// What the charger reported, field by field; zero, `false` or empty where
/// nothing was reported.
#[allow(non_snake_case)]
pub struct CacheData {
    /// Whether the last reading reached the device.
    pub online: bool,
    /// Product name of the device.
    pub pid: String,
    /// voltage current
    /// Units: mV
    pub voltageCurrent: isize,
    /// Load Current
    /// Units: mA
    pub loadCurrent: isize,
    /// Main or channel 1 battery current
    /// Units: mA
    pub current: isize,
    /// Panel voltage
    /// Units: mV
    pub panelVoltage: isize,
    /// Panel Power
    /// Units: W
    pub pannelPower: isize,
    /// Load output state (ON/OFF)
    pub load: bool,
    /// Battery temperature
    /// Units: C
    pub temp: isize,
    /// Instantaneous power
    /// Units: W
    pub power: isize,
    /// Consumed Amp Hours
    /// Units mAh
    pub consumedAmpHours: isize,
    /// Sate of charge
    /// Unit: Per Mille
    pub stateOfCharge: isize,
    /// Time to Go
    /// Units: Minutes
    pub timeToGo: isize,
    /// Alarm condition active
    pub alarm: bool,
    /// Relay state
    pub relay: bool,
    /// alarm reason
    /// Units: String?
    pub alarmReason: String,
    /// Off Reason
    /// Units: String
    pub offReason: String,
    /// Depth of the deepest discharge
    /// Units: mAh
    pub depthOfDischarge: isize,
    /// Depth of the last discharge
    /// Units: mAh
    pub lastDischargeDepth: isize,
    /// Depth of the avarage discharge
    /// Units: mAh
    pub avgDischargeDepth: isize,
    /// Number of charge Cycles
    pub chargeCycles: usize,
    /// Number of full discharge
    pub discharges: usize,
    /// Cumulative Amp Hours Drawn
    /// Units: mAh
    pub cumulativeDrawn: isize,
    /// Minimum main (battery) voltage
    /// Units: mV
    pub minVoltage: isize,
    /// Maximum main (battery) voltage
    /// Units: mV
    pub maxVoltage: isize,
    /// Yield total (user resettable counter)
    /// Units: 0.01kWh
    pub yieldTotalUser: usize,
    /// Yield total
    /// Units: 0.01kWh
    pub yieldTotal: usize,
    /// Maximum Power today
    /// Units: W
    pub maxPowerToday: usize,
    /// Yield Yesterday
    /// Units: 0.01 kWh
    pub yieldYesterday: usize,
    /// Maximum Power Yesterday
    /// Units: W
    pub maxPowerYesterday: usize,
    /// Error Code
    /// Units: String?
    pub errCode: String,
    /// State of operation
    ///
    /// # States
    /// Off | 0
    /// Low power | 1
    /// Fault | 2
    /// Bulk | 3
    /// Absorption | 4
    /// Float | 5
    /// Storage | 6
    /// Equalize (manual) | 7
    /// Inverting | 9
    /// Power supply | 11
    /// Starting-up | 245
    /// Repeated absorption | 246
    /// Auto equalize / Recondition | 247
    /// BatterySafe | 248
    /// External Control | 252
    pub state: u8,
    /// Firmware version (16Bit)
    pub firmware16: u16,
    /// Firmware version (24Bit)
    pub firmware24: u32,
    /// Serial number
    pub serialNumber: String,
    /// Day sequence number (0..364)
    pub day: u16,
    /// AC output voltage
    /// Units: 0.01 V
    pub ACOut: usize,
    /// AC output current
    /// Units: 0.01 A
    pub ACCurrent: usize,
    /// AC output apparent power
    /// Units: VA
    pub ACVA: usize,
}

/// The value that an optional decimal string gives: the number where it is
/// one between `lo` and `hi`, else 0.
pub open spec fn number_or_zero(s: Option<Seq<char>>, signed: bool, lo: int, hi: int) -> int {
    match s {
        Some(t) => match decimal_in_range(t, signed, lo, hi) {
            Some(x) => x,
            None => 0,
        },
        None => 0,
    }
}

/// The string under `key`, or the empty string.
pub open spec fn text_field(m: Seq<EntryView>, key: Seq<char>) -> Seq<char> {
    match member_str(m, key) {
        Some(t) => t,
        None => Seq::<char>::empty(),
    }
}

/// The load output is on exactly where `LOAD` is the string `ON`.
pub open spec fn load_field(m: Seq<EntryView>) -> bool {
    member_str(m, "LOAD"@) == Some("ON"@)
}

/// The product name of the id under `PID`, or the empty string without one.
pub open spec fn pid_field(m: Seq<EntryView>) -> Seq<char> {
    match member_str(m, "PID"@) {
        Some(t) => pid_name(t),
        None => Seq::<char>::empty(),
    }
}

/// The fields that no reply fills: all zero, `false` or empty.
pub open spec fn unreported_clear(d: CacheData) -> bool {
    &&& d.temp == 0
    &&& d.power == 0
    &&& d.consumedAmpHours == 0
    &&& d.stateOfCharge == 0
    &&& d.timeToGo == 0
    &&& !d.alarm
    &&& !d.relay
    &&& d.alarmReason@ == Seq::<char>::empty()
    &&& d.depthOfDischarge == 0
    &&& d.lastDischargeDepth == 0
    &&& d.avgDischargeDepth == 0
    &&& d.chargeCycles == 0
    &&& d.discharges == 0
    &&& d.cumulativeDrawn == 0
    &&& d.minVoltage == 0
    &&& d.maxVoltage == 0
    &&& d.firmware24 == 0
    &&& d.ACOut == 0
    &&& d.ACCurrent == 0
    &&& d.ACVA == 0
}

/// The record of a device that could not be read.
pub open spec fn is_offline(d: CacheData) -> bool {
    &&& !d.online
    &&& d.pid@ == "unknown"@
    &&& d.voltageCurrent == 0
    &&& d.loadCurrent == 0
    &&& d.current == 0
    &&& d.panelVoltage == 0
    &&& d.pannelPower == 0
    &&& !d.load
    &&& d.offReason@ == Seq::<char>::empty()
    &&& d.yieldTotalUser == 0
    &&& d.yieldTotal == 0
    &&& d.maxPowerToday == 0
    &&& d.yieldYesterday == 0
    &&& d.maxPowerYesterday == 0
    &&& d.errCode@ == Seq::<char>::empty()
    &&& d.state == 0
    &&& d.firmware16 == 0
    &&& d.serialNumber@ == Seq::<char>::empty()
    &&& d.day == 0
    &&& unreported_clear(d)
}

/// The record that the reply with members `m` gives.
pub open spec fn is_reply_record(d: CacheData, m: Seq<EntryView>) -> bool {
    &&& d.online
    &&& d.pid@ == pid_field(m)
    &&& d.load == load_field(m)
    &&& d.voltageCurrent == isize_field(m, "V"@)
    &&& d.loadCurrent == isize_field(m, "IL"@)
    &&& d.current == isize_field(m, "I"@)
    &&& d.panelVoltage == isize_field(m, "VPV"@)
    &&& d.pannelPower == isize_field(m, "PPV"@)
    &&& d.offReason@ == text_field(m, "OR"@)
    &&& d.yieldTotalUser == usize_field(m, "H19"@)
    &&& d.yieldTotal == usize_field(m, "H20"@)
    &&& d.maxPowerToday == usize_field(m, "H21"@)
    &&& d.yieldYesterday == usize_field(m, "H22"@)
    &&& d.maxPowerYesterday == usize_field(m, "H23"@)
    &&& d.errCode@ == text_field(m, "ERR"@)
    &&& d.state == u8_field(m, "CS"@)
    &&& d.firmware16 == u16_field(m, "FW"@)
    &&& d.serialNumber@ == text_field(m, "SER#"@)
    &&& d.day == u16_field(m, "HSDS"@)
    &&& unreported_clear(d)
}

/// The record that the reply text `reply` gives: read where it is JSON,
/// offline where it is not.
pub open spec fn is_reading_of(d: CacheData, reply: Seq<char>) -> bool {
    match json_object_members(reply) {
        Some(m) => is_reply_record(d, m),
        None => is_offline(d),
    }
}

/// The `isize` under `key`: its string value read as a decimal `isize`, and 0
/// where the member is missing, not a string or not such a number.
pub open spec fn isize_field(m: Seq<EntryView>, key: Seq<char>) -> int {
    number_or_zero(member_str(m, key), true, isize::MIN as int, isize::MAX as int)
}

fn isize_field_of(obj: &JsonObject, key: &str) -> (r: isize)
    ensures
        r == isize_field(obj@, key@),
{
    match obj.get_str(key) {
        Some(t) => match parse_isize(t) {
            Some(v) => v,
            None => 0,
        },
        None => 0,
    }
}

/// The `usize` under `key`: its string value read as a decimal `usize`, and 0
/// where the member is missing, not a string or not such a number.
pub open spec fn usize_field(m: Seq<EntryView>, key: Seq<char>) -> int {
    number_or_zero(member_str(m, key), false, 0, usize::MAX as int)
}

fn usize_field_of(obj: &JsonObject, key: &str) -> (r: usize)
    ensures
        r == usize_field(obj@, key@),
{
    match obj.get_str(key) {
        Some(t) => match parse_usize(t) {
            Some(v) => v,
            None => 0,
        },
        None => 0,
    }
}

/// The `u16` under `key`: its string value read as a decimal `u16`, and 0
/// where the member is missing, not a string or not such a number.
pub open spec fn u16_field(m: Seq<EntryView>, key: Seq<char>) -> int {
    number_or_zero(member_str(m, key), false, 0, u16::MAX as int)
}

fn u16_field_of(obj: &JsonObject, key: &str) -> (r: u16)
    ensures
        r == u16_field(obj@, key@),
{
    match obj.get_str(key) {
        Some(t) => match parse_u16(t) {
            Some(v) => v,
            None => 0,
        },
        None => 0,
    }
}

/// The `u8` under `key`: its string value read as a decimal `u8`, and 0
/// where the member is missing, not a string or not such a number.
pub open spec fn u8_field(m: Seq<EntryView>, key: Seq<char>) -> int {
    number_or_zero(member_str(m, key), false, 0, u8::MAX as int)
}

fn u8_field_of(obj: &JsonObject, key: &str) -> (r: u8)
    ensures
        r == u8_field(obj@, key@),
{
    match obj.get_str(key) {
        Some(t) => match parse_u8(t) {
            Some(v) => v,
            None => 0,
        },
        None => 0,
    }
}

fn text_field_of(obj: &JsonObject, key: &str) -> (r: String)
    ensures
        r@ == text_field(obj@, key@),
{
    match obj.get_str(key) {
        Some(t) => String::from_str(t),
        None => String::new(),
    }
}

fn load_field_of(obj: &JsonObject) -> (r: bool)
    ensures
        r == load_field(obj@),
{
    match obj.get_str("LOAD") {
        Some(t) => str_eq(t, "ON"),
        None => false,
    }
}

fn pid_field_of(obj: &JsonObject) -> (r: String)
    ensures
        r@ == pid_field(obj@),
{
    match obj.get_str("PID") {
        Some(t) => parse_pid(t),
        None => String::new(),
    }
}

impl CacheData {
    /// The record of a device that could not be read.
    pub fn offline() -> (d: CacheData)
        ensures
            is_offline(d),
    {
        let d = CacheData {
            online: false,
            pid: String::from_str("unknown"),
            voltageCurrent: 0,
            loadCurrent: 0,
            current: 0,
            panelVoltage: 0,
            pannelPower: 0,
            load: false,
            temp: 0,
            power: 0,
            consumedAmpHours: 0,
            stateOfCharge: 0,
            timeToGo: 0,
            alarm: false,
            relay: false,
            alarmReason: String::new(),
            offReason: String::new(),
            depthOfDischarge: 0,
            lastDischargeDepth: 0,
            avgDischargeDepth: 0,
            chargeCycles: 0,
            discharges: 0,
            cumulativeDrawn: 0,
            minVoltage: 0,
            maxVoltage: 0,
            yieldTotalUser: 0,
            yieldTotal: 0,
            maxPowerToday: 0,
            yieldYesterday: 0,
            maxPowerYesterday: 0,
            errCode: String::new(),
            state: 0,
            firmware16: 0,
            firmware24: 0,
            serialNumber: String::new(),
            day: 0,
            ACOut: 0,
            ACCurrent: 0,
            ACVA: 0,
        };
        proof {
            reveal_strlit("unknown");
        }
        d
    }

    /// The record that a reply with the members `obj` gives.
    pub fn from_members(obj: &JsonObject) -> (d: CacheData)
        ensures
            is_reply_record(d, obj@),
    {
        CacheData {
            online: true,
            pid: pid_field_of(obj),
            voltageCurrent: isize_field_of(obj, "V"),
            loadCurrent: isize_field_of(obj, "IL"),
            current: isize_field_of(obj, "I"),
            panelVoltage: isize_field_of(obj, "VPV"),
            pannelPower: isize_field_of(obj, "PPV"),
            load: load_field_of(obj),
            temp: 0,
            power: 0,
            consumedAmpHours: 0,
            stateOfCharge: 0,
            timeToGo: 0,
            alarm: false,
            relay: false,
            alarmReason: String::new(),
            offReason: text_field_of(obj, "OR"),
            depthOfDischarge: 0,
            lastDischargeDepth: 0,
            avgDischargeDepth: 0,
            chargeCycles: 0,
            discharges: 0,
            cumulativeDrawn: 0,
            minVoltage: 0,
            maxVoltage: 0,
            yieldTotalUser: usize_field_of(obj, "H19"),
            yieldTotal: usize_field_of(obj, "H20"),
            maxPowerToday: usize_field_of(obj, "H21"),
            yieldYesterday: usize_field_of(obj, "H22"),
            maxPowerYesterday: usize_field_of(obj, "H23"),
            errCode: text_field_of(obj, "ERR"),
            state: u8_field_of(obj, "CS"),
            firmware16: u16_field_of(obj, "FW"),
            firmware24: 0,
            serialNumber: text_field_of(obj, "SER#"),
            day: u16_field_of(obj, "HSDS"),
            ACOut: 0,
            ACCurrent: 0,
            ACVA: 0,
        }
    }

    /// The record that the reply text `reply` of the serial bridge gives;
    /// `None` where it is not JSON.
    pub fn from_reply(reply: &str) -> (d: Option<CacheData>)
        ensures
            match d {
                Some(r) => json_object_members(reply@) matches Some(m) && is_reply_record(r, m),
                None => json_object_members(reply@) is None,
            },
    {
        match JsonObject::parse(reply) {
            Some(obj) => Some(CacheData::from_members(&obj)),
            None => None,
        }
    }
}

/// Whether `a` and `b` hold the same values in every field.
pub open spec fn same_record(a: CacheData, b: CacheData) -> bool {
    &&& a.online == b.online
    &&& a.pid@ == b.pid@
    &&& a.voltageCurrent == b.voltageCurrent
    &&& a.loadCurrent == b.loadCurrent
    &&& a.current == b.current
    &&& a.panelVoltage == b.panelVoltage
    &&& a.pannelPower == b.pannelPower
    &&& a.load == b.load
    &&& a.temp == b.temp
    &&& a.power == b.power
    &&& a.consumedAmpHours == b.consumedAmpHours
    &&& a.stateOfCharge == b.stateOfCharge
    &&& a.timeToGo == b.timeToGo
    &&& a.alarm == b.alarm
    &&& a.relay == b.relay
    &&& a.alarmReason@ == b.alarmReason@
    &&& a.offReason@ == b.offReason@
    &&& a.depthOfDischarge == b.depthOfDischarge
    &&& a.lastDischargeDepth == b.lastDischargeDepth
    &&& a.avgDischargeDepth == b.avgDischargeDepth
    &&& a.chargeCycles == b.chargeCycles
    &&& a.discharges == b.discharges
    &&& a.cumulativeDrawn == b.cumulativeDrawn
    &&& a.minVoltage == b.minVoltage
    &&& a.maxVoltage == b.maxVoltage
    &&& a.yieldTotalUser == b.yieldTotalUser
    &&& a.yieldTotal == b.yieldTotal
    &&& a.maxPowerToday == b.maxPowerToday
    &&& a.yieldYesterday == b.yieldYesterday
    &&& a.maxPowerYesterday == b.maxPowerYesterday
    &&& a.errCode@ == b.errCode@
    &&& a.state == b.state
    &&& a.firmware16 == b.firmware16
    &&& a.firmware24 == b.firmware24
    &&& a.serialNumber@ == b.serialNumber@
    &&& a.day == b.day
    &&& a.ACOut == b.ACOut
    &&& a.ACCurrent == b.ACCurrent
    &&& a.ACVA == b.ACVA
}

/// The record after one round of the scraper, where `reply` is the text
/// that the bridge answered, or `None` where the request failed.
pub open spec fn is_scrape_result(d: CacheData, reply: Option<Seq<char>>) -> bool {
    match reply {
        Some(t) => is_reading_of(d, t),
        None => is_offline(d),
    }
}

/// After a round of the scraper the record is online exactly where the
/// bridge answered with JSON.
pub proof fn lemma_online_iff_answered(d: CacheData, reply: Option<Seq<char>>)
    requires
        is_scrape_result(d, reply),
    ensures
        d.online <==> (reply matches Some(t) && json_object_members(t) is Some),
{
}

/// A round of the scraper forgets what the cache held before: two rounds
/// with the same answer leave the same record, whatever came before them.
pub proof fn lemma_scrape_forgets_previous(a: CacheData, b: CacheData, reply: Option<Seq<char>>)
    requires
        is_scrape_result(a, reply),
        is_scrape_result(b, reply),
    ensures
        same_record(a, b),
{
}

/// The latest reading of the charger, as the scraper keeps it.
pub struct Cache {
    pub data: CacheData,
}

impl Cache {
    /// A cache that holds the offline record until the first reading.
    pub fn new() -> (c: Cache)
        ensures
            is_offline(c.data),
    {
        Cache { data: CacheData::offline() }
    }

    /// One round of the scraper: replaces the record by the reading of
    /// `reply`, the bridge's answer, or by the offline record where there was
    /// no answer or it was not JSON.
    pub fn update_cache(&mut self, reply: Option<&str>)
        ensures
            is_scrape_result(
                final(self).data,
                match reply {
                    Some(t) => Some(t@),
                    None => None,
                },
            ),
    {
        let data = match reply {
            Some(text) => match CacheData::from_reply(text) {
                Some(d) => d,
                None => CacheData::offline(),
            },
            None => CacheData::offline(),
        };
        self.data = data;
    }
}

/// A string of decimal digits denotes the number they spell.
proof fn lemma_digits_denote(digits: Seq<char>)
    requires
        digits.len() > 0,
        all_digits(digits),
    ensures
        decimal_value(digits, false) == Some(digits_value(digits)),
        decimal_value(digits, true) == Some(digits_value(digits)),
        digits_value(digits) >= 0,
{
    assert(is_digit(digits[0]));
    lemma_digits_value_nonneg(digits);
}

/// The energy and power counters `H19`-`H23` are read with their full
/// value: where the member holds decimal digits whose value fits in a
/// `usize`, the record holds that value.
pub proof fn lemma_counters_read_in_full(d: CacheData, m: Seq<EntryView>, key: Seq<char>, digits: Seq<char>)
    requires
        is_reply_record(d, m),
        member_str(m, key) == Some(digits),
        digits.len() > 0,
        all_digits(digits),
        digits_value(digits) <= usize::MAX,
    ensures
        key == "H19"@ ==> d.yieldTotalUser == digits_value(digits),
        key == "H20"@ ==> d.yieldTotal == digits_value(digits),
        key == "H21"@ ==> d.maxPowerToday == digits_value(digits),
        key == "H22"@ ==> d.yieldYesterday == digits_value(digits),
        key == "H23"@ ==> d.maxPowerYesterday == digits_value(digits),
{
    lemma_digits_denote(digits);
}

/// The day sequence number `HSDS` and the firmware version `FW` are read
/// with their full value: decimal digits worth at most 65535 give that value.
pub proof fn lemma_day_and_firmware_read_in_full(d: CacheData, m: Seq<EntryView>, key: Seq<char>, digits: Seq<char>)
    requires
        is_reply_record(d, m),
        member_str(m, key) == Some(digits),
        digits.len() > 0,
        all_digits(digits),
        digits_value(digits) <= 65535,
    ensures
        key == "HSDS"@ ==> d.day == digits_value(digits),
        key == "FW"@ ==> d.firmware16 == digits_value(digits),
{
    lemma_digits_denote(digits);
}

/// The state of operation `CS` is read with its full value: decimal digits
/// worth at most 255 give that value.
pub proof fn lemma_state_read_in_full(d: CacheData, m: Seq<EntryView>, digits: Seq<char>)
    requires
        is_reply_record(d, m),
        member_str(m, "CS"@) == Some(digits),
        digits.len() > 0,
        all_digits(digits),
        digits_value(digits) <= 255,
    ensures
        d.state == digits_value(digits),
{
    lemma_digits_denote(digits);
}

/// The signed readings (`V`, `I`, `VPV`, `PPV`, `IL`) are read with their
/// full value and sign: decimal digits, with a leading `-` where negative,
/// give that value wherever it fits in an `isize`.
pub proof fn lemma_signed_readings_read_in_full(
    d: CacheData,
    m: Seq<EntryView>,
    key: Seq<char>,
    negative: bool,
    digits: Seq<char>,
)
    requires
        is_reply_record(d, m),
        member_str(m, key) == Some(if negative { seq!['-'] + digits } else { digits }),
        digits.len() > 0,
        all_digits(digits),
        isize::MIN <= (if negative { -digits_value(digits) } else { digits_value(digits) }) <= isize::MAX,
    ensures
        ({
            let v = if negative { -digits_value(digits) } else { digits_value(digits) };
            &&& key == "V"@ ==> d.voltageCurrent == v
            &&& key == "I"@ ==> d.current == v
            &&& key == "VPV"@ ==> d.panelVoltage == v
            &&& key == "PPV"@ ==> d.pannelPower == v
            &&& key == "IL"@ ==> d.loadCurrent == v
        }),
{
    lemma_digits_denote(digits);
    if negative {
        let s = seq!['-'] + digits;
        assert(s.drop_first() =~= digits);
        assert(s[0] == '-');
    }
}

} // verus!
