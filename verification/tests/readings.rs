use ve_exporter::completion::{completion_shell, CompletionShell};
use ve_exporter::{parse_pid, Cache, CacheData, JsonObject};

const REPLY: &str = r#"{"PID":"0xA053","FW":"159","SER#":"HQ1828ABCDE","V":"12800","I":"-520","VPV":"33210",
"PPV":"12","CS":"3","MPPT":"2","OR":"0x00000000","ERR":"0","LOAD":"ON","IL":"300","H19":"1234",
"H20":"5","H21":"40","H22":"6","H23":"41","HSDS":"17"}"#;

fn assert_unreported_clear(d: &CacheData) {
    assert_eq!(d.temp, 0);
    assert_eq!(d.power, 0);
    assert_eq!(d.consumedAmpHours, 0);
    assert_eq!(d.stateOfCharge, 0);
    assert_eq!(d.timeToGo, 0);
    assert!(!d.alarm);
    assert!(!d.relay);
    assert_eq!(d.alarmReason, "");
    assert_eq!(d.depthOfDischarge, 0);
    assert_eq!(d.lastDischargeDepth, 0);
    assert_eq!(d.avgDischargeDepth, 0);
    assert_eq!(d.chargeCycles, 0);
    assert_eq!(d.discharges, 0);
    assert_eq!(d.cumulativeDrawn, 0);
    assert_eq!(d.minVoltage, 0);
    assert_eq!(d.maxVoltage, 0);
    assert_eq!(d.firmware24, 0);
    assert_eq!(d.ACOut, 0);
    assert_eq!(d.ACCurrent, 0);
    assert_eq!(d.ACVA, 0);
}

fn assert_offline(d: &CacheData) {
    assert!(!d.online);
    assert_eq!(d.pid, "unknown");
    assert_eq!(d.voltageCurrent, 0);
    assert_eq!(d.loadCurrent, 0);
    assert_eq!(d.current, 0);
    assert_eq!(d.panelVoltage, 0);
    assert_eq!(d.pannelPower, 0);
    assert!(!d.load);
    assert_eq!(d.offReason, "");
    assert_eq!(d.errCode, "");
    assert_eq!(d.serialNumber, "");
    assert_eq!(d.state, 0);
    assert_eq!(d.firmware16, 0);
    assert_eq!(d.day, 0);
    assert_eq!(d.yieldTotalUser, 0);
    assert_eq!(d.yieldTotal, 0);
    assert_eq!(d.maxPowerToday, 0);
    assert_eq!(d.yieldYesterday, 0);
    assert_eq!(d.maxPowerYesterday, 0);
    assert_unreported_clear(d);
}

#[test]
fn offline_record() {
    assert_offline(&CacheData::offline());
}

#[test]
fn reply_is_read_field_by_field() {
    let d = CacheData::from_reply(REPLY).unwrap();
    assert!(d.online);
    assert_eq!(d.pid, "SmartSolar MPPT 75|15");
    assert_eq!(d.firmware16, 159);
    assert_eq!(d.serialNumber, "HQ1828ABCDE");
    assert_eq!(d.voltageCurrent, 12800);
    assert_eq!(d.current, -520);
    assert_eq!(d.panelVoltage, 33210);
    assert_eq!(d.pannelPower, 12);
    assert_eq!(d.state, 3);
    assert_eq!(d.offReason, "0x00000000");
    assert_eq!(d.errCode, "0");
    assert!(d.load);
    assert_eq!(d.loadCurrent, 300);
    assert_eq!(d.yieldTotalUser, 1234);
    assert_eq!(d.yieldTotal, 5);
    assert_eq!(d.maxPowerToday, 40);
    assert_eq!(d.yieldYesterday, 6);
    assert_eq!(d.maxPowerYesterday, 41);
    assert_eq!(d.day, 17);
    assert_unreported_clear(&d);
}

#[test]
fn missing_or_malformed_fields_read_as_zero() {
    let d = CacheData::from_reply(r#"{"V":12800,"CS":"300","I":"x","LOAD":"OFF","FW":"-1"}"#).unwrap();
    assert!(d.online);
    assert_eq!(d.pid, "");
    assert_eq!(d.voltageCurrent, 0);
    assert_eq!(d.state, 0);
    assert_eq!(d.current, 0);
    assert!(!d.load);
    assert_eq!(d.firmware16, 0);
    assert_eq!(d.serialNumber, "");
}

#[test]
fn load_is_on_only_for_on() {
    assert!(!CacheData::from_reply(r#"{"LOAD":"on"}"#).unwrap().load);
    assert!(!CacheData::from_reply(r#"{"LOAD":true}"#).unwrap().load);
    assert!(CacheData::from_reply(r#"{"LOAD":"ON"}"#).unwrap().load);
}

#[test]
fn non_json_reply_is_refused() {
    assert!(CacheData::from_reply("").is_none());
    assert!(CacheData::from_reply("<html>").is_none());
    assert!(CacheData::from_reply("{\"V\":").is_none());
}

#[test]
fn non_object_reply_is_online_and_empty() {
    let d = CacheData::from_reply("[1, 2, 3]").unwrap();
    assert!(d.online);
    assert_eq!(d.pid, "");
    assert_eq!(d.voltageCurrent, 0);
}

#[test]
fn unknown_pid_is_named_unknown() {
    let d = CacheData::from_reply(r#"{"PID":"0xFFFF"}"#).unwrap();
    assert_eq!(d.pid, "Unknown");
}

#[test]
fn scrape_round_sets_online() {
    let mut c = Cache::new();
    assert_offline(&c.data);
    c.update_cache(Some(REPLY));
    assert!(c.data.online);
    assert_eq!(c.data.voltageCurrent, 12800);
}

#[test]
fn failed_scrape_round_is_offline() {
    let mut c = Cache::new();
    c.update_cache(Some(REPLY));
    c.update_cache(None);
    assert_offline(&c.data);
    c.update_cache(Some(REPLY));
    c.update_cache(Some("not json"));
    assert_offline(&c.data);
}

#[test]
fn scrape_round_forgets_previous() {
    let mut a = Cache::new();
    let mut b = Cache::new();
    a.update_cache(Some(r#"{"V":"1","SER#":"A"}"#));
    a.update_cache(Some(r#"{"I":"2"}"#));
    b.update_cache(Some(r#"{"I":"2"}"#));
    assert_eq!(a.data.voltageCurrent, b.data.voltageCurrent);
    assert_eq!(a.data.serialNumber, b.data.serialNumber);
    assert_eq!(a.data.current, 2);
    assert_eq!(a.data.serialNumber, "");
}

#[test]
fn product_names() {
    assert_eq!(parse_pid("0x203"), "BMV-700");
    assert_eq!(parse_pid("0x204"), "BMV-702");
    assert_eq!(parse_pid("0x205"), "BMV-700H");
    assert_eq!(parse_pid("0x0300"), "BlueSolar MPPT 70|15");
    assert_eq!(parse_pid("0xA04A"), "BlueSolar MPPT 100|30 rev2");
    assert_eq!(parse_pid("0xA060"), "SmartSolar MPPT 100|20 48V");
    assert_eq!(parse_pid("0xA10B"), "SmartSolar MPPT VE.Can 250/100");
    assert_eq!(parse_pid("0xA2A4"), "Phoenix Inverter 48V 3000VA 230V");
    assert_eq!(parse_pid("0xA347"), "Phoenix Smart IP43 Charger 24|16 (3)");
}

#[test]
fn unknown_product_ids() {
    assert_eq!(parse_pid("0xa053"), "Unknown");
    assert_eq!(parse_pid(""), "Unknown");
    assert_eq!(parse_pid("0x300"), "Unknown");
    assert_eq!(parse_pid(" 0x203"), "Unknown");
}

#[test]
fn json_members_are_read() {
    let o = JsonObject::parse(r#"{"a":"x","n":-3,"u":7,"f":1.5}"#).unwrap();
    assert_eq!(o.get_str("a"), Some("x"));
    assert_eq!(o.get_str("n"), None);
    assert_eq!(o.get_i64("n"), Some(-3));
    assert_eq!(o.get_u64("n"), None);
    assert_eq!(o.get_u64("u"), Some(7));
    assert_eq!(o.get_i64("u"), Some(7));
    assert_eq!(o.get_i64("f"), None);
    assert_eq!(o.get_str("missing"), None);
    assert!(JsonObject::parse("nope").is_none());
}

#[test]
fn completion_shells() {
    assert_eq!(completion_shell("fish"), CompletionShell::Fish);
    assert_eq!(completion_shell("ZSH"), CompletionShell::Zsh);
    assert_eq!(completion_shell("PowerShell"), CompletionShell::PowerShell);
    assert_eq!(completion_shell("Elvish"), CompletionShell::Elvish);
    assert_eq!(completion_shell("bash"), CompletionShell::Bash);
    assert_eq!(completion_shell("tcsh"), CompletionShell::Bash);
}
