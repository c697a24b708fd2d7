//! Product names of the VE.Direct product ids (the `PID` field).
use vstd::prelude::*;

use crate::text::{chars_eq_str, chars_of};

verus! {

/// The product name that the device with product id `pid` reports, as the
/// table of the VE.Direct protocol gives it; `Unknown` for an id that the
/// table does not hold.
pub open spec fn pid_name(pid: Seq<char>) -> Seq<char> {
    if pid == "0x203"@ {
        "BMV-700"@
    } else if pid == "0x204"@ {
        "BMV-702"@
    } else if pid == "0x205"@ {
        "BMV-700H"@
    } else if pid == "0x0300"@ {
        "BlueSolar MPPT 70|15"@
    } else if pid == "0xA040"@ {
        "BlueSolar MPPT 75|50"@
    } else if pid == "0xA041"@ {
        "BlueSolar MPPT 150|35"@
    } else if pid == "0xA042"@ {
        "BlueSolar MPPT 75|15"@
    } else if pid == "0xA043"@ {
        "BlueSolar MPPT 100|15"@
    } else if pid == "0xA044"@ {
        "BlueSolar MPPT 100|30"@
    } else if pid == "0xA045"@ {
        "BlueSolar MPPT 100|50"@
    } else if pid == "0xA046"@ {
        "BlueSolar MPPT 150|70"@
    } else if pid == "0xA047"@ {
        "BlueSolar MPPT 150|100"@
    } else if pid == "0xA049"@ {
        "BlueSolar MPPT 100|50 rev2"@
    } else if pid == "0xA04A"@ {
        "BlueSolar MPPT 100|30 rev2"@
    } else if pid == "0xA04B"@ {
        "BlueSolar MPPT 150|35 rev2"@
    } else if pid == "0xA04C"@ {
        "BlueSolar MPPT 75|10"@
    } else if pid == "0xA04D"@ {
        "BlueSolar MPPT 150|45"@
    } else if pid == "0xA04E"@ {
        "BlueSolar MPPT 150|60"@
    } else if pid == "0xA04F"@ {
        "BlueSolar MPPT 150|85"@
    } else if pid == "0xA050"@ {
        "SmartSolar MPPT 250|100"@
    } else if pid == "0xA051"@ {
        "SmartSolar MPPT 150|100"@
    } else if pid == "0xA052"@ {
        "SmartSolar MPPT 150|85"@
    } else if pid == "0xA053"@ {
        "SmartSolar MPPT 75|15"@
    } else if pid == "0xA054"@ {
        "SmartSolar MPPT 75|10"@
    } else if pid == "0xA055"@ {
        "SmartSolar MPPT 100|15"@
    } else if pid == "0xA056"@ {
        "SmartSolar MPPT 100|30"@
    } else if pid == "0xA057"@ {
        "SmartSolar MPPT 100|50"@
    } else if pid == "0xA058"@ {
        "SmartSolar MPPT 150|35"@
    } else if pid == "0xA059"@ {
        "SmartSolar MPPT 150|100 rev2"@
    } else if pid == "0xA05A"@ {
        "SmartSolar MPPT 150|85 rev2"@
    } else if pid == "0xA05B"@ {
        "SmartSolar MPPT 250|70"@
    } else if pid == "0xA05C"@ {
        "SmartSolar MPPT 250|85"@
    } else if pid == "0xA05D"@ {
        "SmartSolar MPPT 250|60"@
    } else if pid == "0xA05E"@ {
        "SmartSolar MPPT 250|45"@
    } else if pid == "0xA05F"@ {
        "SmartSolar MPPT 100|20"@
    } else if pid == "0xA060"@ {
        "SmartSolar MPPT 100|20 48V"@
    } else if pid == "0xA061"@ {
        "SmartSolar MPPT 150|45"@
    } else if pid == "0xA062"@ {
        "SmartSolar MPPT 150|60"@
    } else if pid == "0xA063"@ {
        "SmartSolar MPPT 150|70"@
    } else if pid == "0xA064"@ {
        "SmartSolar MPPT 250|85 rev2"@
    } else if pid == "0xA065"@ {
        "SmartSolar MPPT 250|100 rev2"@
    } else if pid == "0xA102"@ {
        "SmartSolar MPPT VE.Can 150/70"@
    } else if pid == "0xA103"@ {
        "SmartSolar MPPT VE.Can 150/45"@
    } else if pid == "0xA104"@ {
        "SmartSolar MPPT VE.Can 150/60"@
    } else if pid == "0xA105"@ {
        "SmartSolar MPPT VE.Can 150/85"@
    } else if pid == "0xA106"@ {
        "SmartSolar MPPT VE.Can 150/100"@
    } else if pid == "0xA107"@ {
        "SmartSolar MPPT VE.Can 250/45"@
    } else if pid == "0xA108"@ {
        "SmartSolar MPPT VE.Can 250/60"@
    } else if pid == "0xA109"@ {
        "SmartSolar MPPT VE.Can 250/70"@
    } else if pid == "0xA10A"@ {
        "SmartSolar MPPT VE.Can 250/85"@
    } else if pid == "0xA10B"@ {
        "SmartSolar MPPT VE.Can 250/100"@
    } else if pid == "0xA201"@ {
        "Phoenix Inverter 12V 250VA 230V"@
    } else if pid == "0xA202"@ {
        "Phoenix Inverter 24V 250VA 230V"@
    } else if pid == "0xA204"@ {
        "Phoenix Inverter 48V 250VA 230V"@
    } else if pid == "0xA211"@ {
        "Phoenix Inverter 12V 375VA 230V"@
    } else if pid == "0xA212"@ {
        "Phoenix Inverter 24V 375VA 230V"@
    } else if pid == "0xA214"@ {
        "Phoenix Inverter 48V 375VA 230V"@
    } else if pid == "0xA221"@ {
        "Phoenix Inverter 12V 500VA 230V"@
    } else if pid == "0xA222"@ {
        "Phoenix Inverter 24V 500VA 230V"@
    } else if pid == "0xA224"@ {
        "Phoenix Inverter 48V 500VA 230V"@
    } else if pid == "0xA231"@ {
        "Phoenix Inverter 12V 250VA 230V"@
    } else if pid == "0xA232"@ {
        "Phoenix Inverter 24V 250VA 230V"@
    } else if pid == "0xA234"@ {
        "Phoenix Inverter 48V 250VA 230V"@
    } else if pid == "0xA239"@ {
        "Phoenix Inverter 12V 250VA 120V"@
    } else if pid == "0xA23A"@ {
        "Phoenix Inverter 24V 250VA 120V"@
    } else if pid == "0xA23C"@ {
        "Phoenix Inverter 48V 250VA 120V"@
    } else if pid == "0xA241"@ {
        "Phoenix Inverter 12V 375VA 230V"@
    } else if pid == "0xA242"@ {
        "Phoenix Inverter 24V 375VA 230V"@
    } else if pid == "0xA244"@ {
        "Phoenix Inverter 48V 375VA 230V"@
    } else if pid == "0xA249"@ {
        "Phoenix Inverter 12V 375VA 120V"@
    } else if pid == "0xA24A"@ {
        "Phoenix Inverter 24V 375VA 120V"@
    } else if pid == "0xA24C"@ {
        "Phoenix Inverter 48V 375VA 120V"@
    } else if pid == "0xA251"@ {
        "Phoenix Inverter 12V 500VA 230V"@
    } else if pid == "0xA252"@ {
        "Phoenix Inverter 24V 500VA 230V"@
    } else if pid == "0xA254"@ {
        "Phoenix Inverter 48V 500VA 230V"@
    } else if pid == "0xA259"@ {
        "Phoenix Inverter 12V 500VA 120V"@
    } else if pid == "0xA25A"@ {
        "Phoenix Inverter 24V 500VA 120V"@
    } else if pid == "0xA25C"@ {
        "Phoenix Inverter 48V 500VA 120V"@
    } else if pid == "0xA261"@ {
        "Phoenix Inverter 12V 800VA 230V"@
    } else if pid == "0xA262"@ {
        "Phoenix Inverter 24V 800VA 230V"@
    } else if pid == "0xA264"@ {
        "Phoenix Inverter 48V 800VA 230V"@
    } else if pid == "0xA269"@ {
        "Phoenix Inverter 12V 800VA 120V"@
    } else if pid == "0xA26A"@ {
        "Phoenix Inverter 24V 800VA 120V"@
    } else if pid == "0xA26C"@ {
        "Phoenix Inverter 48V 800VA 120V"@
    } else if pid == "0xA271"@ {
        "Phoenix Inverter 12V 1200VA 230V"@
    } else if pid == "0xA272"@ {
        "Phoenix Inverter 24V 1200VA 230V"@
    } else if pid == "0xA274"@ {
        "Phoenix Inverter 48V 1200VA 230V"@
    } else if pid == "0xA279"@ {
        "Phoenix Inverter 12V 1200VA 120V"@
    } else if pid == "0xA27A"@ {
        "Phoenix Inverter 24V 1200VA 120V"@
    } else if pid == "0xA27C"@ {
        "Phoenix Inverter 48V 1200VA 120V"@
    } else if pid == "0xA281"@ {
        "Phoenix Inverter 12V 1600VA 230V"@
    } else if pid == "0xA282"@ {
        "Phoenix Inverter 24V 1600VA 230V"@
    } else if pid == "0xA284"@ {
        "Phoenix Inverter 48V 1600VA 230V"@
    } else if pid == "0xA291"@ {
        "Phoenix Inverter 12V 2000VA 230V"@
    } else if pid == "0xA292"@ {
        "Phoenix Inverter 24V 2000VA 230V"@
    } else if pid == "0xA294"@ {
        "Phoenix Inverter 48V 2000VA 230V"@
    } else if pid == "0xA2A1"@ {
        "Phoenix Inverter 12V 3000VA 230V"@
    } else if pid == "0xA2A2"@ {
        "Phoenix Inverter 24V 3000VA 230V"@
    } else if pid == "0xA2A4"@ {
        "Phoenix Inverter 48V 3000VA 230V"@
    } else if pid == "0xA340"@ {
        "Phoenix Smart IP43 Charger 12|50 (1+1)"@
    } else if pid == "0xA341"@ {
        "Phoenix Smart IP43 Charger 12|50 (3)"@
    } else if pid == "0xA342"@ {
        "Phoenix Smart IP43 Charger 24|25 (1+1)"@
    } else if pid == "0xA343"@ {
        "Phoenix Smart IP43 Charger 24|25 (3)"@
    } else if pid == "0xA344"@ {
        "Phoenix Smart IP43 Charger 12|30 (1+1)"@
    } else if pid == "0xA345"@ {
        "Phoenix Smart IP43 Charger 12|30 (3)"@
    } else if pid == "0xA346"@ {
        "Phoenix Smart IP43 Charger 24|16 (1+1)"@
    } else if pid == "0xA347"@ {
        "Phoenix Smart IP43 Charger 24|16 (3)"@
    } else {
        "Unknown"@
    }
}

/// The product name of product id `pid`.
pub fn parse_pid(pid: &str) -> (name: String)
    ensures
        name@ == pid_name(pid@),
{
    let chars = chars_of(pid);
    let p = chars.as_slice();
    if chars_eq_str(p, "0x203") {
        return String::from_str("BMV-700");
    }
    if chars_eq_str(p, "0x204") {
        return String::from_str("BMV-702");
    }
    if chars_eq_str(p, "0x205") {
        return String::from_str("BMV-700H");
    }
    if chars_eq_str(p, "0x0300") {
        return String::from_str("BlueSolar MPPT 70|15");
    }
    if chars_eq_str(p, "0xA040") {
        return String::from_str("BlueSolar MPPT 75|50");
    }
    if chars_eq_str(p, "0xA041") {
        return String::from_str("BlueSolar MPPT 150|35");
    }
    if chars_eq_str(p, "0xA042") {
        return String::from_str("BlueSolar MPPT 75|15");
    }
    if chars_eq_str(p, "0xA043") {
        return String::from_str("BlueSolar MPPT 100|15");
    }
    if chars_eq_str(p, "0xA044") {
        return String::from_str("BlueSolar MPPT 100|30");
    }
    if chars_eq_str(p, "0xA045") {
        return String::from_str("BlueSolar MPPT 100|50");
    }
    if chars_eq_str(p, "0xA046") {
        return String::from_str("BlueSolar MPPT 150|70");
    }
    if chars_eq_str(p, "0xA047") {
        return String::from_str("BlueSolar MPPT 150|100");
    }
    if chars_eq_str(p, "0xA049") {
        return String::from_str("BlueSolar MPPT 100|50 rev2");
    }
    if chars_eq_str(p, "0xA04A") {
        return String::from_str("BlueSolar MPPT 100|30 rev2");
    }
    if chars_eq_str(p, "0xA04B") {
        return String::from_str("BlueSolar MPPT 150|35 rev2");
    }
    if chars_eq_str(p, "0xA04C") {
        return String::from_str("BlueSolar MPPT 75|10");
    }
    if chars_eq_str(p, "0xA04D") {
        return String::from_str("BlueSolar MPPT 150|45");
    }
    if chars_eq_str(p, "0xA04E") {
        return String::from_str("BlueSolar MPPT 150|60");
    }
    if chars_eq_str(p, "0xA04F") {
        return String::from_str("BlueSolar MPPT 150|85");
    }
    if chars_eq_str(p, "0xA050") {
        return String::from_str("SmartSolar MPPT 250|100");
    }
    if chars_eq_str(p, "0xA051") {
        return String::from_str("SmartSolar MPPT 150|100");
    }
    if chars_eq_str(p, "0xA052") {
        return String::from_str("SmartSolar MPPT 150|85");
    }
    if chars_eq_str(p, "0xA053") {
        return String::from_str("SmartSolar MPPT 75|15");
    }
    if chars_eq_str(p, "0xA054") {
        return String::from_str("SmartSolar MPPT 75|10");
    }
    if chars_eq_str(p, "0xA055") {
        return String::from_str("SmartSolar MPPT 100|15");
    }
    if chars_eq_str(p, "0xA056") {
        return String::from_str("SmartSolar MPPT 100|30");
    }
    if chars_eq_str(p, "0xA057") {
        return String::from_str("SmartSolar MPPT 100|50");
    }
    if chars_eq_str(p, "0xA058") {
        return String::from_str("SmartSolar MPPT 150|35");
    }
    if chars_eq_str(p, "0xA059") {
        return String::from_str("SmartSolar MPPT 150|100 rev2");
    }
    if chars_eq_str(p, "0xA05A") {
        return String::from_str("SmartSolar MPPT 150|85 rev2");
    }
    if chars_eq_str(p, "0xA05B") {
        return String::from_str("SmartSolar MPPT 250|70");
    }
    if chars_eq_str(p, "0xA05C") {
        return String::from_str("SmartSolar MPPT 250|85");
    }
    if chars_eq_str(p, "0xA05D") {
        return String::from_str("SmartSolar MPPT 250|60");
    }
    if chars_eq_str(p, "0xA05E") {
        return String::from_str("SmartSolar MPPT 250|45");
    }
    if chars_eq_str(p, "0xA05F") {
        return String::from_str("SmartSolar MPPT 100|20");
    }
    if chars_eq_str(p, "0xA060") {
        return String::from_str("SmartSolar MPPT 100|20 48V");
    }
    if chars_eq_str(p, "0xA061") {
        return String::from_str("SmartSolar MPPT 150|45");
    }
    if chars_eq_str(p, "0xA062") {
        return String::from_str("SmartSolar MPPT 150|60");
    }
    if chars_eq_str(p, "0xA063") {
        return String::from_str("SmartSolar MPPT 150|70");
    }
    if chars_eq_str(p, "0xA064") {
        return String::from_str("SmartSolar MPPT 250|85 rev2");
    }
    if chars_eq_str(p, "0xA065") {
        return String::from_str("SmartSolar MPPT 250|100 rev2");
    }
    if chars_eq_str(p, "0xA102") {
        return String::from_str("SmartSolar MPPT VE.Can 150/70");
    }
    if chars_eq_str(p, "0xA103") {
        return String::from_str("SmartSolar MPPT VE.Can 150/45");
    }
    if chars_eq_str(p, "0xA104") {
        return String::from_str("SmartSolar MPPT VE.Can 150/60");
    }
    if chars_eq_str(p, "0xA105") {
        return String::from_str("SmartSolar MPPT VE.Can 150/85");
    }
    if chars_eq_str(p, "0xA106") {
        return String::from_str("SmartSolar MPPT VE.Can 150/100");
    }
    if chars_eq_str(p, "0xA107") {
        return String::from_str("SmartSolar MPPT VE.Can 250/45");
    }
    if chars_eq_str(p, "0xA108") {
        return String::from_str("SmartSolar MPPT VE.Can 250/60");
    }
    if chars_eq_str(p, "0xA109") {
        return String::from_str("SmartSolar MPPT VE.Can 250/70");
    }
    if chars_eq_str(p, "0xA10A") {
        return String::from_str("SmartSolar MPPT VE.Can 250/85");
    }
    if chars_eq_str(p, "0xA10B") {
        return String::from_str("SmartSolar MPPT VE.Can 250/100");
    }
    if chars_eq_str(p, "0xA201") {
        return String::from_str("Phoenix Inverter 12V 250VA 230V");
    }
    if chars_eq_str(p, "0xA202") {
        return String::from_str("Phoenix Inverter 24V 250VA 230V");
    }
    if chars_eq_str(p, "0xA204") {
        return String::from_str("Phoenix Inverter 48V 250VA 230V");
    }
    if chars_eq_str(p, "0xA211") {
        return String::from_str("Phoenix Inverter 12V 375VA 230V");
    }
    if chars_eq_str(p, "0xA212") {
        return String::from_str("Phoenix Inverter 24V 375VA 230V");
    }
    if chars_eq_str(p, "0xA214") {
        return String::from_str("Phoenix Inverter 48V 375VA 230V");
    }
    if chars_eq_str(p, "0xA221") {
        return String::from_str("Phoenix Inverter 12V 500VA 230V");
    }
    if chars_eq_str(p, "0xA222") {
        return String::from_str("Phoenix Inverter 24V 500VA 230V");
    }
    if chars_eq_str(p, "0xA224") {
        return String::from_str("Phoenix Inverter 48V 500VA 230V");
    }
    if chars_eq_str(p, "0xA231") {
        return String::from_str("Phoenix Inverter 12V 250VA 230V");
    }
    if chars_eq_str(p, "0xA232") {
        return String::from_str("Phoenix Inverter 24V 250VA 230V");
    }
    if chars_eq_str(p, "0xA234") {
        return String::from_str("Phoenix Inverter 48V 250VA 230V");
    }
    if chars_eq_str(p, "0xA239") {
        return String::from_str("Phoenix Inverter 12V 250VA 120V");
    }
    if chars_eq_str(p, "0xA23A") {
        return String::from_str("Phoenix Inverter 24V 250VA 120V");
    }
    if chars_eq_str(p, "0xA23C") {
        return String::from_str("Phoenix Inverter 48V 250VA 120V");
    }
    if chars_eq_str(p, "0xA241") {
        return String::from_str("Phoenix Inverter 12V 375VA 230V");
    }
    if chars_eq_str(p, "0xA242") {
        return String::from_str("Phoenix Inverter 24V 375VA 230V");
    }
    if chars_eq_str(p, "0xA244") {
        return String::from_str("Phoenix Inverter 48V 375VA 230V");
    }
    if chars_eq_str(p, "0xA249") {
        return String::from_str("Phoenix Inverter 12V 375VA 120V");
    }
    if chars_eq_str(p, "0xA24A") {
        return String::from_str("Phoenix Inverter 24V 375VA 120V");
    }
    if chars_eq_str(p, "0xA24C") {
        return String::from_str("Phoenix Inverter 48V 375VA 120V");
    }
    if chars_eq_str(p, "0xA251") {
        return String::from_str("Phoenix Inverter 12V 500VA 230V");
    }
    if chars_eq_str(p, "0xA252") {
        return String::from_str("Phoenix Inverter 24V 500VA 230V");
    }
    if chars_eq_str(p, "0xA254") {
        return String::from_str("Phoenix Inverter 48V 500VA 230V");
    }
    if chars_eq_str(p, "0xA259") {
        return String::from_str("Phoenix Inverter 12V 500VA 120V");
    }
    if chars_eq_str(p, "0xA25A") {
        return String::from_str("Phoenix Inverter 24V 500VA 120V");
    }
    if chars_eq_str(p, "0xA25C") {
        return String::from_str("Phoenix Inverter 48V 500VA 120V");
    }
    if chars_eq_str(p, "0xA261") {
        return String::from_str("Phoenix Inverter 12V 800VA 230V");
    }
    if chars_eq_str(p, "0xA262") {
        return String::from_str("Phoenix Inverter 24V 800VA 230V");
    }
    if chars_eq_str(p, "0xA264") {
        return String::from_str("Phoenix Inverter 48V 800VA 230V");
    }
    if chars_eq_str(p, "0xA269") {
        return String::from_str("Phoenix Inverter 12V 800VA 120V");
    }
    if chars_eq_str(p, "0xA26A") {
        return String::from_str("Phoenix Inverter 24V 800VA 120V");
    }
    if chars_eq_str(p, "0xA26C") {
        return String::from_str("Phoenix Inverter 48V 800VA 120V");
    }
    if chars_eq_str(p, "0xA271") {
        return String::from_str("Phoenix Inverter 12V 1200VA 230V");
    }
    if chars_eq_str(p, "0xA272") {
        return String::from_str("Phoenix Inverter 24V 1200VA 230V");
    }
    if chars_eq_str(p, "0xA274") {
        return String::from_str("Phoenix Inverter 48V 1200VA 230V");
    }
    if chars_eq_str(p, "0xA279") {
        return String::from_str("Phoenix Inverter 12V 1200VA 120V");
    }
    if chars_eq_str(p, "0xA27A") {
        return String::from_str("Phoenix Inverter 24V 1200VA 120V");
    }
    if chars_eq_str(p, "0xA27C") {
        return String::from_str("Phoenix Inverter 48V 1200VA 120V");
    }
    if chars_eq_str(p, "0xA281") {
        return String::from_str("Phoenix Inverter 12V 1600VA 230V");
    }
    if chars_eq_str(p, "0xA282") {
        return String::from_str("Phoenix Inverter 24V 1600VA 230V");
    }
    if chars_eq_str(p, "0xA284") {
        return String::from_str("Phoenix Inverter 48V 1600VA 230V");
    }
    if chars_eq_str(p, "0xA291") {
        return String::from_str("Phoenix Inverter 12V 2000VA 230V");
    }
    if chars_eq_str(p, "0xA292") {
        return String::from_str("Phoenix Inverter 24V 2000VA 230V");
    }
    if chars_eq_str(p, "0xA294") {
        return String::from_str("Phoenix Inverter 48V 2000VA 230V");
    }
    if chars_eq_str(p, "0xA2A1") {
        return String::from_str("Phoenix Inverter 12V 3000VA 230V");
    }
    if chars_eq_str(p, "0xA2A2") {
        return String::from_str("Phoenix Inverter 24V 3000VA 230V");
    }
    if chars_eq_str(p, "0xA2A4") {
        return String::from_str("Phoenix Inverter 48V 3000VA 230V");
    }
    if chars_eq_str(p, "0xA340") {
        return String::from_str("Phoenix Smart IP43 Charger 12|50 (1+1)");
    }
    if chars_eq_str(p, "0xA341") {
        return String::from_str("Phoenix Smart IP43 Charger 12|50 (3)");
    }
    if chars_eq_str(p, "0xA342") {
        return String::from_str("Phoenix Smart IP43 Charger 24|25 (1+1)");
    }
    if chars_eq_str(p, "0xA343") {
        return String::from_str("Phoenix Smart IP43 Charger 24|25 (3)");
    }
    if chars_eq_str(p, "0xA344") {
        return String::from_str("Phoenix Smart IP43 Charger 12|30 (1+1)");
    }
    if chars_eq_str(p, "0xA345") {
        return String::from_str("Phoenix Smart IP43 Charger 12|30 (3)");
    }
    if chars_eq_str(p, "0xA346") {
        return String::from_str("Phoenix Smart IP43 Charger 24|16 (1+1)");
    }
    if chars_eq_str(p, "0xA347") {
        return String::from_str("Phoenix Smart IP43 Charger 24|16 (3)");
    }
    String::from_str("Unknown")
}

/// Each product id of the VE.Direct table is named by its own entry.
#[verifier::rlimit(100)]
pub proof fn lemma_product_names()
    ensures
        pid_name("0x203"@) == "BMV-700"@,
        pid_name("0x204"@) == "BMV-702"@,
        pid_name("0x205"@) == "BMV-700H"@,
        pid_name("0x0300"@) == "BlueSolar MPPT 70|15"@,
        pid_name("0xA040"@) == "BlueSolar MPPT 75|50"@,
        pid_name("0xA041"@) == "BlueSolar MPPT 150|35"@,
        pid_name("0xA042"@) == "BlueSolar MPPT 75|15"@,
        pid_name("0xA043"@) == "BlueSolar MPPT 100|15"@,
        pid_name("0xA044"@) == "BlueSolar MPPT 100|30"@,
        pid_name("0xA045"@) == "BlueSolar MPPT 100|50"@,
        pid_name("0xA046"@) == "BlueSolar MPPT 150|70"@,
        pid_name("0xA047"@) == "BlueSolar MPPT 150|100"@,
        pid_name("0xA049"@) == "BlueSolar MPPT 100|50 rev2"@,
        pid_name("0xA04A"@) == "BlueSolar MPPT 100|30 rev2"@,
        pid_name("0xA04B"@) == "BlueSolar MPPT 150|35 rev2"@,
        pid_name("0xA04C"@) == "BlueSolar MPPT 75|10"@,
        pid_name("0xA04D"@) == "BlueSolar MPPT 150|45"@,
        pid_name("0xA04E"@) == "BlueSolar MPPT 150|60"@,
        pid_name("0xA04F"@) == "BlueSolar MPPT 150|85"@,
        pid_name("0xA050"@) == "SmartSolar MPPT 250|100"@,
        pid_name("0xA051"@) == "SmartSolar MPPT 150|100"@,
        pid_name("0xA052"@) == "SmartSolar MPPT 150|85"@,
        pid_name("0xA053"@) == "SmartSolar MPPT 75|15"@,
        pid_name("0xA054"@) == "SmartSolar MPPT 75|10"@,
        pid_name("0xA055"@) == "SmartSolar MPPT 100|15"@,
        pid_name("0xA056"@) == "SmartSolar MPPT 100|30"@,
        pid_name("0xA057"@) == "SmartSolar MPPT 100|50"@,
        pid_name("0xA058"@) == "SmartSolar MPPT 150|35"@,
        pid_name("0xA059"@) == "SmartSolar MPPT 150|100 rev2"@,
        pid_name("0xA05A"@) == "SmartSolar MPPT 150|85 rev2"@,
        pid_name("0xA05B"@) == "SmartSolar MPPT 250|70"@,
        pid_name("0xA05C"@) == "SmartSolar MPPT 250|85"@,
        pid_name("0xA05D"@) == "SmartSolar MPPT 250|60"@,
        pid_name("0xA05E"@) == "SmartSolar MPPT 250|45"@,
        pid_name("0xA05F"@) == "SmartSolar MPPT 100|20"@,
        pid_name("0xA060"@) == "SmartSolar MPPT 100|20 48V"@,
        pid_name("0xA061"@) == "SmartSolar MPPT 150|45"@,
        pid_name("0xA062"@) == "SmartSolar MPPT 150|60"@,
        pid_name("0xA063"@) == "SmartSolar MPPT 150|70"@,
        pid_name("0xA064"@) == "SmartSolar MPPT 250|85 rev2"@,
        pid_name("0xA065"@) == "SmartSolar MPPT 250|100 rev2"@,
        pid_name("0xA102"@) == "SmartSolar MPPT VE.Can 150/70"@,
        pid_name("0xA103"@) == "SmartSolar MPPT VE.Can 150/45"@,
        pid_name("0xA104"@) == "SmartSolar MPPT VE.Can 150/60"@,
        pid_name("0xA105"@) == "SmartSolar MPPT VE.Can 150/85"@,
        pid_name("0xA106"@) == "SmartSolar MPPT VE.Can 150/100"@,
        pid_name("0xA107"@) == "SmartSolar MPPT VE.Can 250/45"@,
        pid_name("0xA108"@) == "SmartSolar MPPT VE.Can 250/60"@,
        pid_name("0xA109"@) == "SmartSolar MPPT VE.Can 250/70"@,
        pid_name("0xA10A"@) == "SmartSolar MPPT VE.Can 250/85"@,
        pid_name("0xA10B"@) == "SmartSolar MPPT VE.Can 250/100"@,
        pid_name("0xA201"@) == "Phoenix Inverter 12V 250VA 230V"@,
        pid_name("0xA202"@) == "Phoenix Inverter 24V 250VA 230V"@,
        pid_name("0xA204"@) == "Phoenix Inverter 48V 250VA 230V"@,
        pid_name("0xA211"@) == "Phoenix Inverter 12V 375VA 230V"@,
        pid_name("0xA212"@) == "Phoenix Inverter 24V 375VA 230V"@,
        pid_name("0xA214"@) == "Phoenix Inverter 48V 375VA 230V"@,
        pid_name("0xA221"@) == "Phoenix Inverter 12V 500VA 230V"@,
        pid_name("0xA222"@) == "Phoenix Inverter 24V 500VA 230V"@,
        pid_name("0xA224"@) == "Phoenix Inverter 48V 500VA 230V"@,
        pid_name("0xA231"@) == "Phoenix Inverter 12V 250VA 230V"@,
        pid_name("0xA232"@) == "Phoenix Inverter 24V 250VA 230V"@,
        pid_name("0xA234"@) == "Phoenix Inverter 48V 250VA 230V"@,
        pid_name("0xA239"@) == "Phoenix Inverter 12V 250VA 120V"@,
        pid_name("0xA23A"@) == "Phoenix Inverter 24V 250VA 120V"@,
        pid_name("0xA23C"@) == "Phoenix Inverter 48V 250VA 120V"@,
        pid_name("0xA241"@) == "Phoenix Inverter 12V 375VA 230V"@,
        pid_name("0xA242"@) == "Phoenix Inverter 24V 375VA 230V"@,
        pid_name("0xA244"@) == "Phoenix Inverter 48V 375VA 230V"@,
        pid_name("0xA249"@) == "Phoenix Inverter 12V 375VA 120V"@,
        pid_name("0xA24A"@) == "Phoenix Inverter 24V 375VA 120V"@,
        pid_name("0xA24C"@) == "Phoenix Inverter 48V 375VA 120V"@,
        pid_name("0xA251"@) == "Phoenix Inverter 12V 500VA 230V"@,
        pid_name("0xA252"@) == "Phoenix Inverter 24V 500VA 230V"@,
        pid_name("0xA254"@) == "Phoenix Inverter 48V 500VA 230V"@,
        pid_name("0xA259"@) == "Phoenix Inverter 12V 500VA 120V"@,
        pid_name("0xA25A"@) == "Phoenix Inverter 24V 500VA 120V"@,
        pid_name("0xA25C"@) == "Phoenix Inverter 48V 500VA 120V"@,
        pid_name("0xA261"@) == "Phoenix Inverter 12V 800VA 230V"@,
        pid_name("0xA262"@) == "Phoenix Inverter 24V 800VA 230V"@,
        pid_name("0xA264"@) == "Phoenix Inverter 48V 800VA 230V"@,
        pid_name("0xA269"@) == "Phoenix Inverter 12V 800VA 120V"@,
        pid_name("0xA26A"@) == "Phoenix Inverter 24V 800VA 120V"@,
        pid_name("0xA26C"@) == "Phoenix Inverter 48V 800VA 120V"@,
        pid_name("0xA271"@) == "Phoenix Inverter 12V 1200VA 230V"@,
        pid_name("0xA272"@) == "Phoenix Inverter 24V 1200VA 230V"@,
        pid_name("0xA274"@) == "Phoenix Inverter 48V 1200VA 230V"@,
        pid_name("0xA279"@) == "Phoenix Inverter 12V 1200VA 120V"@,
        pid_name("0xA27A"@) == "Phoenix Inverter 24V 1200VA 120V"@,
        pid_name("0xA27C"@) == "Phoenix Inverter 48V 1200VA 120V"@,
        pid_name("0xA281"@) == "Phoenix Inverter 12V 1600VA 230V"@,
        pid_name("0xA282"@) == "Phoenix Inverter 24V 1600VA 230V"@,
        pid_name("0xA284"@) == "Phoenix Inverter 48V 1600VA 230V"@,
        pid_name("0xA291"@) == "Phoenix Inverter 12V 2000VA 230V"@,
        pid_name("0xA292"@) == "Phoenix Inverter 24V 2000VA 230V"@,
        pid_name("0xA294"@) == "Phoenix Inverter 48V 2000VA 230V"@,
        pid_name("0xA2A1"@) == "Phoenix Inverter 12V 3000VA 230V"@,
        pid_name("0xA2A2"@) == "Phoenix Inverter 24V 3000VA 230V"@,
        pid_name("0xA2A4"@) == "Phoenix Inverter 48V 3000VA 230V"@,
        pid_name("0xA340"@) == "Phoenix Smart IP43 Charger 12|50 (1+1)"@,
        pid_name("0xA341"@) == "Phoenix Smart IP43 Charger 12|50 (3)"@,
        pid_name("0xA342"@) == "Phoenix Smart IP43 Charger 24|25 (1+1)"@,
        pid_name("0xA343"@) == "Phoenix Smart IP43 Charger 24|25 (3)"@,
        pid_name("0xA344"@) == "Phoenix Smart IP43 Charger 12|30 (1+1)"@,
        pid_name("0xA345"@) == "Phoenix Smart IP43 Charger 12|30 (3)"@,
        pid_name("0xA346"@) == "Phoenix Smart IP43 Charger 24|16 (1+1)"@,
        pid_name("0xA347"@) == "Phoenix Smart IP43 Charger 24|16 (3)"@,
{
    reveal_strlit("0x203");
    assert("0x203"@.len() == 5 && "0x203"@[0] == '0' && "0x203"@[1] == 'x' && "0x203"@[2] == '2' && "0x203"@[3] == '0' && "0x203"@[4] == '3');
    reveal_strlit("0x204");
    assert("0x204"@.len() == 5 && "0x204"@[0] == '0' && "0x204"@[1] == 'x' && "0x204"@[2] == '2' && "0x204"@[3] == '0' && "0x204"@[4] == '4');
    reveal_strlit("0x205");
    assert("0x205"@.len() == 5 && "0x205"@[0] == '0' && "0x205"@[1] == 'x' && "0x205"@[2] == '2' && "0x205"@[3] == '0' && "0x205"@[4] == '5');
    reveal_strlit("0x0300");
    assert("0x0300"@.len() == 6 && "0x0300"@[0] == '0' && "0x0300"@[1] == 'x' && "0x0300"@[2] == '0' && "0x0300"@[3] == '3' && "0x0300"@[4] == '0' && "0x0300"@[5] == '0');
    reveal_strlit("0xA040");
    assert("0xA040"@.len() == 6 && "0xA040"@[0] == '0' && "0xA040"@[1] == 'x' && "0xA040"@[2] == 'A' && "0xA040"@[3] == '0' && "0xA040"@[4] == '4' && "0xA040"@[5] == '0');
    reveal_strlit("0xA041");
    assert("0xA041"@.len() == 6 && "0xA041"@[0] == '0' && "0xA041"@[1] == 'x' && "0xA041"@[2] == 'A' && "0xA041"@[3] == '0' && "0xA041"@[4] == '4' && "0xA041"@[5] == '1');
    reveal_strlit("0xA042");
    assert("0xA042"@.len() == 6 && "0xA042"@[0] == '0' && "0xA042"@[1] == 'x' && "0xA042"@[2] == 'A' && "0xA042"@[3] == '0' && "0xA042"@[4] == '4' && "0xA042"@[5] == '2');
    reveal_strlit("0xA043");
    assert("0xA043"@.len() == 6 && "0xA043"@[0] == '0' && "0xA043"@[1] == 'x' && "0xA043"@[2] == 'A' && "0xA043"@[3] == '0' && "0xA043"@[4] == '4' && "0xA043"@[5] == '3');
    reveal_strlit("0xA044");
    assert("0xA044"@.len() == 6 && "0xA044"@[0] == '0' && "0xA044"@[1] == 'x' && "0xA044"@[2] == 'A' && "0xA044"@[3] == '0' && "0xA044"@[4] == '4' && "0xA044"@[5] == '4');
    reveal_strlit("0xA045");
    assert("0xA045"@.len() == 6 && "0xA045"@[0] == '0' && "0xA045"@[1] == 'x' && "0xA045"@[2] == 'A' && "0xA045"@[3] == '0' && "0xA045"@[4] == '4' && "0xA045"@[5] == '5');
    reveal_strlit("0xA046");
    assert("0xA046"@.len() == 6 && "0xA046"@[0] == '0' && "0xA046"@[1] == 'x' && "0xA046"@[2] == 'A' && "0xA046"@[3] == '0' && "0xA046"@[4] == '4' && "0xA046"@[5] == '6');
    reveal_strlit("0xA047");
    assert("0xA047"@.len() == 6 && "0xA047"@[0] == '0' && "0xA047"@[1] == 'x' && "0xA047"@[2] == 'A' && "0xA047"@[3] == '0' && "0xA047"@[4] == '4' && "0xA047"@[5] == '7');
    reveal_strlit("0xA049");
    assert("0xA049"@.len() == 6 && "0xA049"@[0] == '0' && "0xA049"@[1] == 'x' && "0xA049"@[2] == 'A' && "0xA049"@[3] == '0' && "0xA049"@[4] == '4' && "0xA049"@[5] == '9');
    reveal_strlit("0xA04A");
    assert("0xA04A"@.len() == 6 && "0xA04A"@[0] == '0' && "0xA04A"@[1] == 'x' && "0xA04A"@[2] == 'A' && "0xA04A"@[3] == '0' && "0xA04A"@[4] == '4' && "0xA04A"@[5] == 'A');
    reveal_strlit("0xA04B");
    assert("0xA04B"@.len() == 6 && "0xA04B"@[0] == '0' && "0xA04B"@[1] == 'x' && "0xA04B"@[2] == 'A' && "0xA04B"@[3] == '0' && "0xA04B"@[4] == '4' && "0xA04B"@[5] == 'B');
    reveal_strlit("0xA04C");
    assert("0xA04C"@.len() == 6 && "0xA04C"@[0] == '0' && "0xA04C"@[1] == 'x' && "0xA04C"@[2] == 'A' && "0xA04C"@[3] == '0' && "0xA04C"@[4] == '4' && "0xA04C"@[5] == 'C');
    reveal_strlit("0xA04D");
    assert("0xA04D"@.len() == 6 && "0xA04D"@[0] == '0' && "0xA04D"@[1] == 'x' && "0xA04D"@[2] == 'A' && "0xA04D"@[3] == '0' && "0xA04D"@[4] == '4' && "0xA04D"@[5] == 'D');
    reveal_strlit("0xA04E");
    assert("0xA04E"@.len() == 6 && "0xA04E"@[0] == '0' && "0xA04E"@[1] == 'x' && "0xA04E"@[2] == 'A' && "0xA04E"@[3] == '0' && "0xA04E"@[4] == '4' && "0xA04E"@[5] == 'E');
    reveal_strlit("0xA04F");
    assert("0xA04F"@.len() == 6 && "0xA04F"@[0] == '0' && "0xA04F"@[1] == 'x' && "0xA04F"@[2] == 'A' && "0xA04F"@[3] == '0' && "0xA04F"@[4] == '4' && "0xA04F"@[5] == 'F');
    reveal_strlit("0xA050");
    assert("0xA050"@.len() == 6 && "0xA050"@[0] == '0' && "0xA050"@[1] == 'x' && "0xA050"@[2] == 'A' && "0xA050"@[3] == '0' && "0xA050"@[4] == '5' && "0xA050"@[5] == '0');
    reveal_strlit("0xA051");
    assert("0xA051"@.len() == 6 && "0xA051"@[0] == '0' && "0xA051"@[1] == 'x' && "0xA051"@[2] == 'A' && "0xA051"@[3] == '0' && "0xA051"@[4] == '5' && "0xA051"@[5] == '1');
    reveal_strlit("0xA052");
    assert("0xA052"@.len() == 6 && "0xA052"@[0] == '0' && "0xA052"@[1] == 'x' && "0xA052"@[2] == 'A' && "0xA052"@[3] == '0' && "0xA052"@[4] == '5' && "0xA052"@[5] == '2');
    reveal_strlit("0xA053");
    assert("0xA053"@.len() == 6 && "0xA053"@[0] == '0' && "0xA053"@[1] == 'x' && "0xA053"@[2] == 'A' && "0xA053"@[3] == '0' && "0xA053"@[4] == '5' && "0xA053"@[5] == '3');
    reveal_strlit("0xA054");
    assert("0xA054"@.len() == 6 && "0xA054"@[0] == '0' && "0xA054"@[1] == 'x' && "0xA054"@[2] == 'A' && "0xA054"@[3] == '0' && "0xA054"@[4] == '5' && "0xA054"@[5] == '4');
    reveal_strlit("0xA055");
    assert("0xA055"@.len() == 6 && "0xA055"@[0] == '0' && "0xA055"@[1] == 'x' && "0xA055"@[2] == 'A' && "0xA055"@[3] == '0' && "0xA055"@[4] == '5' && "0xA055"@[5] == '5');
    reveal_strlit("0xA056");
    assert("0xA056"@.len() == 6 && "0xA056"@[0] == '0' && "0xA056"@[1] == 'x' && "0xA056"@[2] == 'A' && "0xA056"@[3] == '0' && "0xA056"@[4] == '5' && "0xA056"@[5] == '6');
    reveal_strlit("0xA057");
    assert("0xA057"@.len() == 6 && "0xA057"@[0] == '0' && "0xA057"@[1] == 'x' && "0xA057"@[2] == 'A' && "0xA057"@[3] == '0' && "0xA057"@[4] == '5' && "0xA057"@[5] == '7');
    reveal_strlit("0xA058");
    assert("0xA058"@.len() == 6 && "0xA058"@[0] == '0' && "0xA058"@[1] == 'x' && "0xA058"@[2] == 'A' && "0xA058"@[3] == '0' && "0xA058"@[4] == '5' && "0xA058"@[5] == '8');
    reveal_strlit("0xA059");
    assert("0xA059"@.len() == 6 && "0xA059"@[0] == '0' && "0xA059"@[1] == 'x' && "0xA059"@[2] == 'A' && "0xA059"@[3] == '0' && "0xA059"@[4] == '5' && "0xA059"@[5] == '9');
    reveal_strlit("0xA05A");
    assert("0xA05A"@.len() == 6 && "0xA05A"@[0] == '0' && "0xA05A"@[1] == 'x' && "0xA05A"@[2] == 'A' && "0xA05A"@[3] == '0' && "0xA05A"@[4] == '5' && "0xA05A"@[5] == 'A');
    reveal_strlit("0xA05B");
    assert("0xA05B"@.len() == 6 && "0xA05B"@[0] == '0' && "0xA05B"@[1] == 'x' && "0xA05B"@[2] == 'A' && "0xA05B"@[3] == '0' && "0xA05B"@[4] == '5' && "0xA05B"@[5] == 'B');
    reveal_strlit("0xA05C");
    assert("0xA05C"@.len() == 6 && "0xA05C"@[0] == '0' && "0xA05C"@[1] == 'x' && "0xA05C"@[2] == 'A' && "0xA05C"@[3] == '0' && "0xA05C"@[4] == '5' && "0xA05C"@[5] == 'C');
    reveal_strlit("0xA05D");
    assert("0xA05D"@.len() == 6 && "0xA05D"@[0] == '0' && "0xA05D"@[1] == 'x' && "0xA05D"@[2] == 'A' && "0xA05D"@[3] == '0' && "0xA05D"@[4] == '5' && "0xA05D"@[5] == 'D');
    reveal_strlit("0xA05E");
    assert("0xA05E"@.len() == 6 && "0xA05E"@[0] == '0' && "0xA05E"@[1] == 'x' && "0xA05E"@[2] == 'A' && "0xA05E"@[3] == '0' && "0xA05E"@[4] == '5' && "0xA05E"@[5] == 'E');
    reveal_strlit("0xA05F");
    assert("0xA05F"@.len() == 6 && "0xA05F"@[0] == '0' && "0xA05F"@[1] == 'x' && "0xA05F"@[2] == 'A' && "0xA05F"@[3] == '0' && "0xA05F"@[4] == '5' && "0xA05F"@[5] == 'F');
    reveal_strlit("0xA060");
    assert("0xA060"@.len() == 6 && "0xA060"@[0] == '0' && "0xA060"@[1] == 'x' && "0xA060"@[2] == 'A' && "0xA060"@[3] == '0' && "0xA060"@[4] == '6' && "0xA060"@[5] == '0');
    reveal_strlit("0xA061");
    assert("0xA061"@.len() == 6 && "0xA061"@[0] == '0' && "0xA061"@[1] == 'x' && "0xA061"@[2] == 'A' && "0xA061"@[3] == '0' && "0xA061"@[4] == '6' && "0xA061"@[5] == '1');
    reveal_strlit("0xA062");
    assert("0xA062"@.len() == 6 && "0xA062"@[0] == '0' && "0xA062"@[1] == 'x' && "0xA062"@[2] == 'A' && "0xA062"@[3] == '0' && "0xA062"@[4] == '6' && "0xA062"@[5] == '2');
    reveal_strlit("0xA063");
    assert("0xA063"@.len() == 6 && "0xA063"@[0] == '0' && "0xA063"@[1] == 'x' && "0xA063"@[2] == 'A' && "0xA063"@[3] == '0' && "0xA063"@[4] == '6' && "0xA063"@[5] == '3');
    reveal_strlit("0xA064");
    assert("0xA064"@.len() == 6 && "0xA064"@[0] == '0' && "0xA064"@[1] == 'x' && "0xA064"@[2] == 'A' && "0xA064"@[3] == '0' && "0xA064"@[4] == '6' && "0xA064"@[5] == '4');
    reveal_strlit("0xA065");
    assert("0xA065"@.len() == 6 && "0xA065"@[0] == '0' && "0xA065"@[1] == 'x' && "0xA065"@[2] == 'A' && "0xA065"@[3] == '0' && "0xA065"@[4] == '6' && "0xA065"@[5] == '5');
    reveal_strlit("0xA102");
    assert("0xA102"@.len() == 6 && "0xA102"@[0] == '0' && "0xA102"@[1] == 'x' && "0xA102"@[2] == 'A' && "0xA102"@[3] == '1' && "0xA102"@[4] == '0' && "0xA102"@[5] == '2');
    reveal_strlit("0xA103");
    assert("0xA103"@.len() == 6 && "0xA103"@[0] == '0' && "0xA103"@[1] == 'x' && "0xA103"@[2] == 'A' && "0xA103"@[3] == '1' && "0xA103"@[4] == '0' && "0xA103"@[5] == '3');
    reveal_strlit("0xA104");
    assert("0xA104"@.len() == 6 && "0xA104"@[0] == '0' && "0xA104"@[1] == 'x' && "0xA104"@[2] == 'A' && "0xA104"@[3] == '1' && "0xA104"@[4] == '0' && "0xA104"@[5] == '4');
    reveal_strlit("0xA105");
    assert("0xA105"@.len() == 6 && "0xA105"@[0] == '0' && "0xA105"@[1] == 'x' && "0xA105"@[2] == 'A' && "0xA105"@[3] == '1' && "0xA105"@[4] == '0' && "0xA105"@[5] == '5');
    reveal_strlit("0xA106");
    assert("0xA106"@.len() == 6 && "0xA106"@[0] == '0' && "0xA106"@[1] == 'x' && "0xA106"@[2] == 'A' && "0xA106"@[3] == '1' && "0xA106"@[4] == '0' && "0xA106"@[5] == '6');
    reveal_strlit("0xA107");
    assert("0xA107"@.len() == 6 && "0xA107"@[0] == '0' && "0xA107"@[1] == 'x' && "0xA107"@[2] == 'A' && "0xA107"@[3] == '1' && "0xA107"@[4] == '0' && "0xA107"@[5] == '7');
    reveal_strlit("0xA108");
    assert("0xA108"@.len() == 6 && "0xA108"@[0] == '0' && "0xA108"@[1] == 'x' && "0xA108"@[2] == 'A' && "0xA108"@[3] == '1' && "0xA108"@[4] == '0' && "0xA108"@[5] == '8');
    reveal_strlit("0xA109");
    assert("0xA109"@.len() == 6 && "0xA109"@[0] == '0' && "0xA109"@[1] == 'x' && "0xA109"@[2] == 'A' && "0xA109"@[3] == '1' && "0xA109"@[4] == '0' && "0xA109"@[5] == '9');
    reveal_strlit("0xA10A");
    assert("0xA10A"@.len() == 6 && "0xA10A"@[0] == '0' && "0xA10A"@[1] == 'x' && "0xA10A"@[2] == 'A' && "0xA10A"@[3] == '1' && "0xA10A"@[4] == '0' && "0xA10A"@[5] == 'A');
    reveal_strlit("0xA10B");
    assert("0xA10B"@.len() == 6 && "0xA10B"@[0] == '0' && "0xA10B"@[1] == 'x' && "0xA10B"@[2] == 'A' && "0xA10B"@[3] == '1' && "0xA10B"@[4] == '0' && "0xA10B"@[5] == 'B');
    reveal_strlit("0xA201");
    assert("0xA201"@.len() == 6 && "0xA201"@[0] == '0' && "0xA201"@[1] == 'x' && "0xA201"@[2] == 'A' && "0xA201"@[3] == '2' && "0xA201"@[4] == '0' && "0xA201"@[5] == '1');
    reveal_strlit("0xA202");
    assert("0xA202"@.len() == 6 && "0xA202"@[0] == '0' && "0xA202"@[1] == 'x' && "0xA202"@[2] == 'A' && "0xA202"@[3] == '2' && "0xA202"@[4] == '0' && "0xA202"@[5] == '2');
    reveal_strlit("0xA204");
    assert("0xA204"@.len() == 6 && "0xA204"@[0] == '0' && "0xA204"@[1] == 'x' && "0xA204"@[2] == 'A' && "0xA204"@[3] == '2' && "0xA204"@[4] == '0' && "0xA204"@[5] == '4');
    reveal_strlit("0xA211");
    assert("0xA211"@.len() == 6 && "0xA211"@[0] == '0' && "0xA211"@[1] == 'x' && "0xA211"@[2] == 'A' && "0xA211"@[3] == '2' && "0xA211"@[4] == '1' && "0xA211"@[5] == '1');
    reveal_strlit("0xA212");
    assert("0xA212"@.len() == 6 && "0xA212"@[0] == '0' && "0xA212"@[1] == 'x' && "0xA212"@[2] == 'A' && "0xA212"@[3] == '2' && "0xA212"@[4] == '1' && "0xA212"@[5] == '2');
    reveal_strlit("0xA214");
    assert("0xA214"@.len() == 6 && "0xA214"@[0] == '0' && "0xA214"@[1] == 'x' && "0xA214"@[2] == 'A' && "0xA214"@[3] == '2' && "0xA214"@[4] == '1' && "0xA214"@[5] == '4');
    reveal_strlit("0xA221");
    assert("0xA221"@.len() == 6 && "0xA221"@[0] == '0' && "0xA221"@[1] == 'x' && "0xA221"@[2] == 'A' && "0xA221"@[3] == '2' && "0xA221"@[4] == '2' && "0xA221"@[5] == '1');
    reveal_strlit("0xA222");
    assert("0xA222"@.len() == 6 && "0xA222"@[0] == '0' && "0xA222"@[1] == 'x' && "0xA222"@[2] == 'A' && "0xA222"@[3] == '2' && "0xA222"@[4] == '2' && "0xA222"@[5] == '2');
    reveal_strlit("0xA224");
    assert("0xA224"@.len() == 6 && "0xA224"@[0] == '0' && "0xA224"@[1] == 'x' && "0xA224"@[2] == 'A' && "0xA224"@[3] == '2' && "0xA224"@[4] == '2' && "0xA224"@[5] == '4');
    reveal_strlit("0xA231");
    assert("0xA231"@.len() == 6 && "0xA231"@[0] == '0' && "0xA231"@[1] == 'x' && "0xA231"@[2] == 'A' && "0xA231"@[3] == '2' && "0xA231"@[4] == '3' && "0xA231"@[5] == '1');
    reveal_strlit("0xA232");
    assert("0xA232"@.len() == 6 && "0xA232"@[0] == '0' && "0xA232"@[1] == 'x' && "0xA232"@[2] == 'A' && "0xA232"@[3] == '2' && "0xA232"@[4] == '3' && "0xA232"@[5] == '2');
    reveal_strlit("0xA234");
    assert("0xA234"@.len() == 6 && "0xA234"@[0] == '0' && "0xA234"@[1] == 'x' && "0xA234"@[2] == 'A' && "0xA234"@[3] == '2' && "0xA234"@[4] == '3' && "0xA234"@[5] == '4');
    reveal_strlit("0xA239");
    assert("0xA239"@.len() == 6 && "0xA239"@[0] == '0' && "0xA239"@[1] == 'x' && "0xA239"@[2] == 'A' && "0xA239"@[3] == '2' && "0xA239"@[4] == '3' && "0xA239"@[5] == '9');
    reveal_strlit("0xA23A");
    assert("0xA23A"@.len() == 6 && "0xA23A"@[0] == '0' && "0xA23A"@[1] == 'x' && "0xA23A"@[2] == 'A' && "0xA23A"@[3] == '2' && "0xA23A"@[4] == '3' && "0xA23A"@[5] == 'A');
    reveal_strlit("0xA23C");
    assert("0xA23C"@.len() == 6 && "0xA23C"@[0] == '0' && "0xA23C"@[1] == 'x' && "0xA23C"@[2] == 'A' && "0xA23C"@[3] == '2' && "0xA23C"@[4] == '3' && "0xA23C"@[5] == 'C');
    reveal_strlit("0xA241");
    assert("0xA241"@.len() == 6 && "0xA241"@[0] == '0' && "0xA241"@[1] == 'x' && "0xA241"@[2] == 'A' && "0xA241"@[3] == '2' && "0xA241"@[4] == '4' && "0xA241"@[5] == '1');
    reveal_strlit("0xA242");
    assert("0xA242"@.len() == 6 && "0xA242"@[0] == '0' && "0xA242"@[1] == 'x' && "0xA242"@[2] == 'A' && "0xA242"@[3] == '2' && "0xA242"@[4] == '4' && "0xA242"@[5] == '2');
    reveal_strlit("0xA244");
    assert("0xA244"@.len() == 6 && "0xA244"@[0] == '0' && "0xA244"@[1] == 'x' && "0xA244"@[2] == 'A' && "0xA244"@[3] == '2' && "0xA244"@[4] == '4' && "0xA244"@[5] == '4');
    reveal_strlit("0xA249");
    assert("0xA249"@.len() == 6 && "0xA249"@[0] == '0' && "0xA249"@[1] == 'x' && "0xA249"@[2] == 'A' && "0xA249"@[3] == '2' && "0xA249"@[4] == '4' && "0xA249"@[5] == '9');
    reveal_strlit("0xA24A");
    assert("0xA24A"@.len() == 6 && "0xA24A"@[0] == '0' && "0xA24A"@[1] == 'x' && "0xA24A"@[2] == 'A' && "0xA24A"@[3] == '2' && "0xA24A"@[4] == '4' && "0xA24A"@[5] == 'A');
    reveal_strlit("0xA24C");
    assert("0xA24C"@.len() == 6 && "0xA24C"@[0] == '0' && "0xA24C"@[1] == 'x' && "0xA24C"@[2] == 'A' && "0xA24C"@[3] == '2' && "0xA24C"@[4] == '4' && "0xA24C"@[5] == 'C');
    reveal_strlit("0xA251");
    assert("0xA251"@.len() == 6 && "0xA251"@[0] == '0' && "0xA251"@[1] == 'x' && "0xA251"@[2] == 'A' && "0xA251"@[3] == '2' && "0xA251"@[4] == '5' && "0xA251"@[5] == '1');
    reveal_strlit("0xA252");
    assert("0xA252"@.len() == 6 && "0xA252"@[0] == '0' && "0xA252"@[1] == 'x' && "0xA252"@[2] == 'A' && "0xA252"@[3] == '2' && "0xA252"@[4] == '5' && "0xA252"@[5] == '2');
    reveal_strlit("0xA254");
    assert("0xA254"@.len() == 6 && "0xA254"@[0] == '0' && "0xA254"@[1] == 'x' && "0xA254"@[2] == 'A' && "0xA254"@[3] == '2' && "0xA254"@[4] == '5' && "0xA254"@[5] == '4');
    reveal_strlit("0xA259");
    assert("0xA259"@.len() == 6 && "0xA259"@[0] == '0' && "0xA259"@[1] == 'x' && "0xA259"@[2] == 'A' && "0xA259"@[3] == '2' && "0xA259"@[4] == '5' && "0xA259"@[5] == '9');
    reveal_strlit("0xA25A");
    assert("0xA25A"@.len() == 6 && "0xA25A"@[0] == '0' && "0xA25A"@[1] == 'x' && "0xA25A"@[2] == 'A' && "0xA25A"@[3] == '2' && "0xA25A"@[4] == '5' && "0xA25A"@[5] == 'A');
    reveal_strlit("0xA25C");
    assert("0xA25C"@.len() == 6 && "0xA25C"@[0] == '0' && "0xA25C"@[1] == 'x' && "0xA25C"@[2] == 'A' && "0xA25C"@[3] == '2' && "0xA25C"@[4] == '5' && "0xA25C"@[5] == 'C');
    reveal_strlit("0xA261");
    assert("0xA261"@.len() == 6 && "0xA261"@[0] == '0' && "0xA261"@[1] == 'x' && "0xA261"@[2] == 'A' && "0xA261"@[3] == '2' && "0xA261"@[4] == '6' && "0xA261"@[5] == '1');
    reveal_strlit("0xA262");
    assert("0xA262"@.len() == 6 && "0xA262"@[0] == '0' && "0xA262"@[1] == 'x' && "0xA262"@[2] == 'A' && "0xA262"@[3] == '2' && "0xA262"@[4] == '6' && "0xA262"@[5] == '2');
    reveal_strlit("0xA264");
    assert("0xA264"@.len() == 6 && "0xA264"@[0] == '0' && "0xA264"@[1] == 'x' && "0xA264"@[2] == 'A' && "0xA264"@[3] == '2' && "0xA264"@[4] == '6' && "0xA264"@[5] == '4');
    reveal_strlit("0xA269");
    assert("0xA269"@.len() == 6 && "0xA269"@[0] == '0' && "0xA269"@[1] == 'x' && "0xA269"@[2] == 'A' && "0xA269"@[3] == '2' && "0xA269"@[4] == '6' && "0xA269"@[5] == '9');
    reveal_strlit("0xA26A");
    assert("0xA26A"@.len() == 6 && "0xA26A"@[0] == '0' && "0xA26A"@[1] == 'x' && "0xA26A"@[2] == 'A' && "0xA26A"@[3] == '2' && "0xA26A"@[4] == '6' && "0xA26A"@[5] == 'A');
    reveal_strlit("0xA26C");
    assert("0xA26C"@.len() == 6 && "0xA26C"@[0] == '0' && "0xA26C"@[1] == 'x' && "0xA26C"@[2] == 'A' && "0xA26C"@[3] == '2' && "0xA26C"@[4] == '6' && "0xA26C"@[5] == 'C');
    reveal_strlit("0xA271");
    assert("0xA271"@.len() == 6 && "0xA271"@[0] == '0' && "0xA271"@[1] == 'x' && "0xA271"@[2] == 'A' && "0xA271"@[3] == '2' && "0xA271"@[4] == '7' && "0xA271"@[5] == '1');
    reveal_strlit("0xA272");
    assert("0xA272"@.len() == 6 && "0xA272"@[0] == '0' && "0xA272"@[1] == 'x' && "0xA272"@[2] == 'A' && "0xA272"@[3] == '2' && "0xA272"@[4] == '7' && "0xA272"@[5] == '2');
    reveal_strlit("0xA274");
    assert("0xA274"@.len() == 6 && "0xA274"@[0] == '0' && "0xA274"@[1] == 'x' && "0xA274"@[2] == 'A' && "0xA274"@[3] == '2' && "0xA274"@[4] == '7' && "0xA274"@[5] == '4');
    reveal_strlit("0xA279");
    assert("0xA279"@.len() == 6 && "0xA279"@[0] == '0' && "0xA279"@[1] == 'x' && "0xA279"@[2] == 'A' && "0xA279"@[3] == '2' && "0xA279"@[4] == '7' && "0xA279"@[5] == '9');
    reveal_strlit("0xA27A");
    assert("0xA27A"@.len() == 6 && "0xA27A"@[0] == '0' && "0xA27A"@[1] == 'x' && "0xA27A"@[2] == 'A' && "0xA27A"@[3] == '2' && "0xA27A"@[4] == '7' && "0xA27A"@[5] == 'A');
    reveal_strlit("0xA27C");
    assert("0xA27C"@.len() == 6 && "0xA27C"@[0] == '0' && "0xA27C"@[1] == 'x' && "0xA27C"@[2] == 'A' && "0xA27C"@[3] == '2' && "0xA27C"@[4] == '7' && "0xA27C"@[5] == 'C');
    reveal_strlit("0xA281");
    assert("0xA281"@.len() == 6 && "0xA281"@[0] == '0' && "0xA281"@[1] == 'x' && "0xA281"@[2] == 'A' && "0xA281"@[3] == '2' && "0xA281"@[4] == '8' && "0xA281"@[5] == '1');
    reveal_strlit("0xA282");
    assert("0xA282"@.len() == 6 && "0xA282"@[0] == '0' && "0xA282"@[1] == 'x' && "0xA282"@[2] == 'A' && "0xA282"@[3] == '2' && "0xA282"@[4] == '8' && "0xA282"@[5] == '2');
    reveal_strlit("0xA284");
    assert("0xA284"@.len() == 6 && "0xA284"@[0] == '0' && "0xA284"@[1] == 'x' && "0xA284"@[2] == 'A' && "0xA284"@[3] == '2' && "0xA284"@[4] == '8' && "0xA284"@[5] == '4');
    reveal_strlit("0xA291");
    assert("0xA291"@.len() == 6 && "0xA291"@[0] == '0' && "0xA291"@[1] == 'x' && "0xA291"@[2] == 'A' && "0xA291"@[3] == '2' && "0xA291"@[4] == '9' && "0xA291"@[5] == '1');
    reveal_strlit("0xA292");
    assert("0xA292"@.len() == 6 && "0xA292"@[0] == '0' && "0xA292"@[1] == 'x' && "0xA292"@[2] == 'A' && "0xA292"@[3] == '2' && "0xA292"@[4] == '9' && "0xA292"@[5] == '2');
    reveal_strlit("0xA294");
    assert("0xA294"@.len() == 6 && "0xA294"@[0] == '0' && "0xA294"@[1] == 'x' && "0xA294"@[2] == 'A' && "0xA294"@[3] == '2' && "0xA294"@[4] == '9' && "0xA294"@[5] == '4');
    reveal_strlit("0xA2A1");
    assert("0xA2A1"@.len() == 6 && "0xA2A1"@[0] == '0' && "0xA2A1"@[1] == 'x' && "0xA2A1"@[2] == 'A' && "0xA2A1"@[3] == '2' && "0xA2A1"@[4] == 'A' && "0xA2A1"@[5] == '1');
    reveal_strlit("0xA2A2");
    assert("0xA2A2"@.len() == 6 && "0xA2A2"@[0] == '0' && "0xA2A2"@[1] == 'x' && "0xA2A2"@[2] == 'A' && "0xA2A2"@[3] == '2' && "0xA2A2"@[4] == 'A' && "0xA2A2"@[5] == '2');
    reveal_strlit("0xA2A4");
    assert("0xA2A4"@.len() == 6 && "0xA2A4"@[0] == '0' && "0xA2A4"@[1] == 'x' && "0xA2A4"@[2] == 'A' && "0xA2A4"@[3] == '2' && "0xA2A4"@[4] == 'A' && "0xA2A4"@[5] == '4');
    reveal_strlit("0xA340");
    assert("0xA340"@.len() == 6 && "0xA340"@[0] == '0' && "0xA340"@[1] == 'x' && "0xA340"@[2] == 'A' && "0xA340"@[3] == '3' && "0xA340"@[4] == '4' && "0xA340"@[5] == '0');
    reveal_strlit("0xA341");
    assert("0xA341"@.len() == 6 && "0xA341"@[0] == '0' && "0xA341"@[1] == 'x' && "0xA341"@[2] == 'A' && "0xA341"@[3] == '3' && "0xA341"@[4] == '4' && "0xA341"@[5] == '1');
    reveal_strlit("0xA342");
    assert("0xA342"@.len() == 6 && "0xA342"@[0] == '0' && "0xA342"@[1] == 'x' && "0xA342"@[2] == 'A' && "0xA342"@[3] == '3' && "0xA342"@[4] == '4' && "0xA342"@[5] == '2');
    reveal_strlit("0xA343");
    assert("0xA343"@.len() == 6 && "0xA343"@[0] == '0' && "0xA343"@[1] == 'x' && "0xA343"@[2] == 'A' && "0xA343"@[3] == '3' && "0xA343"@[4] == '4' && "0xA343"@[5] == '3');
    reveal_strlit("0xA344");
    assert("0xA344"@.len() == 6 && "0xA344"@[0] == '0' && "0xA344"@[1] == 'x' && "0xA344"@[2] == 'A' && "0xA344"@[3] == '3' && "0xA344"@[4] == '4' && "0xA344"@[5] == '4');
    reveal_strlit("0xA345");
    assert("0xA345"@.len() == 6 && "0xA345"@[0] == '0' && "0xA345"@[1] == 'x' && "0xA345"@[2] == 'A' && "0xA345"@[3] == '3' && "0xA345"@[4] == '4' && "0xA345"@[5] == '5');
    reveal_strlit("0xA346");
    assert("0xA346"@.len() == 6 && "0xA346"@[0] == '0' && "0xA346"@[1] == 'x' && "0xA346"@[2] == 'A' && "0xA346"@[3] == '3' && "0xA346"@[4] == '4' && "0xA346"@[5] == '6');
    reveal_strlit("0xA347");
    assert("0xA347"@.len() == 6 && "0xA347"@[0] == '0' && "0xA347"@[1] == 'x' && "0xA347"@[2] == 'A' && "0xA347"@[3] == '3' && "0xA347"@[4] == '4' && "0xA347"@[5] == '7');
}

} // verus!
