//! The exporter's settings: their defaults, and how the command line and
//! the configuration file override them.
use vstd::prelude::*;

use crate::json::{member_i64, member_str, member_u64, EntryView, JsonObject};
use crate::text::{all_digits, decimal_in_range, digits_value, is_digit, lemma_digits_value_nonneg, parse_u16, parse_u64};

verus! {

/// Settings of the exporter.
#[derive(Debug)]
pub struct Config {
    /// Port of the HTTP server.
    pub port: u16,
    /// Address the HTTP server listens on.
    pub address: String,
    /// Timeout of a request to the serial bridge, in seconds.
    pub timeout: u64,
    /// URL of the serial bridge that reads the device.
    pub device: String,
    /// Baud rate of the serial line.
    pub baud_rate: u32,
}

/// The default settings: port 9701 on `localhost`, a timeout of 5 s, the
/// device `/dev/ttyUSB0` at 19200 baud.
pub open spec fn is_default_config(c: Config) -> bool {
    &&& c.port == 9701
    &&& c.address@ == "localhost"@
    &&& c.timeout == 5
    &&& c.device@ == "/dev/ttyUSB0"@
    &&& c.baud_rate == 19200
}

impl Default for Config {
    fn default() -> (c: Self)
        ensures
            is_default_config(c),
    {
        Config {
            port: 9701u16,
            address: String::from_str("localhost"),
            timeout: 5,
            device: String::from_str("/dev/ttyUSB0"),
            baud_rate: 19200,
        }
    }
}

/// The settings given on the command line, as typed; `None` where an option
/// was not given.
pub struct CommandLine {
    pub address: Option<String>,
    pub port: Option<String>,
    pub device: Option<String>,
    pub timeout: Option<String>,
}

pub open spec fn file_str(file: Option<Seq<EntryView>>, key: Seq<char>) -> Option<Seq<char>> {
    match file {
        Some(m) => member_str(m, key),
        None => None,
    }
}

pub open spec fn file_i64(file: Option<Seq<EntryView>>, key: Seq<char>) -> Option<i64> {
    match file {
        Some(m) => member_i64(m, key),
        None => None,
    }
}

pub open spec fn file_u64(file: Option<Seq<EntryView>>, key: Seq<char>) -> Option<u64> {
    match file {
        Some(m) => member_u64(m, key),
        None => None,
    }
}

/// A text setting: the command line's, else the file's, else `current`.
pub open spec fn chosen_text(cli: Option<String>, file: Option<Seq<char>>, current: Seq<char>) -> Seq<char> {
    match cli {
        Some(s) => s@,
        None => match file {
            Some(t) => t,
            None => current,
        },
    }
}

/// The port: the command line's where it is a `u16`, else the file's
/// integer cut to its low 16 bits, else `current`.
pub open spec fn chosen_port(cli: Option<String>, file: Option<i64>, current: u16) -> u16 {
    match cli {
        Some(s) if decimal_in_range(s@, false, 0, u16::MAX as int) is Some =>
            decimal_in_range(s@, false, 0, u16::MAX as int)->0 as u16,
        _ => match file {
            Some(v) => v as u16,
            None => current,
        },
    }
}

/// The timeout: the command line's where it is a `u64`, else the file's
/// where it is one, else `current`.
pub open spec fn chosen_timeout(cli: Option<String>, file: Option<u64>, current: u64) -> u64 {
    match cli {
        Some(s) if decimal_in_range(s@, false, 0, u64::MAX as int) is Some =>
            decimal_in_range(s@, false, 0, u64::MAX as int)->0 as u64,
        _ => match file {
            Some(v) => v,
            None => current,
        },
    }
}

pub open spec fn opt_object_view(file: Option<&JsonObject>) -> Option<Seq<EntryView>> {
    match file {
        Some(o) => Some(o@),
        None => None,
    }
}

fn file_get_str<'a>(file: Option<&'a JsonObject>, key: &str) -> (r: Option<&'a str>)
    ensures
        match r {
            Some(s) => file_str(opt_object_view(file), key@) == Some(s@),
            None => file_str(opt_object_view(file), key@) is None,
        },
{
    match file {
        Some(o) => o.get_str(key),
        None => None,
    }
}

impl Config {
    /// The default settings.
    pub fn new() -> (c: Self)
        ensures
            is_default_config(c),
    {
        Self::default()
    }

    /// Overrides the settings by the command line `cli` and the
    /// configuration file `file` (its JSON members, where it could be read):
    /// each setting is taken from the command line where it was given (and,
    /// for the numbers, is a number), else from the file, else left as it is.
    pub fn apply(&mut self, cli: &CommandLine, file: Option<&JsonObject>)
        ensures
            final(self).address@ == chosen_text(
                cli.address,
                file_str(opt_object_view(file), "address"@),
                old(self).address@,
            ),
            final(self).port == chosen_port(cli.port, file_i64(opt_object_view(file), "port"@), old(self).port),
            final(self).device@ == chosen_text(
                cli.device,
                file_str(opt_object_view(file), "device"@),
                old(self).device@,
            ),
            final(self).timeout == chosen_timeout(
                cli.timeout,
                file_u64(opt_object_view(file), "timeout"@),
                old(self).timeout,
            ),
            final(self).baud_rate == old(self).baud_rate,
            cli.address matches Some(a) ==> final(self).address@ == a@,
            cli.device matches Some(a) ==> final(self).device@ == a@,
            cli.address is None ==> final(self).address@ == match file_str(opt_object_view(file), "address"@) {
                Some(t) => t,
                None => old(self).address@,
            },
            cli.device is None ==> final(self).device@ == match file_str(opt_object_view(file), "device"@) {
                Some(t) => t,
                None => old(self).device@,
            },
    {
        match &cli.address {
            Some(a) => {
                self.address = a.clone();
            },
            None => match file_get_str(file, "address") {
                Some(a) => {
                    self.address = String::from_str(a);
                },
                None => {},
            },
        }
        let cli_port = match &cli.port {
            Some(p) => parse_u16(p.as_str()),
            None => None,
        };
        match cli_port {
            Some(p) => {
                self.port = p;
            },
            None => {
                let fp = match file {
                    Some(o) => o.get_i64("port"),
                    None => None,
                };
                match fp {
                    Some(v) => {
                        self.port = v as u16;
                    },
                    None => {},
                }
            },
        }
        match &cli.device {
            Some(d) => {
                self.device = d.clone();
            },
            None => match file_get_str(file, "device") {
                Some(d) => {
                    self.device = String::from_str(d);
                },
                None => {},
            },
        }
        let cli_timeout = match &cli.timeout {
            Some(t) => parse_u64(t.as_str()),
            None => None,
        };
        match cli_timeout {
            Some(t) => {
                self.timeout = t;
            },
            None => {
                let ft = match file {
                    Some(o) => o.get_u64("timeout"),
                    None => None,
                };
                match ft {
                    Some(v) => {
                        self.timeout = v;
                    },
                    None => {},
                }
            },
        }
    }
}

/// The command line comes first: a text setting given there is the one
/// taken, whatever the file holds and whether or not there is a file; a port
/// or timeout given there as decimal digits that fit is taken with that
/// value. Only where the command line gives nothing does the file count.
pub proof fn lemma_command_line_comes_first(
    cli: Option<String>,
    file: Option<Seq<char>>,
    current: Seq<char>,
    digits: Seq<char>,
    file_port: Option<i64>,
    port: u16,
    file_timeout: Option<u64>,
    timeout: u64,
)
    ensures
        cli matches Some(s) ==> chosen_text(cli, file, current) == s@,
        cli is None ==> chosen_text(cli, file, current) == match file {
            Some(t) => t,
            None => current,
        },
        cli matches Some(s) && s@ == digits && digits.len() > 0 && all_digits(digits)
            && digits_value(digits) <= 65535 ==> chosen_port(cli, file_port, port) == digits_value(digits),
        cli matches Some(s) && s@ == digits && digits.len() > 0 && all_digits(digits)
            && digits_value(digits) <= u64::MAX ==> chosen_timeout(cli, file_timeout, timeout)
            == digits_value(digits),
{
    if digits.len() > 0 && all_digits(digits) {
        assert(is_digit(digits[0]));
        lemma_digits_value_nonneg(digits);
    }
}

} // verus!
