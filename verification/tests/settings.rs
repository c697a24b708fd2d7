use ve_exporter::{CommandLine, Config, JsonObject};

fn no_options() -> CommandLine {
    CommandLine { address: None, port: None, device: None, timeout: None }
}

#[test]
fn defaults() {
    let c = Config::new();
    assert_eq!(c.port, 9701);
    assert_eq!(c.address, "localhost");
    assert_eq!(c.timeout, 5);
    assert_eq!(c.device, "/dev/ttyUSB0");
    assert_eq!(c.baud_rate, 19200);
    let d = Config::default();
    assert_eq!(d.port, c.port);
    assert_eq!(d.address, c.address);
}

#[test]
fn nothing_given_keeps_defaults() {
    let mut c = Config::new();
    c.apply(&no_options(), None);
    assert_eq!(c.port, 9701);
    assert_eq!(c.address, "localhost");
    assert_eq!(c.timeout, 5);
    assert_eq!(c.device, "/dev/ttyUSB0");
}

#[test]
fn command_line_wins_over_file() {
    let file = JsonObject::parse(
        r#"{"address":"0.0.0.0","port":8080,"device":"http://bridge/file","timeout":30}"#,
    )
    .unwrap();
    let cli = CommandLine {
        address: Some(String::from("127.0.0.1")),
        port: Some(String::from("9100")),
        device: Some(String::from("http://bridge/cli")),
        timeout: Some(String::from("7")),
    };
    let mut c = Config::new();
    c.apply(&cli, Some(&file));
    assert_eq!(c.address, "127.0.0.1");
    assert_eq!(c.port, 9100);
    assert_eq!(c.device, "http://bridge/cli");
    assert_eq!(c.timeout, 7);
    assert_eq!(c.baud_rate, 19200);
}

#[test]
fn file_used_without_command_line() {
    let file = JsonObject::parse(
        r#"{"address":"0.0.0.0","port":8080,"device":"http://bridge/file","timeout":30}"#,
    )
    .unwrap();
    let mut c = Config::new();
    c.apply(&no_options(), Some(&file));
    assert_eq!(c.address, "0.0.0.0");
    assert_eq!(c.port, 8080);
    assert_eq!(c.device, "http://bridge/file");
    assert_eq!(c.timeout, 30);
}

#[test]
fn malformed_numbers_on_command_line_fall_back_to_file() {
    let file = JsonObject::parse(r#"{"port":70000,"timeout":-1}"#).unwrap();
    let cli = CommandLine {
        address: None,
        port: Some(String::from("http")),
        device: None,
        timeout: Some(String::from("soon")),
    };
    let mut c = Config::new();
    c.apply(&cli, Some(&file));
    assert_eq!(c.port, 70000u32 as u16);
    assert_eq!(c.timeout, 5);
}

#[test]
fn file_values_of_the_wrong_kind_are_ignored() {
    let file = JsonObject::parse(r#"{"address":1,"port":"80","device":null,"timeout":"9"}"#).unwrap();
    let mut c = Config::new();
    c.apply(&no_options(), Some(&file));
    assert_eq!(c.address, "localhost");
    assert_eq!(c.port, 9701);
    assert_eq!(c.device, "/dev/ttyUSB0");
    assert_eq!(c.timeout, 5);
}
