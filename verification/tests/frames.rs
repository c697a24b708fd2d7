use ve_exporter::{Command, Flags, Response};

#[test]
fn command_numbers() {
    assert_eq!(Command::EnterBoot.command(), 0x0);
    assert_eq!(Command::Ping.command(), 0x1);
    assert_eq!(Command::AppVersion.command(), 0x3);
    assert_eq!(Command::DeviceID.command(), 0x4);
    assert_eq!(Command::Restart.command(), 0x6);
    assert_eq!(Command::Get(0x0100, Flags::none()).command(), 0x7);
    assert_eq!(Command::SetValue(0x0100, Flags::none(), 1).command(), 0x8);
    assert_eq!(Command::Async(0x0100, Flags::none(), 1).command(), 0xA);
}

#[test]
fn response_numbers() {
    assert_eq!(Response::Done(0).command(), 1);
    assert_eq!(Response::Unknown(0).command(), 3);
    assert_eq!(Response::FrameError.command(), 4);
    assert_eq!(Response::BootLoaderError.command(), 4);
    assert_eq!(Response::Ping(String::from("1.01"), 1).command(), 5);
    assert_eq!(Response::Get(0x0100, Flags::none(), 5).command(), 7);
    assert_eq!(Response::SetValue(0x0100, Flags::none(), 5).command(), 8);
}

fn little_endian() -> bool {
    u64::from_le(1) == 1
}

#[test]
fn frames_without_payload() {
    assert_eq!(Command::Ping.build(), ":154\n");
    assert_eq!(Command::AppVersion.build(), ":352\n");
    assert_eq!(Command::DeviceID.build(), ":451\n");
    assert_eq!(Command::Restart.build(), ":64F\n");
}

#[test]
fn frame_of_get() {
    if little_endian() {
        assert_eq!(Command::Get(0x0100, Flags::none()).build(), ":74004E\n");
        assert_eq!(Command::Get(0xEDAD, Flags::parameter_error()).build(), ":73B6B84E\n");
    }
    assert_eq!(Command::Get(0, Flags::none()).build(), ":74E\n");
}

#[test]
fn flag_bytes() {
    assert_eq!(Flags::none().bits(), 0);
    assert_eq!(Flags::unknown_id().bits(), 1);
    assert_eq!(Flags::not_supported().bits(), 2);
    assert_eq!(Flags::parameter_error().bits(), 4);
    assert_eq!(Flags::from_bits(5), Some(Flags { bits: 5 }));
    assert_eq!(Flags::from_bits(8), None);
}
