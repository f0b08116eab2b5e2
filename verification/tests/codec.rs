use kraken_driver::codec::KrakenError;
use kraken_driver::codec::SpeedCommand;
use kraken_driver::codec::SpeedTarget;
use kraken_driver::codec::confirm_command_written;
use kraken_driver::codec::decode_report;
use kraken_driver::codec::encode_speed_command;

#[test]
fn decode_is_deterministic() {
    let mut buf = [0u8; 64];
    buf[1] = 33;
    buf[3] = 0x01;
    buf[4] = 0x90;
    buf[5] = 0x0a;
    buf[6] = 0x28;
    buf[0x0b] = 4;
    buf[0x0c] = 0x01;
    buf[0x0d] = 0x02;
    buf[0x0e] = 9;
    let first = decode_report(&buf, 64).unwrap();
    let second = decode_report(&buf, 64).unwrap();
    assert_eq!(first, second);
    let copy = buf;
    let third = decode_report(&copy, 64).unwrap();
    assert_eq!(first, third);
}

#[test]
fn decode_scenario_known_report() {
    let mut buf = [0u8; 64];
    buf[1] = 40;
    buf[3] = 0x03;
    buf[4] = 0xe8;
    buf[5] = 0x07;
    buf[6] = 0xd0;
    buf[0x0b] = 1;
    buf[0x0c] = 0x00;
    buf[0x0d] = 0x05;
    buf[0x0e] = 2;
    let data = decode_report(&buf, 15).unwrap();
    assert_eq!(data.liquid_temp, 40);
    assert_eq!(data.fan_speed, 1000);
    assert_eq!(data.pump_speed, 2000);
    assert_eq!(data.firmware_version, (1, 5, 2));
}

#[test]
fn decode_rejects_every_short_read() {
    let mut buf = [0u8; 64];
    buf[1] = 40;
    let mut len: usize = 0;
    while len < 15 {
        let r = decode_report(&buf, len);
        assert!(matches!(r, Err(KrakenError::InsufficientData)));
        len += 1;
    }
    assert!(decode_report(&buf, 15).is_ok());
}

#[test]
fn fan_command_over_full_range() {
    let mut percent: u16 = 0;
    while percent <= 255 {
        let p = percent as u8;
        let r = encode_speed_command(SpeedTarget::Fan, p);
        if (25..=100).contains(&p) {
            assert_eq!(r.unwrap(), [0x02, 0x4d, 0x00, 0x00, p]);
        } else {
            assert!(matches!(r, Err(KrakenError::FanSpeedOutOfRange)));
        }
        percent += 1;
    }
}

#[test]
fn pump_command_over_full_range() {
    let mut percent: u16 = 0;
    while percent <= 255 {
        let p = percent as u8;
        let r = encode_speed_command(SpeedTarget::Pump, p);
        if (60..=100).contains(&p) {
            assert_eq!(r.unwrap(), [0x02, 0x4d, 0x00, 0x00, p]);
        } else {
            assert!(matches!(r, Err(KrakenError::PumpSpeedOutOfRange)));
        }
        percent += 1;
    }
}

#[test]
fn encode_round_trips_percent_through_last_byte() {
    for p in 25u8..=100 {
        let buf = encode_speed_command(SpeedTarget::Fan, p).unwrap();
        assert_eq!(buf[4], p);
    }
    for p in 60u8..=100 {
        let buf = encode_speed_command(SpeedTarget::Pump, p).unwrap();
        assert_eq!(buf[4], p);
    }
}

#[test]
fn fan_scenario_and_short_write() {
    let buf = encode_speed_command(SpeedTarget::Fan, 50).unwrap();
    assert_eq!(buf, [0x02, 0x4d, 0x00, 0x00, 50]);
    let r = confirm_command_written(4);
    assert!(matches!(r, Err(KrakenError::ShortWrite)));
    assert!(confirm_command_written(5).is_ok());
    let r6 = confirm_command_written(6);
    assert!(matches!(r6, Err(KrakenError::ShortWrite)));
}

#[test]
fn pump_scenario_rejected_before_any_transmit() {
    let r = encode_speed_command(SpeedTarget::Pump, 30);
    assert!(matches!(r, Err(KrakenError::PumpSpeedOutOfRange)));
}

#[test]
fn speed_command_encodes_like_the_free_function() {
    let valid = SpeedCommand { target: SpeedTarget::Fan, percent: 75 };
    assert_eq!(valid.encode().unwrap(), [0x02, 0x4d, 0x00, 0x00, 75]);
    let invalid = SpeedCommand { target: SpeedTarget::Pump, percent: 59 };
    assert!(matches!(invalid.encode(), Err(KrakenError::PumpSpeedOutOfRange)));
}

#[test]
fn error_messages() {
    assert_eq!(
        KrakenError::FanSpeedOutOfRange.message(),
        "Fan speed must be between 25% and 100%"
    );
    assert_eq!(
        KrakenError::PumpSpeedOutOfRange.message(),
        "Pump speed must be between 60% and 100%"
    );
    assert_eq!(
        KrakenError::InsufficientData.message(),
        "Did not receive enough data from the device"
    );
    assert_eq!(
        KrakenError::ShortWrite.message(),
        "Device did not accept the full command"
    );
}

#[test]
fn decode_boundary_values() {
    let mut buf = [0u8; 64];
    for i in 0..64 {
        buf[i] = 0xff;
    }
    let data = decode_report(&buf, 64).unwrap();
    assert_eq!(data.liquid_temp, 255);
    assert_eq!(data.fan_speed, 65535);
    assert_eq!(data.pump_speed, 65535);
    assert_eq!(data.firmware_version, (255, 65535, 255));

    let zero = [0u8; 64];
    let data = decode_report(&zero, 15).unwrap();
    assert_eq!(data.liquid_temp, 0);
    assert_eq!(data.fan_speed, 0);
    assert_eq!(data.pump_speed, 0);
    assert_eq!(data.firmware_version, (0, 0, 0));
}
