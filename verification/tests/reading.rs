use home_iot::env_reading::{AirQuality, EnvReading, NO_AIR_PRESSURE, NO_PM};

#[test]
fn builder_without_values_reports_missing_markers() {
    let r = EnvReading::builder(1234).build();
    assert_eq!(
        r,
        EnvReading { air_pressure: 255, pm1: 65535, pm2_5: 65535, pm10: 65535, timestamp: 1234 }
    );
    assert_eq!(r.air_pressure, NO_AIR_PRESSURE);
    assert_eq!(r.pm1, NO_PM);
}

#[test]
fn builder_keeps_each_delivered_value() {
    let mut b = EnvReading::builder(42);
    b.air_pressure(14);
    b.pm1(1);
    b.pm2_5(2);
    b.pm10(3);
    assert_eq!(
        b.build(),
        EnvReading { air_pressure: 14, pm1: 1, pm2_5: 2, pm10: 3, timestamp: 42 }
    );
    let mut b = EnvReading::builder(7);
    b.pm2_5(9);
    b.pm2_5(10);
    assert_eq!(
        b.build(),
        EnvReading { air_pressure: 255, pm1: 65535, pm2_5: 10, pm10: 65535, timestamp: 7 }
    );
}

#[test]
fn reading_from_sensors() {
    let aq = AirQuality { pm1: 5, pm2_5: 8, pm10: 12 };
    assert_eq!(
        EnvReading::from_sensors(100, Some(aq), Some(14)),
        EnvReading { air_pressure: 14, pm1: 5, pm2_5: 8, pm10: 12, timestamp: 100 }
    );
    assert_eq!(
        EnvReading::from_sensors(100, None, Some(14)),
        EnvReading { air_pressure: 14, pm1: 65535, pm2_5: 65535, pm10: 65535, timestamp: 100 }
    );
    assert_eq!(
        EnvReading::from_sensors(100, Some(aq), None),
        EnvReading { air_pressure: 255, pm1: 5, pm2_5: 8, pm10: 12, timestamp: 100 }
    );
}

#[test]
fn payload_is_little_endian() {
    let r = EnvReading { air_pressure: 0x0E, pm1: 0x0102, pm2_5: 0x0304, pm10: 0x0506, timestamp: 0x0A0B0C0D };
    assert_eq!(r.payload(), [0x0E, 0x02, 0x01, 0x04, 0x03, 0x06, 0x05, 0x0D, 0x0C, 0x0B, 0x0A]);
}

#[test]
fn lora_buffer_is_payload_then_zeros() {
    let r = EnvReading { air_pressure: 255, pm1: 65535, pm2_5: 0, pm10: 300, timestamp: 1755789791 };
    let buf = r.into_lora_buffer();
    assert_eq!(buf.len(), 128);
    assert_eq!(&buf[..11], &r.payload()[..]);
    assert_eq!(&buf[..11], &[255, 255, 255, 0, 0, 44, 1, 0xDF, 0x39, 0xA7, 0x68][..]);
    assert!(buf[11..].iter().all(|&b| b == 0));
}

#[test]
fn payload_reads_back() {
    let r = EnvReading { air_pressure: 200, pm1: 40000, pm2_5: 123, pm10: 65535, timestamp: 4000000000 };
    let p = r.payload();
    let back = EnvReading {
        air_pressure: p[0],
        pm1: u16::from_le_bytes([p[1], p[2]]),
        pm2_5: u16::from_le_bytes([p[3], p[4]]),
        pm10: u16::from_le_bytes([p[5], p[6]]),
        timestamp: u32::from_le_bytes([p[7], p[8], p[9], p[10]]),
    };
    assert_eq!(back, r);
}
