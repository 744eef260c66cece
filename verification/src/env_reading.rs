//! One environment reading (air pressure, particulate matter, time), the
//! builder that assembles it from whichever sensors answered, and the LoRa
//! payload it is sent as.
use vstd::prelude::*;

verus! {

/// The air pressure reported when the pressure sensor gave no reading.
pub const NO_AIR_PRESSURE: u8 = 255;

/// A particulate-matter value reported when the air quality sensor gave no reading.
pub const NO_PM: u16 = 65535;

/// Bytes of a reading's LoRa payload.
pub const PAYLOAD_SIZE: usize = 11;

/// Bytes of the buffer handed to the LoRa modem.
pub const LORA_BUFFER_SIZE: usize = 128;

/// An environment reading: air pressure in psi, PM1.0, PM2.5 and PM10
/// concentrations, and the Unix time it was taken.
#[derive(Debug, Clone, Copy, PartialEq, Eq, Structural)]
pub struct EnvReading {
    pub air_pressure: u8,
    pub pm1: u16,
    pub pm2_5: u16,
    pub pm10: u16,
    pub timestamp: u32,
}

/// What the air quality sensor reports that a reading keeps.
#[derive(Debug, Clone, Copy, PartialEq, Eq, Structural)]
pub struct AirQuality {
    pub pm1: u16,
    pub pm2_5: u16,
    pub pm10: u16,
}

/// Collects the values of one reading as the sensors deliver them.
pub struct EnvReadingBuilder {
    air_pressure: Option<u8>,
    pm1: Option<u16>,
    pm2_5: Option<u16>,
    pm10: Option<u16>,
    timestamp: u32,
}

impl EnvReadingBuilder {
    /// The air pressure delivered so far, if any.
    pub closed spec fn spec_air_pressure(self) -> Option<u8> {
        self.air_pressure
    }

    /// The PM1.0 value delivered so far, if any.
    pub closed spec fn spec_pm1(self) -> Option<u16> {
        self.pm1
    }

    /// The PM2.5 value delivered so far, if any.
    pub closed spec fn spec_pm2_5(self) -> Option<u16> {
        self.pm2_5
    }

    /// The PM10 value delivered so far, if any.
    pub closed spec fn spec_pm10(self) -> Option<u16> {
        self.pm10
    }

    /// The time of the reading.
    pub closed spec fn spec_timestamp(self) -> u32 {
        self.timestamp
    }

    /// A builder for a reading taken at `timestamp`, with no value delivered yet.
    pub fn new(timestamp: u32) -> (b: EnvReadingBuilder)
        ensures
            b.spec_air_pressure() is None,
            b.spec_pm1() is None,
            b.spec_pm2_5() is None,
            b.spec_pm10() is None,
            b.spec_timestamp() == timestamp,
    {
        EnvReadingBuilder { air_pressure: None, pm1: None, pm2_5: None, pm10: None, timestamp }
    }

    /// Records the air pressure, in psi.
    pub fn air_pressure(&mut self, psi: u8)
        ensures
            final(self).spec_air_pressure() == Some(psi),
            final(self).spec_pm1() == old(self).spec_pm1(),
            final(self).spec_pm2_5() == old(self).spec_pm2_5(),
            final(self).spec_pm10() == old(self).spec_pm10(),
            final(self).spec_timestamp() == old(self).spec_timestamp(),
    {
        self.air_pressure = Some(psi);
    }

    /// Records the PM1.0 concentration.
    pub fn pm1(&mut self, pm: u16)
        ensures
            final(self).spec_air_pressure() == old(self).spec_air_pressure(),
            final(self).spec_pm1() == Some(pm),
            final(self).spec_pm2_5() == old(self).spec_pm2_5(),
            final(self).spec_pm10() == old(self).spec_pm10(),
            final(self).spec_timestamp() == old(self).spec_timestamp(),
    {
        self.pm1 = Some(pm);
    }

    /// Records the PM2.5 concentration.
    pub fn pm2_5(&mut self, pm: u16)
        ensures
            final(self).spec_air_pressure() == old(self).spec_air_pressure(),
            final(self).spec_pm1() == old(self).spec_pm1(),
            final(self).spec_pm2_5() == Some(pm),
            final(self).spec_pm10() == old(self).spec_pm10(),
            final(self).spec_timestamp() == old(self).spec_timestamp(),
    {
        self.pm2_5 = Some(pm);
    }

    /// Records the PM10 concentration.
    pub fn pm10(&mut self, pm: u16)
        ensures
            final(self).spec_air_pressure() == old(self).spec_air_pressure(),
            final(self).spec_pm1() == old(self).spec_pm1(),
            final(self).spec_pm2_5() == old(self).spec_pm2_5(),
            final(self).spec_pm10() == Some(pm),
            final(self).spec_timestamp() == old(self).spec_timestamp(),
    {
        self.pm10 = Some(pm);
    }

    /// The reading that the delivered values make.
    pub open spec fn spec_build(self) -> EnvReading {
        EnvReading {
            air_pressure: match self.spec_air_pressure() {
                Some(v) => v,
                None => NO_AIR_PRESSURE,
            },
            pm1: match self.spec_pm1() {
                Some(v) => v,
                None => NO_PM,
            },
            pm2_5: match self.spec_pm2_5() {
                Some(v) => v,
                None => NO_PM,
            },
            pm10: match self.spec_pm10() {
                Some(v) => v,
                None => NO_PM,
            },
            timestamp: self.spec_timestamp(),
        }
    }

    /// The reading: each value that no sensor delivered is reported as the
    /// largest value of its type.
    pub fn build(self) -> (r: EnvReading)
        ensures
            r == self.spec_build(),
    {
        EnvReading {
            air_pressure: match self.air_pressure {
                Some(v) => v,
                None => NO_AIR_PRESSURE,
            },
            pm1: match self.pm1 {
                Some(v) => v,
                None => NO_PM,
            },
            pm2_5: match self.pm2_5 {
                Some(v) => v,
                None => NO_PM,
            },
            pm10: match self.pm10 {
                Some(v) => v,
                None => NO_PM,
            },
            timestamp: self.timestamp,
        }
    }
}

/// The two bytes of `v`, least significant first.
pub open spec fn le_u16(v: u16) -> Seq<u8> {
    seq![(v % 256) as u8, (v / 256) as u8]
}

/// The four bytes of `v`, least significant first.
pub open spec fn le_u32(v: u32) -> Seq<u8> {
    seq![
        (v % 256) as u8,
        ((v / 256) % 256) as u8,
        ((v / 65536) % 256) as u8,
        (v / 16777216) as u8,
    ]
}

/// The little-endian integer that two bytes stand for.
pub open spec fn from_le_u16(b: Seq<u8>) -> u16 {
    (b[0] + 256 * b[1]) as u16
}

/// The little-endian integer that four bytes stand for.
pub open spec fn from_le_u32(b: Seq<u8>) -> u32 {
    (b[0] + 256 * b[1] + 65536 * b[2] + 16777216 * b[3]) as u32
}

/// The payload of a reading: the air pressure byte, then PM1.0, PM2.5, PM10
/// and the timestamp, each little-endian.
pub open spec fn spec_payload(r: EnvReading) -> Seq<u8> {
    seq![r.air_pressure] + le_u16(r.pm1) + le_u16(r.pm2_5) + le_u16(r.pm10) + le_u32(r.timestamp)
}

/// The reading that a payload stands for.
pub open spec fn spec_read_payload(p: Seq<u8>) -> EnvReading {
    EnvReading {
        air_pressure: p[0],
        pm1: from_le_u16(p.subrange(1, 3)),
        pm2_5: from_le_u16(p.subrange(3, 5)),
        pm10: from_le_u16(p.subrange(5, 7)),
        timestamp: from_le_u32(p.subrange(7, 11)),
    }
}

impl EnvReading {
    /// A builder for a reading taken at `timestamp`.
    pub fn builder(timestamp: u32) -> (b: EnvReadingBuilder)
        ensures
            b.spec_air_pressure() is None,
            b.spec_pm1() is None,
            b.spec_pm2_5() is None,
            b.spec_pm10() is None,
            b.spec_timestamp() == timestamp,
    {
        EnvReadingBuilder::new(timestamp)
    }

    /// The reading that the sensors' answers make: the air quality values
    /// when that sensor answered, the pressure when that one did, and the
    /// missing-value markers otherwise.
    pub fn from_sensors(timestamp: u32, air_quality: Option<AirQuality>, pressure_psi: Option<u8>) -> (r: EnvReading)
        ensures
            r.timestamp == timestamp,
            r.pm1 == match air_quality {
                Some(aq) => aq.pm1,
                None => NO_PM,
            },
            r.pm2_5 == match air_quality {
                Some(aq) => aq.pm2_5,
                None => NO_PM,
            },
            r.pm10 == match air_quality {
                Some(aq) => aq.pm10,
                None => NO_PM,
            },
            r.air_pressure == match pressure_psi {
                Some(p) => p,
                None => NO_AIR_PRESSURE,
            },
    {
        let mut builder = EnvReading::builder(timestamp);
        if let Some(aq) = air_quality {
            builder.pm1(aq.pm1);
            builder.pm2_5(aq.pm2_5);
            builder.pm10(aq.pm10);
        }
        if let Some(psi) = pressure_psi {
            builder.air_pressure(psi);
        }
        builder.build()
    }

    /// The reading's payload.
    pub fn payload(&self) -> (p: [u8; PAYLOAD_SIZE])
        ensures
            p@ == spec_payload(*self),
    {
        let p: [u8; PAYLOAD_SIZE] = [
            self.air_pressure,
            (self.pm1 % 256) as u8,
            (self.pm1 / 256) as u8,
            (self.pm2_5 % 256) as u8,
            (self.pm2_5 / 256) as u8,
            (self.pm10 % 256) as u8,
            (self.pm10 / 256) as u8,
            (self.timestamp % 256) as u8,
            ((self.timestamp / 256) % 256) as u8,
            ((self.timestamp / 65536) % 256) as u8,
            (self.timestamp / 16777216) as u8,
        ];
        assert(p@ =~= spec_payload(*self));
        p
    }

    /// The buffer handed to the LoRa modem: the payload, then NUL bytes.
    pub fn into_lora_buffer(self) -> (buf: [u8; LORA_BUFFER_SIZE])
        ensures
            buf@ == spec_payload(self) + Seq::new((LORA_BUFFER_SIZE - PAYLOAD_SIZE) as nat, |i: int| 0u8),
    {
        let payload = self.payload();
        let mut buf: [u8; LORA_BUFFER_SIZE] = [0u8; LORA_BUFFER_SIZE];
        let mut i: usize = 0;
        while i < PAYLOAD_SIZE
            invariant
                i <= PAYLOAD_SIZE,
                payload@ == spec_payload(self),
                forall|j: int| 0 <= j < i ==> buf@[j] == payload@[j],
                forall|j: int| PAYLOAD_SIZE <= j < LORA_BUFFER_SIZE ==> buf@[j] == 0u8,
            decreases PAYLOAD_SIZE - i,
        {
            buf[i] = payload[i];
            i += 1;
        }
        assert(buf@ =~= spec_payload(self) + Seq::new((LORA_BUFFER_SIZE - PAYLOAD_SIZE) as nat, |i: int| 0u8));
        buf
    }
}

/// A payload reads back as the reading it was made from, so no value is
/// lost on the way to the radio.
pub proof fn lemma_payload_round_trip(r: EnvReading)
    ensures
        spec_payload(r).len() == PAYLOAD_SIZE,
        spec_read_payload(spec_payload(r)) == r,
{
    let p = spec_payload(r);
    assert(p.subrange(1, 3) =~= le_u16(r.pm1));
    assert(p.subrange(3, 5) =~= le_u16(r.pm2_5));
    assert(p.subrange(5, 7) =~= le_u16(r.pm10));
    assert(p.subrange(7, 11) =~= le_u32(r.timestamp));
    let t = r.timestamp as int;
    assert(t % 256 + 256 * ((t / 256) % 256) + 65536 * ((t / 65536) % 256) + 16777216 * (t / 16777216) == t)
        by (nonlinear_arith)
        requires
            0 <= t < 0x1_0000_0000,
    ;
}

/// A built reading holds each value that a sensor delivered, unchanged, and
/// the largest value of its type (255 psi, 65535) for each value that none
/// delivered; its time is the builder's.
pub proof fn lemma_build_keeps_delivered_values(b: EnvReadingBuilder)
    ensures
        b.spec_air_pressure() is Some ==> b.spec_build().air_pressure == b.spec_air_pressure()->0,
        b.spec_air_pressure() is None ==> b.spec_build().air_pressure == 255,
        b.spec_pm1() is Some ==> b.spec_build().pm1 == b.spec_pm1()->0,
        b.spec_pm1() is None ==> b.spec_build().pm1 == 65535,
        b.spec_pm2_5() is Some ==> b.spec_build().pm2_5 == b.spec_pm2_5()->0,
        b.spec_pm2_5() is None ==> b.spec_build().pm2_5 == 65535,
        b.spec_pm10() is Some ==> b.spec_build().pm10 == b.spec_pm10()->0,
        b.spec_pm10() is None ==> b.spec_build().pm10 == 65535,
        b.spec_build().timestamp == b.spec_timestamp(),
{
}

} // verus!
