use hm3301::{
    decode_frame, expected_checksum, measurement_from_read, select_outcome, Error, Hm3301,
    I2cRead, I2cWrite, Measurement, ReadLog, WriteLog, DEFAULT_I2C_ADDR, FRAME_LEN, SELECT_I2C_CMD,
};

use std::cell::RefCell;
use std::rc::Rc;

#[derive(Debug, PartialEq)]
struct BusFault(u8);

#[derive(Default)]
struct BusLog {
    reads: Vec<(u8, usize)>,
    writes: Vec<(u8, Vec<u8>)>,
}

struct MockBus {
    frame: [u8; 29],
    fail_read: bool,
    fail_write: bool,
    log: Rc<RefCell<BusLog>>,
}

impl MockBus {
    fn new(frame: [u8; 29]) -> Self {
        MockBus { frame, fail_read: false, fail_write: false, log: Rc::new(RefCell::new(BusLog::default())) }
    }
}

impl I2cRead for MockBus {
    type Error = BusFault;

    fn reads(&self) -> ReadLog {
        unreachable!("the transaction log exists in proofs only")
    }

    fn read(&mut self, address: u8, buffer: &mut [u8]) -> Result<(), BusFault> {
        self.log.borrow_mut().reads.push((address, buffer.len()));
        if self.fail_read {
            return Err(BusFault(7));
        }
        buffer.copy_from_slice(&self.frame[..buffer.len()]);
        Ok(())
    }
}

impl I2cWrite for MockBus {
    type Error = BusFault;

    fn writes(&self) -> WriteLog {
        unreachable!("the transaction log exists in proofs only")
    }

    fn write(&mut self, address: u8, bytes: &[u8]) -> Result<(), BusFault> {
        self.log.borrow_mut().writes.push((address, bytes.to_vec()));
        if self.fail_write {
            return Err(BusFault(9));
        }
        Ok(())
    }
}

fn frame_with(fields: [u16; 7], checksum: u8) -> [u8; 29] {
    let mut b = [0u8; 29];
    for (k, v) in fields.iter().enumerate() {
        let bytes = v.to_le_bytes();
        b[2 + 2 * k] = bytes[0];
        b[3 + 2 * k] = bytes[1];
    }
    b[28] = checksum;
    b
}

fn m(fields: [u16; 7]) -> Measurement {
    Measurement::from(fields)
}

#[test]
fn checksum_constant_is_triangular_sum_mod_256() {
    assert_eq!(expected_checksum(), ((0u32..=27).sum::<u32>() % 256) as u8);
    assert_eq!(expected_checksum(), 122);
}

#[test]
fn valid_frame_decodes_whatever_the_payload() {
    for seed in 0u8..=255 {
        let mut b = [0u8; 29];
        for (i, x) in b.iter_mut().enumerate().take(28) {
            *x = seed.wrapping_mul(31).wrapping_add(i as u8 * 17);
        }
        b[28] = 122;
        let r: Result<Measurement, Error<BusFault>> = decode_frame(&b);
        assert!(r.is_ok(), "seed {}", seed);
    }
}

#[test]
fn decoding_is_deterministic() {
    let b = frame_with([11, 22, 33, 44, 55, 66, 77], 122);
    let a: Result<Measurement, Error<BusFault>> = decode_frame(&b);
    let c: Result<Measurement, Error<BusFault>> = decode_frame(&b);
    assert_eq!(a.unwrap(), c.unwrap());
}

#[test]
fn every_other_checksum_byte_fails() {
    for v in 0u8..=255 {
        if v == 122 {
            continue;
        }
        let b = frame_with([1, 2, 3, 4, 5, 6, 7], v);
        let r: Result<Measurement, Error<BusFault>> = decode_frame(&b);
        assert!(matches!(r, Err(Error::ChecksumFailed)), "byte {}", v);
    }
}

#[test]
fn checksum_ignores_payload_bytes() {
    let mut a = frame_with([1, 2, 3, 4, 5, 6, 7], 122);
    let mut b = a;
    a[0] = 0xff;
    a[20] = 0x42;
    b[1] = 0x13;
    b[27] = 0x99;
    let ra: Result<Measurement, Error<BusFault>> = decode_frame(&a);
    let rb: Result<Measurement, Error<BusFault>> = decode_frame(&b);
    assert_eq!(ra.unwrap(), rb.unwrap());
}

#[test]
fn fields_are_positional() {
    let b = frame_with([1, 2, 3, 4, 5, 6, 7], 122);
    let r: Result<Measurement, Error<BusFault>> = decode_frame(&b);
    let got = r.unwrap();
    assert_eq!(got.num_sensor, 1);
    assert_eq!(got.std_pm1, 2);
    assert_eq!(got.std_pm25, 3);
    assert_eq!(got.std_pm10, 4);
    assert_eq!(got.atm_pm1, 5);
    assert_eq!(got.atm_pm25, 6);
    assert_eq!(got.atm_pm10, 7);
}

#[test]
fn fields_are_little_endian() {
    let mut b = [0u8; 29];
    b[2] = 0x34;
    b[3] = 0x12;
    b[14] = 0xff;
    b[15] = 0xff;
    b[28] = 122;
    let r: Result<Measurement, Error<BusFault>> = decode_frame(&b);
    assert_eq!(r.unwrap(), m([0x1234, 0, 0, 0, 0, 0, 0xffff]));
}

#[test]
fn wrong_length_is_invalid_input() {
    let short = [0u8; 28];
    let long = [122u8; 30];
    let r1: Result<Measurement, Error<BusFault>> = decode_frame(&short);
    let r2: Result<Measurement, Error<BusFault>> = decode_frame(&long);
    let r3: Result<Measurement, Error<BusFault>> = decode_frame(&[]);
    assert!(matches!(r1, Err(Error::InvalidInputData)));
    assert!(matches!(r2, Err(Error::InvalidInputData)));
    assert!(matches!(r3, Err(Error::InvalidInputData)));
    assert_eq!(FRAME_LEN, 29);
}

#[test]
fn from_array_maps_in_order() {
    let got = Measurement::from([10, 20, 30, 40, 50, 60, 70]);
    assert_eq!(
        got,
        Measurement {
            num_sensor: 10,
            std_pm1: 20,
            std_pm25: 30,
            std_pm10: 40,
            atm_pm1: 50,
            atm_pm25: 60,
            atm_pm10: 70,
        }
    );
}

#[test]
fn enable_i2c_writes_select_command_once() {
    let bus = MockBus::new([0; 29]);
    let log = bus.log.clone();
    let mut dev = Hm3301::new(bus);
    let r = dev.enable_i2c();
    assert!(r.is_ok());
    let log = log.borrow();
    assert_eq!(log.writes, vec![(DEFAULT_I2C_ADDR, vec![SELECT_I2C_CMD])]);
    assert_eq!(log.writes, vec![(0x40, vec![0x88])]);
    assert!(log.reads.is_empty());
}

#[test]
fn enable_i2c_twice_writes_twice() {
    let bus = MockBus::new([0; 29]);
    let log = bus.log.clone();
    let mut dev = Hm3301::new(bus);
    assert!(dev.enable_i2c().is_ok());
    assert!(dev.enable_i2c().is_ok());
    assert_eq!(log.borrow().writes, vec![(0x40, vec![0x88]), (0x40, vec![0x88])]);
}

#[test]
fn enable_i2c_wraps_write_failure() {
    let mut bus = MockBus::new([0; 29]);
    bus.fail_write = true;
    let mut dev = Hm3301::new(bus);
    match dev.enable_i2c() {
        Err(nb::Error::Other(Error::I2C(e))) => assert_eq!(e, BusFault(9)),
        other => panic!("unexpected {:?}", other),
    }
}

#[test]
fn read_measurement_decodes_frame() {
    let bus = MockBus::new(frame_with([1, 2, 3, 4, 5, 6, 7], 122));
    let log = bus.log.clone();
    let mut dev = Hm3301::new(bus);
    let got = dev.read_measurement().unwrap();
    assert_eq!(got, m([1, 2, 3, 4, 5, 6, 7]));
    assert_eq!(log.borrow().reads, vec![(0x40, 29)]);
    assert!(log.borrow().writes.is_empty());
}

#[test]
fn read_measurement_reports_bad_checksum() {
    let mut dev = Hm3301::new(MockBus::new(frame_with([1, 2, 3, 4, 5, 6, 7], 0)));
    assert!(matches!(dev.read_measurement(), Err(Error::ChecksumFailed)));
}

#[test]
fn read_measurement_propagates_read_failure() {
    // The frame has a bad checksum: a transport failure must win over it.
    let mut bus = MockBus::new(frame_with([1, 2, 3, 4, 5, 6, 7], 0));
    bus.fail_read = true;
    let mut dev = Hm3301::new(bus);
    match dev.read_measurement() {
        Err(Error::I2C(e)) => assert_eq!(e, BusFault(7)),
        other => panic!("unexpected {:?}", other),
    }
}

#[test]
fn measurement_from_read_keeps_transport_error() {
    let good = frame_with([1, 2, 3, 4, 5, 6, 7], 122);
    let r = measurement_from_read(Err(BusFault(3)), &good);
    assert!(matches!(r, Err(Error::I2C(BusFault(3)))));
    let ok = measurement_from_read::<BusFault>(Ok(()), &good);
    assert_eq!(ok.unwrap(), m([1, 2, 3, 4, 5, 6, 7]));
}

#[test]
fn select_outcome_maps_results() {
    assert!(select_outcome::<BusFault>(Ok(())).is_ok());
    assert!(matches!(
        select_outcome(Err(BusFault(1))),
        Err(nb::Error::Other(Error::I2C(BusFault(1))))
    ));
}

#[test]
fn rendering_lists_all_fields() {
    let text = m([1, 2, 3, 4, 5, 6, 7]).to_string();
    assert_eq!(
        text,
        "Sensor Number: 1\nStd PM 1: 2; Atm PM 1: 5\nStd PM 2.5: 3; Atm PM 2.5: 6\nStd PM 10: 4; Atm PM 10: 7"
    );
}

#[test]
fn rendering_shows_multi_digit_values() {
    let value = m([0, 10, 65535, 909, 1234, 100, 7]);
    let text = value.to_string();
    for v in ["0", "10", "65535", "909", "1234", "100", "7"] {
        assert!(text.contains(v), "{} missing in {}", v, text);
    }
    assert!(text.starts_with("Sensor Number: 0\n"));
    assert!(text.ends_with("Atm PM 10: 7"));
    assert_eq!(text, value.to_string());
}
