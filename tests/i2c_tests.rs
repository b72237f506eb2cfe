use embedded_hal::blocking::delay as hal_delay;
use embedded_hal::blocking::i2c::{Read, Write};
use embedded_hal_mock::{delay, i2c, MockError};
use sgp30_rs::{calculate_crc, DelayMs, DelayUs, Error, I2cBus, Sgp30};

const I2C_ADDRESS: u8 = 0x58;

/// The mock I2C bus seen through the driver's transport trait.
struct MockBus(i2c::Mock);

impl I2cBus for MockBus {
    type Error = MockError;

    fn write(&mut self, address: u8, bytes: &[u8]) -> Result<(), MockError> {
        Write::write(&mut self.0, address, bytes)
    }

    fn read(&mut self, address: u8, buffer: &mut [u8]) -> Result<(), MockError> {
        Read::read(&mut self.0, address, buffer)
    }
}

/// The mock delay seen through the driver's delay traits.
struct NoDelay(delay::MockNoop);

impl DelayMs for NoDelay {
    fn delay_ms(&mut self, ms: u16) {
        hal_delay::DelayMs::delay_ms(&mut self.0, ms)
    }
}

impl DelayUs for NoDelay {
    fn delay_us(&mut self, us: u16) {
        hal_delay::DelayUs::delay_us(&mut self.0, us)
    }
}

fn sensor(expectations: &[i2c::Transaction]) -> Sgp30<MockBus> {
    Sgp30::init(MockBus(i2c::Mock::new(expectations)))
}

fn no_delay() -> NoDelay {
    NoDelay(delay::MockNoop::new())
}

fn finish(sensor: Sgp30<MockBus>) {
    let mut mock = sensor.destroy();
    mock.0.done();
}

fn io_error() -> MockError {
    MockError::Io(std::io::ErrorKind::Other)
}

#[test]
fn test_feature_set_good() {
    let expectations = vec![
        i2c::Transaction::write(I2C_ADDRESS, vec![0x20, 0x2F]),
        i2c::Transaction::read(I2C_ADDRESS, vec![0x00, 0x22, calculate_crc(&[0x00, 0x22])]),
    ];
    let mut sensor = sensor(&expectations);
    let mut delay = no_delay();

    let (typ, version) = sensor.get_feature_set(&mut delay).unwrap();
    assert_eq!(typ, 0);
    assert_eq!(version, 0x22);

    finish(sensor);
}

#[test]
fn test_feature_set_bad_crc() {
    let expectations = vec![
        i2c::Transaction::write(I2C_ADDRESS, vec![0x20, 0x2F]),
        i2c::Transaction::read(I2C_ADDRESS, vec![0x00, 0x22, !calculate_crc(&[0x00, 0x22])]),
    ];
    let mut sensor = sensor(&expectations);
    let mut delay = no_delay();

    let version = sensor.get_feature_set(&mut delay);
    assert_eq!(Err(Error::InvalidCrc), version);

    finish(sensor);
}

#[test]
fn test_sensor_init() {
    let expectations = vec![i2c::Transaction::write(I2C_ADDRESS, vec![0x20, 0x03])];
    let mut sensor = sensor(&expectations);
    let mut delay = no_delay();

    sensor.iaq_init(&mut delay).unwrap();

    finish(sensor);
}

#[test]
fn test_measure_aq() {
    let co2_be = 400u16.to_be_bytes();
    let tvoc_be = 0u16.to_be_bytes();

    let expectations = vec![
        i2c::Transaction::write(I2C_ADDRESS, vec![0x20, 0x08]),
        i2c::Transaction::read(
            I2C_ADDRESS,
            vec![
                co2_be[0],
                co2_be[1],
                calculate_crc(&co2_be),
                tvoc_be[0],
                tvoc_be[1],
                calculate_crc(&tvoc_be),
            ],
        ),
    ];
    let mut sensor = sensor(&expectations);
    let mut delay = no_delay();

    let (co2, tvoc) = sensor.measure_iaq(&mut delay).unwrap();
    assert_eq!(co2, 400);
    assert_eq!(tvoc, 0);

    finish(sensor);
}

#[test]
fn test_get_baseline() {
    let co2_be = 123u16.to_be_bytes();
    let tvoc_be = 321u16.to_be_bytes();

    let expectations = vec![
        i2c::Transaction::write(I2C_ADDRESS, vec![0x20, 0x15]),
        i2c::Transaction::read(
            I2C_ADDRESS,
            vec![
                co2_be[0],
                co2_be[1],
                calculate_crc(&co2_be),
                tvoc_be[0],
                tvoc_be[1],
                calculate_crc(&tvoc_be),
            ],
        ),
    ];
    let mut sensor = sensor(&expectations);
    let mut delay = no_delay();

    let (co2, tvoc) = sensor.get_iaq_baseline(&mut delay).unwrap();
    assert_eq!(co2, 123);
    assert_eq!(tvoc, 321);

    finish(sensor);
}

#[test]
fn test_set_baseline() {
    let co2_be = 123u16.to_be_bytes();
    let tvoc_be = 321u16.to_be_bytes();

    let expectations = vec![i2c::Transaction::write(
        I2C_ADDRESS,
        vec![
            0x20,
            0x1E,
            co2_be[0],
            co2_be[1],
            calculate_crc(&co2_be),
            tvoc_be[0],
            tvoc_be[1],
            calculate_crc(&tvoc_be),
        ],
    )];
    let mut sensor = sensor(&expectations);
    let mut delay = no_delay();

    sensor.set_iaq_baseline(&mut delay, (123, 321)).unwrap();

    finish(sensor);
}

#[test]
fn test_get_inceptive_baseline() {
    let tvoc_be = 321u16.to_be_bytes();

    let expectations = vec![
        i2c::Transaction::write(I2C_ADDRESS, vec![0x20, 0xB3]),
        i2c::Transaction::read(I2C_ADDRESS, vec![tvoc_be[0], tvoc_be[1], calculate_crc(&tvoc_be)]),
    ];
    let mut sensor = sensor(&expectations);
    let mut delay = no_delay();

    let tvoc = sensor.get_tvoc_inceptive_baseline(&mut delay).unwrap();
    assert_eq!(tvoc, 321);

    finish(sensor);
}

#[test]
fn test_set_inceptive_baseline() {
    let tvoc_be = 321u16.to_be_bytes();

    let expectations = vec![i2c::Transaction::write(
        I2C_ADDRESS,
        vec![0x20, 0x77, tvoc_be[0], tvoc_be[1], calculate_crc(&tvoc_be)],
    )];
    let mut sensor = sensor(&expectations);
    let mut delay = no_delay();

    sensor.set_tvoc_baseline(&mut delay, 321).unwrap();

    finish(sensor);
}

#[test]
fn test_measure_raw() {
    let raw_be = 321u16.to_be_bytes();

    let expectations = vec![
        i2c::Transaction::write(I2C_ADDRESS, vec![0x20, 0x50]),
        i2c::Transaction::read(I2C_ADDRESS, vec![raw_be[0], raw_be[1], calculate_crc(&raw_be)]),
    ];
    let mut sensor = sensor(&expectations);
    let mut delay = no_delay();

    let data = sensor.measure_raw(&mut delay).unwrap();
    assert_eq!(data, 321);

    finish(sensor);
}

#[test]
fn test_measure_test() {
    let data = [0xD4, 0x00];

    let expectations = vec![
        i2c::Transaction::write(I2C_ADDRESS, vec![0x20, 0x32]),
        i2c::Transaction::read(I2C_ADDRESS, vec![data[0], data[1], calculate_crc(&data)]),
    ];
    let mut sensor = sensor(&expectations);
    let mut delay = no_delay();

    let res = sensor.measure_test(&mut delay).unwrap();
    assert!(res);

    finish(sensor);
}

#[test]
fn test_get_serial() {
    let serial = 0xAABBCCDDEEFFu64;
    let serial_be = serial.to_be_bytes();

    let mut data = vec![0u8; 9];
    data[0..2].copy_from_slice(&serial_be[2..4]);
    data[2] = calculate_crc(&serial_be[2..4]);
    data[3..5].copy_from_slice(&serial_be[4..6]);
    data[5] = calculate_crc(&serial_be[4..6]);
    data[6..8].copy_from_slice(&serial_be[6..=7]);
    data[8] = calculate_crc(&serial_be[6..=7]);

    let expectations = vec![
        i2c::Transaction::write(I2C_ADDRESS, vec![0x36, 0x82]),
        i2c::Transaction::read(I2C_ADDRESS, data),
    ];
    let mut sensor = sensor(&expectations);
    let mut delay = no_delay();

    let res = sensor.get_serial_id(&mut delay).unwrap();
    assert_eq!(res, serial);

    finish(sensor);
}

#[test]
fn test_set_humidity() {
    let humidity = 50u8;

    let expectations = vec![i2c::Transaction::write(
        I2C_ADDRESS,
        vec![0x20, 0x61, humidity, 0, calculate_crc(&[humidity, 0])],
    )];
    let mut sensor = sensor(&expectations);
    let mut delay = no_delay();

    // 50 g/m³, given in mg/m³.
    sensor.set_absolute_humidity(&mut delay, humidity as u32 * 1000).unwrap();

    finish(sensor);
}

#[test]
fn measure_aq_inverted_checksum_is_invalid_crc() {
    let co2_be = 400u16.to_be_bytes();
    let tvoc_be = 0u16.to_be_bytes();

    let expectations = vec![
        i2c::Transaction::write(I2C_ADDRESS, vec![0x20, 0x08]),
        i2c::Transaction::read(
            I2C_ADDRESS,
            vec![
                co2_be[0],
                co2_be[1],
                calculate_crc(&co2_be),
                tvoc_be[0],
                tvoc_be[1],
                !calculate_crc(&tvoc_be),
            ],
        ),
    ];
    let mut sensor = sensor(&expectations);
    let mut delay = no_delay();

    assert_eq!(sensor.measure_iaq(&mut delay), Err(Error::InvalidCrc));

    finish(sensor);
}

#[test]
fn measure_test_other_pattern_is_false() {
    let data = [0xD4, 0x01];

    let expectations = vec![
        i2c::Transaction::write(I2C_ADDRESS, vec![0x20, 0x32]),
        i2c::Transaction::read(I2C_ADDRESS, vec![data[0], data[1], calculate_crc(&data)]),
    ];
    let mut sensor = sensor(&expectations);
    let mut delay = no_delay();

    assert_eq!(sensor.measure_test(&mut delay), Ok(false));

    finish(sensor);
}

#[test]
fn serial_bad_last_checksum_is_invalid_crc() {
    let mut data = vec![0x12, 0x34, 0, 0x56, 0x78, 0, 0x9A, 0xBC, 0];
    data[2] = calculate_crc(&data[0..2]);
    data[5] = calculate_crc(&data[3..5]);
    data[8] = calculate_crc(&data[6..8]) ^ 0x01;

    let expectations = vec![
        i2c::Transaction::write(I2C_ADDRESS, vec![0x36, 0x82]),
        i2c::Transaction::read(I2C_ADDRESS, data),
    ];
    let mut sensor = sensor(&expectations);
    let mut delay = no_delay();

    assert_eq!(sensor.get_serial_id(&mut delay), Err(Error::InvalidCrc));

    finish(sensor);
}

#[test]
fn write_failure_is_transport_error_and_nothing_is_read() {
    let expectations =
        vec![i2c::Transaction::write(I2C_ADDRESS, vec![0x20, 0x50]).with_error(io_error())];
    let mut sensor = sensor(&expectations);
    let mut delay = no_delay();

    assert_eq!(sensor.measure_raw(&mut delay), Err(Error::I2c(io_error())));

    finish(sensor);
}

#[test]
fn read_failure_is_transport_error() {
    let expectations = vec![
        i2c::Transaction::write(I2C_ADDRESS, vec![0x20, 0x15]),
        i2c::Transaction::read(I2C_ADDRESS, vec![0; 6]).with_error(io_error()),
    ];
    let mut sensor = sensor(&expectations);
    let mut delay = no_delay();

    assert_eq!(sensor.get_iaq_baseline(&mut delay), Err(Error::I2c(io_error())));

    finish(sensor);
}

#[test]
fn set_baseline_write_failure_is_transport_error() {
    let co2_be = 1u16.to_be_bytes();
    let tvoc_be = 2u16.to_be_bytes();
    let expectations = vec![i2c::Transaction::write(
        I2C_ADDRESS,
        vec![
            0x20,
            0x1E,
            co2_be[0],
            co2_be[1],
            calculate_crc(&co2_be),
            tvoc_be[0],
            tvoc_be[1],
            calculate_crc(&tvoc_be),
        ],
    )
    .with_error(io_error())];
    let mut sensor = sensor(&expectations);
    let mut delay = no_delay();

    assert_eq!(sensor.set_iaq_baseline(&mut delay, (1, 2)), Err(Error::I2c(io_error())));

    finish(sensor);
}

#[test]
fn humidity_out_of_range_sends_nothing() {
    let expectations: Vec<i2c::Transaction> = vec![];
    let mut sensor = sensor(&expectations);
    let mut delay = no_delay();

    assert_eq!(
        sensor.set_absolute_humidity(&mut delay, 555_000),
        Err(Error::FixedPointError)
    );
    assert_eq!(
        sensor.set_absolute_humidity(&mut delay, 256_000),
        Err(Error::FixedPointError)
    );

    finish(sensor);
}

#[test]
fn humidity_fraction_is_scaled_by_256() {
    // 15.5 g/m³ is 0x0F80 in 8.8 fixed point.
    let expectations = vec![i2c::Transaction::write(
        I2C_ADDRESS,
        vec![0x20, 0x61, 0x0F, 0x80, calculate_crc(&[0x0F, 0x80])],
    )];
    let mut sensor = sensor(&expectations);
    let mut delay = no_delay();

    sensor.set_absolute_humidity(&mut delay, 15_500).unwrap();

    finish(sensor);
}

#[test]
fn write_only_operations_issue_one_write_each() {
    let expectations = vec![
        i2c::Transaction::write(I2C_ADDRESS, vec![0x20, 0x03]),
        i2c::Transaction::write(I2C_ADDRESS, vec![0x20, 0x77, 0x00, 0x07, calculate_crc(&[0x00, 0x07])]),
        i2c::Transaction::write(I2C_ADDRESS, vec![0x20, 0x61, 0x01, 0x00, calculate_crc(&[0x01, 0x00])]),
    ];
    let mut sensor = sensor(&expectations);
    let mut delay = no_delay();

    sensor.iaq_init(&mut delay).unwrap();
    sensor.set_tvoc_baseline(&mut delay, 7).unwrap();
    sensor.set_absolute_humidity(&mut delay, 1_000).unwrap();

    finish(sensor);
}
