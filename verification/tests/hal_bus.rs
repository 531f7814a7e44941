//! The driver on a bus of `embedded-hal`, played by `embedded-hal-mock`.

use embedded_hal::blocking::i2c::{Write, WriteRead};
use embedded_hal_mock::i2c::{Mock, Transaction};
use embedded_hal_mock::MockError;
use isl29125::{Error, Isl29125, OperationModes, Transport, DEVICE_ADDRESS};
use std::io::ErrorKind;

/// Any blocking I2C bus of `embedded-hal` as the driver's transport.
struct HalBus<I2C>(I2C);

impl<I2C, E> Transport for HalBus<I2C>
where
    I2C: Write<Error = E> + WriteRead<Error = E>,
{
    type Error = E;

    fn write(&mut self, address: u8, bytes: &[u8]) -> Result<(), E> {
        self.0.write(address, bytes)
    }

    fn write_read(&mut self, address: u8, bytes: &[u8], buffer: &mut [u8]) -> Result<(), E> {
        self.0.write_read(address, bytes, buffer)
    }
}

#[test]
fn should_return_correct_device_id() {
    let expectations = [Transaction::write_read(
        DEVICE_ADDRESS,
        vec![0x00],
        vec![0x7d],
    )];
    let i2c_dev = Mock::new(&expectations);
    let id = Isl29125::new(HalBus(i2c_dev)).verify_device_id();
    assert_eq!(0x7D, id.unwrap());
}

#[test]
fn should_return_wrong_device_id_error() {
    let expectations = [Transaction::write_read(
        DEVICE_ADDRESS,
        vec![0x00],
        vec![0x75],
    )];
    let i2c_dev = Mock::new(&expectations);
    let id = Isl29125::new(HalBus(i2c_dev)).verify_device_id();
    match id {
        Err(Error::WrongDeviceId) => (),
        _ => panic!("Should return wrong device ID"),
    }
}

#[test]
fn should_update_led_counters() {
    let expectations = [Transaction::write_read(
        DEVICE_ADDRESS,
        vec![0x00],
        vec![0x75],
    )];
    let i2c_dev = Mock::new(&expectations);
    let mut isl29125 = Isl29125::new(HalBus(i2c_dev));
    let data = [0xff, 0x00, 0x00, 0x00, 0x00, 0x00];
    isl29125.set_count_values(data);
    assert_eq!(isl29125.led_counts.green, Some(0x00ff));
    assert_eq!(isl29125.led_counts.blue, Some(0x00));
    assert_eq!(isl29125.led_counts.red, Some(0x00));
}

#[test]
fn bus_failure_is_handed_on_as_it_is() {
    let expectations = [
        Transaction::write_read(DEVICE_ADDRESS, vec![0x00], vec![0x7d])
            .with_error(MockError::Io(ErrorKind::TimedOut)),
    ];
    let mut i2c_dev = Mock::new(&expectations);
    let id = Isl29125::new(HalBus(i2c_dev.clone())).verify_device_id();
    match id {
        Err(Error::I2C(e)) => assert_eq!(e, MockError::Io(ErrorKind::TimedOut)),
        _ => panic!("the bus error should come back"),
    }
    i2c_dev.done();
}

#[test]
fn mode_is_one_write_of_two_bytes() {
    let expectations = [Transaction::write(DEVICE_ADDRESS, vec![0x01, 0x05])];
    let mut i2c_dev = Mock::new(&expectations);
    let mut sensor = Isl29125::new(HalBus(i2c_dev.clone()));
    assert!(sensor.set_operating_mode(OperationModes::Green_Red_Blue).is_ok());
    i2c_dev.done();
}

#[test]
fn counters_come_from_one_read_of_six_bytes() {
    let expectations = [Transaction::write_read(
        DEVICE_ADDRESS,
        vec![0x09],
        vec![0x01, 0x02, 0x03, 0x04, 0x05, 0x06],
    )];
    let mut i2c_dev = Mock::new(&expectations);
    let mut sensor = Isl29125::new(HalBus(i2c_dev.clone()));
    assert!(sensor.read_led_counters().is_ok());
    assert_eq!(sensor.led_counts.green, Some(0x0201));
    assert_eq!(sensor.led_counts.red, Some(0x0403));
    assert_eq!(sensor.led_counts.blue, Some(0x0605));
    i2c_dev.done();
}

#[test]
fn failed_counter_read_keeps_the_counts() {
    let expectations = [
        Transaction::write_read(DEVICE_ADDRESS, vec![0x09], vec![1, 2, 3, 4, 5, 6]),
        Transaction::write_read(DEVICE_ADDRESS, vec![0x09], vec![9, 9, 9, 9, 9, 9])
            .with_error(MockError::Io(ErrorKind::Other)),
    ];
    let mut i2c_dev = Mock::new(&expectations);
    let mut sensor = Isl29125::new(HalBus(i2c_dev.clone()));
    assert!(sensor.read_led_counters().is_ok());
    let before = sensor.led_counts;
    match sensor.read_led_counters() {
        Err(Error::I2C(e)) => assert_eq!(e, MockError::Io(ErrorKind::Other)),
        _ => panic!("the bus error should come back"),
    }
    assert_eq!(sensor.led_counts, before);
    i2c_dev.done();
}

#[test]
fn register_dump_is_one_read() {
    let expectations = [Transaction::write_read(
        DEVICE_ADDRESS,
        vec![0x01],
        vec![0x05, 0x00, 0x00],
    )];
    let mut i2c_dev = Mock::new(&expectations);
    let mut sensor = Isl29125::new(HalBus(i2c_dev.clone()));
    assert_eq!(sensor.read_registers(0x01, 3).unwrap(), vec![0x05, 0x00, 0x00]);
    i2c_dev.done();
}
