use jelly_mem_access::mpu9250::{decode_sensor_data, I2cAccess, Mpu9250};
use std::cell::RefCell;

/// A bench stand-in for the bus: remembers the register selected by the last
/// write and answers reads with a run of bytes starting at that register
/// number.
struct MockI2c {
    selected: RefCell<u8>,
}

impl I2cAccess for MockI2c {
    fn write(&self, _addr: u8, data: &[u8]) {
        if !data.is_empty() {
            *self.selected.borrow_mut() = data[0];
        }
    }

    fn read(&self, _addr: u8, len: usize) -> Vec<u8> {
        let reg = *self.selected.borrow();
        (0..len).map(|i| reg.wrapping_add(i as u8)).collect()
    }
}

#[test]
fn decode_big_endian_words() {
    let buf = [
        0x01, 0x02, // accel x
        0x03, 0x04, // accel y
        0xFF, 0xFF, // accel z: -1
        0x80, 0x00, // temperature: lowest 16-bit value
        0x00, 0x10, // gyro x
        0x7F, 0xFF, // gyro y: largest 16-bit value
        0x00, 0x00, // gyro z
    ];
    let d = decode_sensor_data(&buf);
    assert_eq!(d.accel, [0x0102, 0x0304, -1]);
    assert_eq!(d.temperature, i16::MIN);
    assert_eq!(d.gyro, [0x0010, i16::MAX, 0]);
}

#[test]
fn who_am_i_reads_the_selected_register() {
    let sensor = Mpu9250::new(MockI2c { selected: RefCell::new(0) });
    // the driver selects register 0x75 and reads one byte there
    assert_eq!(sensor.read_who_am_i(), 0x75);
}

#[test]
fn sensor_data_decodes_the_block_at_the_sample_registers() {
    let sensor = Mpu9250::new(MockI2c { selected: RefCell::new(0) });
    // the driver selects register 0x3B; the mock answers 0x3B, 0x3C, ...
    let d = sensor.read_sensor_data();
    assert_eq!(d.accel, [0x3B3C, 0x3D3E, 0x3F40]);
    assert_eq!(d.temperature, 0x4142);
    assert_eq!(d.gyro, [0x4344, 0x4546, 0x4748]);
}
