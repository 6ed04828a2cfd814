use vstd::prelude::*;

verus! {

// A thin protocol client for the MPU-9250 inertial unit, written over an
// abstract I2C port that the user of the library implements for the bus
// hardware at hand.
/// 7-bit I2C address of the inertial unit.
const MPU9250_ADDRESS: u8 = 0x68;

/// An I2C port: the two bus operations the driver needs, implemented by the
/// user over the actual bus hardware.
pub trait I2cAccess {
    /// Write `data` to the device at `addr`.
    fn write(&self, addr: u8, data: &[u8]);

    /// Read `len` bytes from the device at `addr`.
    fn read(&self, addr: u8, len: usize) -> (r: Vec<u8>)
        ensures
            r@.len() == len,
    ;
}

/// The signed 16-bit word that the sensor sends as two big-endian bytes.
pub open spec fn spec_sensor_word(hi: u8, lo: u8) -> i16 {
    (hi as u16 * 256 + lo as u16) as i16
}

fn sensor_word(hi: u8, lo: u8) -> (r: i16)
    ensures
        r == spec_sensor_word(hi, lo),
{
    let h: u16 = hi as u16;
    let l: u16 = lo as u16;
    proof {
        assert(h < 256 && l < 256 ==> ((h << 8) | l) == h * 256 + l) by (bit_vector);
    }
    let v: u16 = (h << 8) | l;
    v as i16
}

/// One sample of the sensor: acceleration and angular rate on three axes,
/// and the die temperature.
pub struct Mpu9250SensorData {
    pub accel: [i16; 3],
    pub gyro: [i16; 3],
    pub temperature: i16,
}

/// Decode one 14-byte sample block as the sensor lays it out: three
/// acceleration words, the temperature word, then three angular-rate words,
/// each big-endian.
pub fn decode_sensor_data(buf: &[u8]) -> (r: Mpu9250SensorData)
    requires
        buf@.len() == 14,
    ensures
        r.accel@[0] == spec_sensor_word(buf@[0], buf@[1]),
        r.accel@[1] == spec_sensor_word(buf@[2], buf@[3]),
        r.accel@[2] == spec_sensor_word(buf@[4], buf@[5]),
        r.temperature == spec_sensor_word(buf@[6], buf@[7]),
        r.gyro@[0] == spec_sensor_word(buf@[8], buf@[9]),
        r.gyro@[1] == spec_sensor_word(buf@[10], buf@[11]),
        r.gyro@[2] == spec_sensor_word(buf@[12], buf@[13]),
{
    let accel0 = sensor_word(buf[0], buf[1]);
    let accel1 = sensor_word(buf[2], buf[3]);
    let accel2 = sensor_word(buf[4], buf[5]);
    let temperature = sensor_word(buf[6], buf[7]);
    let gyro0 = sensor_word(buf[8], buf[9]);
    let gyro1 = sensor_word(buf[10], buf[11]);
    let gyro2 = sensor_word(buf[12], buf[13]);
    Mpu9250SensorData {
        accel: [accel0, accel1, accel2],
        gyro: [gyro0, gyro1, gyro2],
        temperature,
    }
}

/// The driver: an I2C port bound to the sensor's bus address.
pub struct Mpu9250<T: I2cAccess> {
    i2c: T,
}

impl<T: I2cAccess> Mpu9250<T> {
    /// Wake the device and let the magnetometer be reached, then hand back
    /// the driver.
    pub fn new(i2c: T) -> Self {
        let wake = vec![0x6bu8, 0x00];
        i2c.write(MPU9250_ADDRESS, wake.as_slice());
        let bypass = vec![0x37u8, 0x02];
        i2c.write(MPU9250_ADDRESS, bypass.as_slice());
        Mpu9250 { i2c }
    }

    /// Read the identification register.
    pub fn read_who_am_i(&self) -> u8 {
        let reg = vec![0x75u8];
        self.i2c.write(MPU9250_ADDRESS, reg.as_slice());
        let who_am_i = self.i2c.read(MPU9250_ADDRESS, 1);
        who_am_i[0]
    }

    /// Read and decode one sample block, starting at the acceleration
    /// registers.
    pub fn read_sensor_data(&self) -> Mpu9250SensorData {
        let reg = vec![0x3bu8];
        self.i2c.write(MPU9250_ADDRESS, reg.as_slice());
        let buf = self.i2c.read(MPU9250_ADDRESS, 14);
        decode_sensor_data(buf.as_slice())
    }
}

} // verus!
