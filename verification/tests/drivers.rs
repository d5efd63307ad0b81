use std::cell::Cell;

use rocket_os::config::{DUMMY_IMU_ADDR, DUMMY_VALVE_PIN};
use rocket_os::drivers::imu::{decode_sample, Imu, RawImuData};
use rocket_os::drivers::radio::Radio;
use rocket_os::drivers::valve::Valve;
use rocket_os::error::{DriverError, HalError, RocketError};
use rocket_os::hal::dummy_hal::{get_dummy_hal, DummyHal};
use rocket_os::hal::interface::{FullHardwareAbstraction, I2cBus, InputPin, OutputPin, SpiBus};

fn no_pause(_micros: u64) {}

fn stopwatch() -> &'static Cell<u64> {
    Box::leak(Box::new(Cell::new(0)))
}

fn level<F: Fn(u64) + Copy>(hal: &DummyHal<F>, pin: u8) -> bool {
    hal.get_gpio_pin(pin).unwrap().is_high().unwrap()
}

#[test]
fn valve_starts_closed_with_its_pin_low() {
    let hal = get_dummy_hal(no_pause);
    let mut pin = hal.get_gpio_pin(DUMMY_VALVE_PIN).unwrap();
    pin.set_high().unwrap();
    let valve = Valve::new(pin).unwrap();
    assert!(!valve.is_open());
    assert!(!level(&hal, DUMMY_VALVE_PIN));
}

#[test]
fn valve_opens_and_closes() {
    let hal = get_dummy_hal(no_pause);
    let mut valve = Valve::new(hal.get_gpio_pin(DUMMY_VALVE_PIN).unwrap()).unwrap();

    assert_eq!(valve.open(), Ok(()));
    assert!(level(&hal, DUMMY_VALVE_PIN));
    assert!(valve.is_open());

    assert_eq!(valve.open(), Ok(()));
    assert!(level(&hal, DUMMY_VALVE_PIN));
    assert!(valve.is_open());

    assert_eq!(valve.close(), Ok(()));
    assert!(!level(&hal, DUMMY_VALVE_PIN));
    assert!(!valve.is_open());
}

#[test]
fn second_open_does_not_write_the_pin() {
    let hal = get_dummy_hal(no_pause);
    let mut valve = Valve::new(hal.get_gpio_pin(DUMMY_VALVE_PIN).unwrap()).unwrap();
    assert_eq!(valve.open(), Ok(()));
    // Pull the pin low behind the driver's back: a second write would show.
    hal.get_gpio_pin(DUMMY_VALVE_PIN).unwrap().set_low().unwrap();
    assert_eq!(valve.open(), Ok(()));
    assert!(!level(&hal, DUMMY_VALVE_PIN));
    assert!(valve.is_open());
}

#[test]
fn second_close_does_not_write_the_pin() {
    let hal = get_dummy_hal(no_pause);
    let mut valve = Valve::new(hal.get_gpio_pin(DUMMY_VALVE_PIN).unwrap()).unwrap();
    assert_eq!(valve.open(), Ok(()));
    assert_eq!(valve.close(), Ok(()));
    hal.get_gpio_pin(DUMMY_VALVE_PIN).unwrap().set_high().unwrap();
    assert_eq!(valve.close(), Ok(()));
    assert!(level(&hal, DUMMY_VALVE_PIN));
    assert!(!valve.is_open());
}

#[test]
fn close_of_a_new_valve_does_not_write_the_pin() {
    let hal = get_dummy_hal(no_pause);
    let mut valve = Valve::new(hal.get_gpio_pin(DUMMY_VALVE_PIN).unwrap()).unwrap();
    hal.get_gpio_pin(DUMMY_VALVE_PIN).unwrap().set_high().unwrap();
    assert_eq!(valve.close(), Ok(()));
    assert!(level(&hal, DUMMY_VALVE_PIN));
}

#[test]
fn two_valves_move_two_pins() {
    let hal = get_dummy_hal(no_pause);
    let mut fuel = Valve::new(hal.get_gpio_pin(DUMMY_VALVE_PIN).unwrap()).unwrap();
    let oxidizer = Valve::new(hal.get_gpio_pin(DUMMY_VALVE_PIN + 1).unwrap()).unwrap();
    assert_eq!(fuel.open(), Ok(()));
    assert!(level(&hal, DUMMY_VALVE_PIN));
    assert!(!level(&hal, DUMMY_VALVE_PIN + 1));
    assert!(!oxidizer.is_open());
}

fn radio_on<F: Fn(u64) + Copy>(
    hal: &DummyHal<F>,
) -> Radio<
    <DummyHal<F> as FullHardwareAbstraction>::SpiController,
    <DummyHal<F> as FullHardwareAbstraction>::GpioPin,
    <DummyHal<F> as FullHardwareAbstraction>::GpioPin,
    <DummyHal<F> as FullHardwareAbstraction>::TimerDelay,
> {
    Radio::new(
        hal.get_spi_bus(1).unwrap(),
        hal.get_gpio_pin(20).unwrap(),
        hal.get_gpio_pin(21).unwrap(),
        hal.get_delay_timer(),
    )
    .unwrap()
}

#[test]
fn radio_bring_up_deselects_the_chip_and_settles() {
    let waited = stopwatch();
    let hal = get_dummy_hal(move |micros: u64| waited.set(waited.get() + micros));
    let _radio = radio_on(&hal);
    assert!(level(&hal, 20));
    assert!(!level(&hal, 21));
    assert_eq!(waited.get(), 20_000);
}

#[test]
fn radio_send_takes_the_transmission_time() {
    let waited = stopwatch();
    let hal = get_dummy_hal(move |micros: u64| waited.set(waited.get() + micros));
    let mut radio = radio_on(&hal);
    waited.set(0);
    assert_eq!(radio.send_packet(&[1, 2, 3]), Ok(()));
    assert_eq!(waited.get(), 50_000);
    assert_eq!(radio.send_packet(&[]), Ok(()));
    assert_eq!(waited.get(), 100_000);
    assert!(level(&hal, 20));
}

#[test]
fn radio_reads_a_register_over_the_bus() {
    let hal = get_dummy_hal(no_pause);
    let mut radio = radio_on(&hal);
    assert_eq!(radio.read_reg(0x42), Ok(0xFF));
    assert!(level(&hal, 20));
}

#[test]
fn radio_register_read_sees_a_short_answer() {
    let hal = get_dummy_hal(no_pause);
    // The first request fixes the answer of the bus at one byte.
    let mut one = [0u8; 1];
    hal.get_spi_bus(1).unwrap().transfer(&mut one).unwrap();
    let mut radio = radio_on(&hal);
    assert_eq!(radio.read_reg(0x42), Ok(0));
}

#[test]
fn radio_writes_a_register_over_the_bus() {
    let hal = get_dummy_hal(no_pause);
    let mut radio = radio_on(&hal);
    assert_eq!(radio.write_reg(0x01, 0x85), Ok(()));
    assert!(level(&hal, 20));
}

#[test]
fn radio_receives_nothing_or_a_packet_that_fits() {
    let waited = stopwatch();
    let hal = get_dummy_hal(move |micros: u64| waited.set(waited.get() + micros));
    let mut radio = radio_on(&hal);
    let mut packets = 0;
    let mut lengths = [false; 21];
    for _ in 0..4000 {
        waited.set(0);
        let mut buffer = [0xA5u8; 32];
        let len = radio.receive_packet(&mut buffer).unwrap();
        assert!(len == 0 || (5..=20).contains(&len));
        assert_eq!(&buffer[len..], &[0xA5u8; 32][len..]);
        if len > 0 {
            packets += 1;
            lengths[len] = true;
            assert_eq!(waited.get(), 10_000);
        } else {
            assert_eq!(waited.get(), 0);
        }
    }
    // About one call in ten finds a packet.
    assert!((200..=600).contains(&packets), "{} packets", packets);
    assert!(lengths[5] && lengths[20]);
}

#[test]
fn radio_packet_is_cut_to_a_small_buffer() {
    let hal = get_dummy_hal(no_pause);
    let mut radio = radio_on(&hal);
    let mut seen = false;
    for _ in 0..500 {
        let mut buffer = [0u8; 7];
        let len = radio.receive_packet(&mut buffer).unwrap();
        assert!(len == 0 || (5..=7).contains(&len));
        seen |= len > 0;
    }
    assert!(seen);
}

#[test]
fn radio_packet_in_the_smallest_buffer_fills_it() {
    let hal = get_dummy_hal(no_pause);
    let mut radio = radio_on(&hal);
    for _ in 0..200 {
        let mut buffer = [0u8; 5];
        let len = radio.receive_packet(&mut buffer).unwrap();
        assert!(len == 0 || len == 5);
    }
}

#[test]
fn radio_packet_bytes_are_random() {
    let hal = get_dummy_hal(no_pause);
    let mut radio = radio_on(&hal);
    let mut seen = [false; 256];
    for _ in 0..4000 {
        let mut buffer = [0u8; 32];
        let len = radio.receive_packet(&mut buffer).unwrap();
        for byte in &buffer[..len] {
            seen[*byte as usize] = true;
        }
    }
    assert!(seen.iter().filter(|s| **s).count() > 200);
}

#[test]
fn imu_bring_up_waits_and_reads_the_identity() {
    let waited = stopwatch();
    let hal = get_dummy_hal(move |micros: u64| waited.set(waited.get() + micros));
    let imu = Imu::new(hal.get_i2c_bus(0).unwrap(), hal.get_delay_timer(), DUMMY_IMU_ADDR);
    let imu = imu.unwrap();
    // Two pauses of the driver, and the bus turning round once.
    assert_eq!(waited.get(), 100_000 + 50_000 + 50);
    assert_eq!(imu.accel_scale(), 16384);
    assert_eq!(imu.gyro_scale(), 131);
}

#[test]
fn imu_bring_up_fails_where_no_sensor_is() {
    let waited = stopwatch();
    let hal = get_dummy_hal(move |micros: u64| waited.set(waited.get() + micros));
    let imu = Imu::new(hal.get_i2c_bus(0).unwrap(), hal.get_delay_timer(), 0x69);
    match imu {
        Err(e) => {
            assert_eq!(e, RocketError::Driver(DriverError::HalError(HalError::UnexpectedDevice)))
        }
        Ok(_) => panic!("bring-up went through without a sensor"),
    }
    assert_eq!(waited.get(), 100_000);
}

#[test]
fn imu_bring_up_overwrites_the_first_register() {
    // Naming the identity register is a one-byte write, which stores nothing.
    let hal = get_dummy_hal(no_pause);
    let mut bus = hal.get_i2c_bus(0).unwrap();
    bus.write(DUMMY_IMU_ADDR, &[0, 0x12, 0x34]).unwrap();
    let _imu = Imu::new(hal.get_i2c_bus(0).unwrap(), hal.get_delay_timer(), DUMMY_IMU_ADDR);
    let mut buffer = [0u8; 2];
    bus.read(DUMMY_IMU_ADDR, &mut buffer).unwrap();
    assert_eq!(buffer, [0x12, 0x34]);
}

#[test]
fn imu_reads_the_registers_as_words() {
    let hal = get_dummy_hal(no_pause);
    let mut bus = hal.get_i2c_bus(0).unwrap();
    let mut imu =
        Imu::new(hal.get_i2c_bus(0).unwrap(), hal.get_delay_timer(), DUMMY_IMU_ADDR).unwrap();
    // Low bytes are kept away from 0xFF, so that noise cannot carry.
    bus.write(
        DUMMY_IMU_ADDR,
        &[0, 0x40, 0x00, 0xC0, 0x00, 0x00, 0x10, 0x0D, 0x48, 0x00, 0x83, 0xFF, 0x7D, 0x12, 0x34],
    )
    .unwrap();
    for _ in 0..50 {
        let sample = imu.read_data().unwrap();
        let near = |value: i16, centre: i32, spread: i32| {
            let value = value as i32;
            centre <= value && value <= centre + spread
        };
        // Noise of up to 4 on each byte: up to 4 * 256 + 4 on each word.
        assert!(near(sample.accel[0], 0x4000, 0x0404));
        assert!(near(sample.accel[1], -0x4000, 0x0404));
        assert!(near(sample.accel[2], 0x0010, 0x0404));
        assert!(near(sample.gyro[0], 0x0083, 0x0404));
        assert!(near(sample.gyro[1], -0x0083, 0x0404));
        assert!(near(sample.gyro[2], 0x1234, 0x0404));
        assert!((0x0D47..=0x0D49).contains(&sample.temp));
    }
}

#[test]
fn imu_register_helpers_reach_the_sensor() {
    let hal = get_dummy_hal(no_pause);
    let mut imu =
        Imu::new(hal.get_i2c_bus(0).unwrap(), hal.get_delay_timer(), DUMMY_IMU_ADDR).unwrap();
    assert_eq!(imu.write_register(3, 0x77), Ok(()));
    // A register read names a register and then reads from the start.
    assert_eq!(imu.read_register(3), Ok(0));
    let mut bus = hal.get_i2c_bus(0).unwrap();
    let mut buffer = [0u8; 4];
    bus.read(DUMMY_IMU_ADDR, &mut buffer).unwrap();
    assert_eq!(buffer, [0, 0, 0, 0x77]);
}

#[test]
fn decode_takes_seven_words_in_order() {
    let registers = [
        0x40, 0x00, 0xFF, 0xFF, 0x80, 0x00, 0x0D, 0x48, 0x00, 0x83, 0x7F, 0xFF, 0xFF, 0x7D,
    ];
    assert_eq!(
        decode_sample(&registers),
        RawImuData { accel: [16384, -1, -32768], gyro: [131, 32767, -131], temp: 3400 }
    );
    assert_eq!(
        decode_sample(&[0; 14]),
        RawImuData { accel: [0; 3], gyro: [0; 3], temp: 0 }
    );
}

#[test]
fn one_g_of_raw_acceleration_is_standard_gravity() {
    let hal = get_dummy_hal(no_pause);
    let imu =
        Imu::new(hal.get_i2c_bus(0).unwrap(), hal.get_delay_timer(), DUMMY_IMU_ADDR).unwrap();
    let mut registers = [0u8; 14];
    registers[0] = 0x40;
    let sample = decode_sample(&registers);
    assert_eq!(sample.accel[0], 16384);
    let acceleration = sample.accel[0] as f32 / imu.accel_scale() as f32 * 9.81;
    assert!((acceleration - 9.81).abs() < 1e-6);
    let rate = (131.0f32 / imu.gyro_scale() as f32).to_radians();
    assert!((rate - std::f32::consts::PI / 180.0).abs() < 1e-6);
}

#[test]
fn radio_gives_no_packet_to_a_buffer_below_the_shortest() {
    let waited = stopwatch();
    let hal = get_dummy_hal(move |micros: u64| waited.set(waited.get() + micros));
    let mut radio = radio_on(&hal);
    waited.set(0);
    for capacity in 0..5usize {
        for _ in 0..200 {
            let mut buffer = vec![0x3Cu8; capacity];
            assert_eq!(radio.receive_packet(&mut buffer), Ok(0));
            assert_eq!(buffer, vec![0x3Cu8; capacity]);
        }
    }
    assert_eq!(waited.get(), 0);
}

#[test]
fn store_packet_copies_the_packet_to_the_start() {
    let waited = stopwatch();
    let hal = get_dummy_hal(move |micros: u64| waited.set(waited.get() + micros));
    let mut radio = radio_on(&hal);
    waited.set(0);
    let mut buffer = [0xEEu8; 8];
    assert_eq!(radio.store_packet(&mut buffer, Some(&[1, 2, 3, 4, 5])), Ok(5));
    assert_eq!(buffer, [1, 2, 3, 4, 5, 0xEE, 0xEE, 0xEE]);
    assert_eq!(waited.get(), 10_000);
    assert!(level(&hal, 20));
}

#[test]
fn store_packet_without_a_packet_does_nothing() {
    let waited = stopwatch();
    let hal = get_dummy_hal(move |micros: u64| waited.set(waited.get() + micros));
    let mut radio = radio_on(&hal);
    waited.set(0);
    let mut buffer = [0xEEu8; 8];
    assert_eq!(radio.store_packet(&mut buffer, None), Ok(0));
    assert_eq!(buffer, [0xEEu8; 8]);
    assert_eq!(waited.get(), 0);
}

#[test]
fn store_packet_takes_a_packet_that_fills_the_buffer() {
    let hal = get_dummy_hal(no_pause);
    let mut radio = radio_on(&hal);
    let mut buffer = [0u8; 3];
    assert_eq!(radio.store_packet(&mut buffer, Some(&[7, 8, 9])), Ok(3));
    assert_eq!(buffer, [7, 8, 9]);
}

#[test]
fn store_packet_takes_an_empty_packet() {
    let waited = stopwatch();
    let hal = get_dummy_hal(move |micros: u64| waited.set(waited.get() + micros));
    let mut radio = radio_on(&hal);
    waited.set(0);
    let mut buffer = [5u8; 2];
    assert_eq!(radio.store_packet(&mut buffer, Some(&[])), Ok(0));
    assert_eq!(buffer, [5, 5]);
    assert_eq!(waited.get(), 10_000);
}

#[test]
fn radio_bring_up_raises_a_select_pin_that_was_low() {
    let hal = get_dummy_hal(no_pause);
    let mut cs = hal.get_gpio_pin(20).unwrap();
    cs.set_low().unwrap();
    let radio = Radio::new(
        hal.get_spi_bus(1).unwrap(),
        cs.clone(),
        hal.get_gpio_pin(21).unwrap(),
        hal.get_delay_timer(),
    );
    assert!(radio.is_ok());
    assert_eq!(cs.is_high(), Ok(true));
}

#[test]
fn valve_on_a_pin_that_was_high_starts_closed() {
    let hal = get_dummy_hal(no_pause);
    let mut pin = hal.get_gpio_pin(DUMMY_VALVE_PIN).unwrap();
    pin.set_high().unwrap();
    let valve = Valve::new(pin.clone());
    assert!(valve.is_ok());
    assert!(!valve.unwrap().is_open());
    assert_eq!(pin.is_high(), Ok(false));
}

#[test]
fn imu_operations_succeed_on_the_sensor() {
    let hal = get_dummy_hal(no_pause);
    let mut imu =
        Imu::new(hal.get_i2c_bus(0).unwrap(), hal.get_delay_timer(), DUMMY_IMU_ADDR).unwrap();
    assert!(imu.read_data().is_ok());
    assert_eq!(imu.read_register(0x75), Ok(0));
    assert_eq!(imu.write_register(0x6B, 0), Ok(()));
}
