use embedded_hal::spi::{Mode as SpiMode, Phase, Polarity, MODE_0, MODE_3};
use stm32f103xx_hal::time::{Bps, Hertz, KiloHertz, MegaHertz, MicroSeconds, MilliSeconds, Seconds, TimeExt};
use stm32f103xx_hal::i2c::{BusyWait, Error};
use stm32f103xx_hal::{bits, capture, checked, gpio, i2c, iwdg, pwm, pwm2, qei, rtc, serial, spi, timer};

#[test]
fn bits_of_a_word() {
    assert!(bits::is_set(0x8000_0001, 31));
    assert!(bits::is_set(0x8000_0001, 0));
    assert!(!bits::is_set(0x8000_0001, 1));
    assert_eq!(bits::assign(0, 5, true), 0x20);
    assert_eq!(bits::assign(0xff, 5, false), 0xdf);
    assert_eq!(bits::assign(0xff, 5, true), 0xff);
    assert_eq!(bits::lone_word(true, 9), 0x200);
    assert_eq!(bits::lone_word(false, 9), 0);
    assert_eq!(bits::read_pair(0x0000_0c00, 10), 3);
    assert_eq!(bits::read_pair(0x0000_0800, 10), 2);
}

#[test]
fn units_wrap_numbers() {
    assert_eq!(9600.bps(), Bps(9600));
    assert_eq!(8.hz(), Hertz(8));
    assert_eq!(8.khz(), KiloHertz(8));
    assert_eq!(8.mhz(), MegaHertz(8));
    assert_eq!(8.ms(), MilliSeconds(8));
    assert_eq!(8.s(), Seconds(8));
    assert_eq!(8.us(), MicroSeconds(8));
}

#[test]
fn units_convert() {
    assert_eq!(KiloHertz(72).into_hertz(), Hertz(72_000));
    assert_eq!(MegaHertz(72).into_hertz(), Hertz(72_000_000));
    assert_eq!(MegaHertz(72).into_kilohertz(), KiloHertz(72_000));
    assert_eq!(MegaHertz(72).into_kilohertz().into_hertz(), MegaHertz(72).into_hertz());
    assert_eq!(MilliSeconds(3).into_microseconds(), MicroSeconds(3_000));
    assert_eq!(Seconds(3).into_microseconds(), MicroSeconds(3_000_000));
    assert_eq!(Seconds(3).into_milliseconds(), MilliSeconds(3_000));
    assert_eq!(MegaHertz(4294).into_hertz(), Hertz(4_294_000_000));
    assert!(Hertz(1) < Hertz(2));
}

#[test]
fn checked_conversions() {
    assert_eq!(checked::narrow(65535), 65535);
    assert_eq!(checked::narrow(7), 7);
    assert_eq!(checked::try_narrow(65535), Some(65535));
    assert_eq!(checked::try_narrow(65536), None);
    assert_eq!(checked::try_narrow(0x0001_0007), None);
    assert_eq!(checked::widen(65535), 65535u32);
}

#[test]
fn spi_baud_rate_follows_the_ratio() {
    let expected = [
        (1, 0), (2, 0), (3, 1), (5, 1), (6, 2), (11, 2), (12, 3), (23, 3), (24, 4), (47, 4), (48, 5),
        (95, 5), (96, 6), (191, 6), (192, 7), (100_000, 7),
    ];
    for (ratio, code) in expected {
        assert_eq!(spi::baud_rate(ratio * 1000, 1000), code);
    }
    assert_eq!(spi::baud_rate(72_000_000, 1_000_000), 5);
    assert_eq!(spi::baud_rate(8_000_000, 3_000_000), 0);
}

#[test]
fn spi_control_word() {
    assert_eq!(spi::control(MODE_0, 0), 0x0344);
    assert_eq!(spi::control(MODE_3, 5), 0x036f);
    let mode = SpiMode { polarity: Polarity::IdleHigh, phase: Phase::CaptureOnFirstTransition };
    assert_eq!(spi::control(mode, 7), 0x037e);
}

#[test]
fn spi_status_decides() {
    assert_eq!(spi::read(0x01), Ok(()));
    assert_eq!(spi::read(0x02), Err(nb::Error::WouldBlock));
    assert_eq!(spi::send(0x02), Ok(()));
    assert_eq!(spi::send(0x01), Err(nb::Error::WouldBlock));
    assert_eq!(spi::read(0x41), Err(nb::Error::Other(spi::Error::Overrun)));
    assert_eq!(spi::read(0x71), Err(nb::Error::Other(spi::Error::Overrun)));
    assert_eq!(spi::send(0x32), Err(nb::Error::Other(spi::Error::ModeFault)));
    assert_eq!(spi::send(0x12), Err(nb::Error::Other(spi::Error::Crc)));
    assert_eq!(spi::write(0x42), Ok(()));
    assert_eq!(spi::write(0x40), Err(nb::Error::WouldBlock));
    assert_eq!(spi::write(0x62), Err(nb::Error::Other(spi::Error::ModeFault)));
    assert_eq!(spi::write(0x52), Err(nb::Error::Other(spi::Error::Crc)));
    assert!(spi::idle(0x03));
    assert!(!spi::idle(0x83));
}

#[test]
fn serial_status_decides() {
    assert_eq!(serial::read(0x20), Ok(()));
    assert_eq!(serial::read(0xc0), Err(nb::Error::WouldBlock));
    assert_eq!(serial::read(0x2f), Err(nb::Error::Other(serial::Error::Parity)));
    assert_eq!(serial::read(0x2e), Err(nb::Error::Other(serial::Error::Framing)));
    assert_eq!(serial::read(0x2c), Err(nb::Error::Other(serial::Error::Noise)));
    assert_eq!(serial::read(0x28), Err(nb::Error::Other(serial::Error::Overrun)));
    assert_eq!(serial::write(0x80), Ok(()));
    assert_eq!(serial::write(0x40), Err(nb::Error::WouldBlock));
    assert_eq!(serial::flush(0x40), Ok(()));
    assert_eq!(serial::flush(0x80), Err(nb::Error::WouldBlock));
}

#[test]
fn serial_baud_rate() {
    assert_eq!(serial::baud_rate_divisor(Hertz(72_000_000), Bps(115_200)), 625);
    assert_eq!(serial::baud_rate_divisor(Hertz(8_000_000), Bps(9_600)), 833);
    assert_eq!(serial::baud_rate_divisor(Hertz(160), Bps(10)), 16);
}

#[test]
fn capture_status_decides() {
    assert_eq!(capture::capture(0x002), Ok(()));
    assert_eq!(capture::capture(0x000), Err(nb::Error::WouldBlock));
    assert_eq!(capture::capture(0x1fd), Err(nb::Error::WouldBlock));
    assert_eq!(capture::capture(0x202), Err(nb::Error::Other(capture::Error::Overcapture)));
    assert_eq!(capture::capture(0x200), Err(nb::Error::Other(capture::Error::Overcapture)));
}

#[test]
fn capture_prescaler() {
    assert_eq!(capture::prescaler(72_000_000, MicroSeconds(1)), 71);
    assert_eq!(capture::prescaler(72_000_000, MicroSeconds(10)), 710);
    assert_eq!(capture::prescaler(8_000_000, MicroSeconds(100)), 700);
    assert_eq!(capture::prescaler(1, MicroSeconds(100)), 0);
    assert_eq!(capture::prescaler(72_000_000, MicroSeconds(923)), 65533);
}

#[test]
fn timer_clock_doubles_behind_a_divider() {
    assert_eq!(timer::clock(Hertz(36_000_000), 2), 72_000_000);
    assert_eq!(timer::clock(Hertz(8_000_000), 1), 8_000_000);
    assert_eq!(timer::clock(Hertz(9_000_000), 8), 18_000_000);
}

#[test]
fn timer_reload() {
    assert_eq!(timer::start(72_000_000, Hertz(1)), timer::Reload { prescaler: 1098, reload: 65514 });
    assert_eq!(timer::start(72_000_000, Hertz(1000)), timer::Reload { prescaler: 1, reload: 36000 });
    assert_eq!(timer::start(8_000_000, Hertz(1_000_000)), timer::Reload { prescaler: 0, reload: 8 });
    assert_eq!(timer::start(65535, Hertz(1)), timer::Reload { prescaler: 0, reload: 65535 });
    assert_eq!(timer::start(65537, Hertz(1)), timer::Reload { prescaler: 1, reload: 32768 });
}

#[test]
fn timer_wait() {
    assert_eq!(timer::wait(0x1f), Ok(0x1e));
    assert_eq!(timer::wait(0x01), Ok(0));
    assert_eq!(timer::wait(0x1e), Err(nb::Error::WouldBlock));
}

#[test]
fn pwm_channels() {
    type Timer = pwm2::PwmTimer<(), (), (), ()>;
    assert_eq!(Timer::channel_to_ccer_bit(pwm2::Channel::_1), 0);
    assert_eq!(Timer::channel_to_ccer_bit(pwm2::Channel::_2), 4);
    assert_eq!(Timer::channel_to_ccer_bit(pwm2::Channel::_3), 8);
    assert_eq!(Timer::channel_to_ccer_bit(pwm2::Channel::_4), 12);
    assert_eq!(pwm::Pwm::<(), pwm::C1>::new().ccer_bit(), 0);
    assert_eq!(pwm::Pwm::<(), pwm::C2>::new().ccer_bit(), 4);
    assert_eq!(pwm::Pwm::<(), pwm::C3>::new().ccer_bit(), 8);
    assert_eq!(pwm::Pwm::<(), pwm::C4>::new().ccer_bit(), 12);
}

#[test]
fn pwm_period() {
    let timer = pwm2::PwmTimer::<(), (), (), ()>::new(Hertz(72_000_000));
    assert_eq!(timer.set_period(Hertz(1000)), pwm2::Period { prescaler: 1, reload: 36000 });
    assert_eq!(timer.set_period(Hertz(1)), pwm2::Period { prescaler: 1098, reload: 65514 });
    assert_eq!(timer.set_period(Hertz(100_000_000)), pwm2::Period { prescaler: 0, reload: 0 });
    let slow = pwm2::PwmTimer::<(), (), (), ()>::new(Hertz(65536));
    assert_eq!(slow.set_period(Hertz(1)), pwm2::Period { prescaler: 1, reload: 32768 });
    assert_eq!(timer.get_period(pwm2::Period { prescaler: 1, reload: 35999 }), Hertz(1000));
    assert_eq!(timer.get_period(pwm2::Period { prescaler: 0, reload: 0 }), Hertz(72_000_000));
    assert_eq!(timer.get_period(pwm2::Period { prescaler: 65535, reload: 65534 }), Hertz(0));
}

#[test]
fn watchdog_keys() {
    assert_eq!(iwdg::Key::Feed.bits(), 0xAAAA);
    assert_eq!(iwdg::Key::Unlock.bits(), 0x5555);
    assert_eq!(iwdg::Key::Lock.bits(), 0);
    assert_eq!(iwdg::Key::Start.bits(), 0xCCCC);
}

#[test]
fn watchdog_settings() {
    assert_eq!(iwdg::start(26214), iwdg::Settings { prescaler: 6, reload: 4095 });
    assert_eq!(iwdg::start(13108), iwdg::Settings { prescaler: 6, reload: 2047 });
    assert_eq!(iwdg::start(13107), iwdg::Settings { prescaler: 5, reload: 4095 });
    assert_eq!(iwdg::start(1000), iwdg::Settings { prescaler: 2, reload: 2500 });
    assert_eq!(iwdg::start(410), iwdg::Settings { prescaler: 1, reload: 2050 });
    assert_eq!(iwdg::start(409), iwdg::Settings { prescaler: 0, reload: 4095 });
    assert_eq!(iwdg::start(1), iwdg::Settings { prescaler: 0, reload: 10 });
    assert_eq!(iwdg::start(0), iwdg::Settings { prescaler: 0, reload: 0 });
}

#[test]
fn rtc_count_in_two_registers() {
    assert_eq!(rtc::set_alarm(0x1234_5678), rtc::Halves { high: 0x1234, low: 0x5678 });
    assert_eq!(rtc::set_alarm(10), rtc::Halves { high: 0, low: 10 });
    assert_eq!(rtc::read(rtc::Halves { high: 0x1234, low: 0x5678 }), 0x1234_5678);
    assert_eq!(rtc::read(rtc::set_alarm(0xffff_ffff)), 0xffff_ffff);
}

#[test]
fn gpio_configuration() {
    assert_eq!(gpio::Configuration::AlternateOpenDrain.bits(), 0b1111);
    assert_eq!(gpio::Configuration::AlternatePushPull.bits(), 0b1011);
    assert_eq!(gpio::Configuration::FloatingInput.bits(), 0b0100);
    assert_eq!(gpio::Configuration::OpenDrainOutput.bits(), 0b0111);
    assert_eq!(gpio::Configuration::PushPullOutput.bits(), 0b0011);
    assert_eq!(gpio::configure(0x4444_4444, 0, gpio::Configuration::PushPullOutput), 0x4444_4443);
    assert_eq!(gpio::configure(0x4444_4444, 13, gpio::Configuration::PushPullOutput), 0x4434_4444);
    assert_eq!(gpio::configure(0x4444_4444, 9, gpio::Configuration::AlternatePushPull), 0x4444_44b4);
    assert_eq!(gpio::configure(0xffff_ffff, 15, gpio::Configuration::FloatingInput), 0x4fff_ffff);
    assert_eq!(gpio::configure(0, 7, gpio::Configuration::OpenDrainOutput), 0x7000_0000);
    assert_eq!(gpio::configure(0x4444_4444, 6, gpio::Configuration::AlternateOpenDrain), 0x4f44_4444);
}

#[test]
fn gpio_pin_words() {
    assert_eq!(gpio::set_high(13), 0x0000_2000);
    assert_eq!(gpio::set_low(13), 0x2000_0000);
    assert_eq!(gpio::set_high(0), 1);
    assert_eq!(gpio::set_low(15), 0x8000_0000);
    assert!(gpio::is_low(0xffff_dfff, 13));
    assert!(!gpio::is_low(0x0000_2000, 13));
}

#[test]
fn encoder_direction() {
    assert!(qei::direction(0x00) == embedded_hal::Direction::Upcounting);
    assert!(qei::direction(0x10) == embedded_hal::Direction::Downcounting);
    assert!(qei::direction(0xef) == embedded_hal::Direction::Upcounting);
}

#[test]
fn i2c_frequency_of_a_mode() {
    assert_eq!(i2c::Mode::Standard { frequency: 100_000 }.get_frequency(), 100_000);
    assert_eq!(
        i2c::Mode::Fast { frequency: 400_000, duty_cycle: i2c::DutyCycle::Ratio16to9 }.get_frequency(),
        400_000
    );
}

#[test]
fn i2c_timing() {
    assert_eq!(
        i2c::timing(i2c::Mode::Standard { frequency: 100_000 }, 36_000_000),
        i2c::Timing { freq: 36, trise: 37, ccr: 180, fast: false, duty: false }
    );
    assert_eq!(
        i2c::timing(i2c::Mode::Standard { frequency: 400_000 }, 2_000_000),
        i2c::Timing { freq: 2, trise: 3, ccr: 4, fast: false, duty: false }
    );
    assert_eq!(
        i2c::timing(i2c::Mode::Fast { frequency: 400_000, duty_cycle: i2c::DutyCycle::Ratio1to1 }, 36_000_000),
        i2c::Timing { freq: 36, trise: 11, ccr: 30, fast: true, duty: false }
    );
    assert_eq!(
        i2c::timing(i2c::Mode::Fast { frequency: 400_000, duty_cycle: i2c::DutyCycle::Ratio16to9 }, 36_000_000),
        i2c::Timing { freq: 36, trise: 11, ccr: 3, fast: true, duty: true }
    );
    assert_eq!(
        i2c::timing(i2c::Mode::Fast { frequency: 400_000, duty_cycle: i2c::DutyCycle::Ratio16to9 }, 8_000_000),
        i2c::Timing { freq: 8, trise: 3, ccr: 1, fast: true, duty: true }
    );
    assert_eq!(
        i2c::timing(i2c::Mode::Standard { frequency: 1 }, 4_000_000_000),
        i2c::Timing { freq: 160, trise: 161, ccr: 37888, fast: false, duty: false }
    );
}

#[test]
fn i2c_bus_timeout() {
    assert_eq!(i2c::bus_timeout(72_000_000), 180_000);
    assert_eq!(i2c::bus_timeout(4_000), 10);
    assert_eq!(i2c::bus_timeout(3_999), 10);
    assert_eq!(i2c::bus_timeout(0), 10);
    assert_eq!(i2c::bus_timeout(4_400), 11);
}

#[test]
fn i2c_busy_wait() {
    assert_eq!(i2c::busy_wait(0, 0x0001, i2c::SB), BusyWait::Done(Err(Error::Timeout)));
    assert_eq!(i2c::busy_wait(5, 0x0001, i2c::SB), BusyWait::Done(Ok(())));
    assert_eq!(i2c::busy_wait(5, 0x0002, i2c::SB), BusyWait::Again(4));
    assert_eq!(i2c::busy_wait(1, 0x0000, i2c::TXE), BusyWait::Again(0));
    assert_eq!(i2c::busy_wait(5, 0x0f01, i2c::SB), BusyWait::Done(Err(Error::Bus)));
    assert_eq!(i2c::busy_wait(5, 0x0e01, i2c::SB), BusyWait::Done(Err(Error::Arbitration)));
    assert_eq!(i2c::busy_wait(5, 0x0c01, i2c::SB), BusyWait::Done(Err(Error::Acknowledge)));
    assert_eq!(i2c::busy_wait(5, 0x0801, i2c::SB), BusyWait::Done(Err(Error::Overrun)));
    assert_eq!(i2c::busy_wait(5, 0x0040, i2c::RXNE), BusyWait::Done(Ok(())));
    assert_eq!(i2c::busy_wait(5, 0x0004, i2c::BTF), BusyWait::Done(Ok(())));
    assert_eq!(i2c::busy_wait(5, 0x0002, i2c::ADDR), BusyWait::Done(Ok(())));
}

#[test]
fn i2c_address_byte() {
    assert_eq!(i2c::address_byte(0x50, false), 0xa0);
    assert_eq!(i2c::address_byte(0x50, true), 0xa1);
    assert_eq!(i2c::address_byte(0x7f, true), 0xff);
    assert_eq!(i2c::address_byte(0xd0, false), 0xa0);
    assert_eq!(i2c::address_byte(0, true), 1);
}

#[test]
fn i2c_read_plan() {
    assert_eq!(i2c::receive(1), i2c::Receive::One);
    assert_eq!(i2c::receive(2), i2c::Receive::Two);
    assert_eq!(i2c::receive(3), i2c::Receive::Many { single: 0 });
    assert_eq!(i2c::receive(10), i2c::Receive::Many { single: 7 });
}
