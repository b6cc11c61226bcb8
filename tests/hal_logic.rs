use std::convert::TryFrom;

use pic32_hal::hal::adc::{form_bits, AdcConfiguration, ConversionClock, ConversionTrigger, ResultBufferMode, VoltageReference};
use pic32_hal::hal::clock::{Error as ClockError, Osc, RefclockDivisor, Source};
use pic32_hal::hal::coretimer::{next_chunk, rounded_div_u32, Delay};
use pic32_hal::hal::cp0timer::{
    AtOutcome,
    millis_of, secs_of, time_from_duration, time_from_micros, time_from_millis, time_from_secs, TimerEntry,
    TimerState, MAX_DELAY, MAX_TIMERS, MIN_DELAY,
};
use pic32_hal::hal::dma::DmaIrq;
use pic32_hal::hal::i2c::Fscl;
use pic32_hal::hal::interrupt::{bitaddr, byteaddr, ipl_of, isl_of, with_ipl, with_isl, Ipl, Isl, PriorityConvertError};
use pic32_hal::hal::oc::OcConfig;
use pic32_hal::hal::spi::AudioFrameFormat;
use pic32_hal::hal::time::{Hertz, KiloHertz, MegaHertz, U32Ext};
use pic32_hal::hal::timer::{timer_a, timer_b, Clocking};
use pic32_hal::heap::{can_extend, headroom, reserve_extension, Error as HeapError};
use pic32_hal::tinylog::Level;

#[test]
fn cp0_time_conversions() {
    assert_eq!(time_from_micros(5), 100);
    assert_eq!(time_from_millis(2), 40_000);
    assert_eq!(time_from_secs(3), 60_000_000);
    assert_eq!(time_from_duration(7), 140);
    assert_eq!(secs_of(45_000_000), 2);
    assert_eq!(millis_of(45_000_000), 2250);
}

#[test]
fn cp0_counter_extension_detects_wrap() {
    let mut s = TimerState::new();
    assert_eq!(s.now(0xffff_fff0), 0xffff_fff0);
    assert_eq!(s.now(5), 0x1_0000_0005);
    assert_eq!(s.now(6), 0x1_0000_0006);
    assert_eq!(s.timer_high, 1);
}

#[test]
fn cp0_schedule_until_full() {
    let mut s = TimerState::new();
    for k in 0..MAX_TIMERS {
        assert_eq!(s.schedule(1000 + k as u64, k), Ok(k));
    }
    assert_eq!(s.schedule(5, 99), Err(()));
    assert_eq!(s.take_expired(3, 1002), None);
    assert_eq!(s.take_expired(3, 1003), Some(TimerEntry { when: 1003, token: 3 }));
    assert_eq!(s.take_expired(3, 5000), None);
    assert_eq!(s.schedule(7, 42), Ok(3));
}

#[test]
fn cp0_init_once_and_at() {
    let mut s = TimerState::new();
    assert_eq!(s.init(10), Some((10 + MAX_DELAY) as u32));
    assert!(s.is_initialized);
    assert_eq!(s.init(20), None);
    assert_eq!(s.at(5, 1, 5), Ok(AtOutcome::Due));
    assert!(s.timers.iter().all(|t| t.is_none()));
    assert_eq!(s.at(6, 2, 5), Ok(AtOutcome::Scheduled(0)));
    assert_eq!(s.at(7, 3, 5), Ok(AtOutcome::Scheduled(1)));
    assert_eq!(s.timers[1], Some(TimerEntry { when: 7, token: 3 }));
}

#[test]
fn cp0_next_compare_clamps_delay() {
    let mut s = TimerState::new();
    assert_eq!(s.next_compare(1000), (1000 + MAX_DELAY) as u32);
    s.schedule(1010, 0).unwrap();
    assert_eq!(s.next_compare(1000), (1000 + MIN_DELAY) as u32);
    s.schedule(900, 1).unwrap();
    assert_eq!(s.next_compare(1000), 1100);
    let mut t = TimerState::new();
    t.schedule(0x1_0000_5000, 0).unwrap();
    assert_eq!(t.next_compare(0x1_0000_0000), 0x5000);
}

#[test]
fn interrupt_priority_levels() {
    assert_eq!(Ipl::try_from_u8(7).map(|p| p.to_u8()), Ok(7));
    assert_eq!(Ipl::try_from_u8(8), Err(PriorityConvertError));
    assert_eq!(Isl::try_from_u8(3).map(|p| p.to_u8()), Ok(3));
    assert_eq!(Isl::try_from_u8(4), Err(PriorityConvertError));
    assert_eq!(Ipl::try_from(5u8).map(u8::from), Ok(5));
    assert_eq!(Ipl::try_from(200u8), Err(PriorityConvertError));
    assert_eq!(Isl::try_from(2u8).map(u8::from), Ok(2));
    assert!(Isl::try_from(4u8).is_err());
}

#[test]
fn interrupt_register_positions() {
    assert_eq!(bitaddr(37), (1, 1 << 5));
    assert_eq!(bitaddr(0), (0, 1));
    assert_eq!(byteaddr(9), (2, 8));
    let ipl5 = Ipl::try_from_u8(5).unwrap();
    assert_eq!(with_ipl(0, 8, ipl5), 0x1400);
    assert_eq!(with_ipl(0xffff_ffff, 8, ipl5), 0xffff_f7ff);
    assert_eq!(ipl_of(0x1400, 8).to_u8(), 5);
    let isl1 = Isl::try_from_u8(1).unwrap();
    assert_eq!(with_isl(0xffff_ffff, 8, isl1), 0xffff_fdff);
    assert_eq!(isl_of(0xffff_fdff, 8).to_u8(), 1);
}

#[test]
fn frequency_units() {
    assert_eq!(5u32.hz(), Hertz(5));
    assert_eq!(9600u32.bps().0, 9600);
    assert_eq!(10u32.ms().0, 10);
    assert_eq!(3u32.khz().to_hertz(), Hertz(3000));
    assert_eq!(2u32.mhz().to_hertz(), Hertz(2_000_000));
    assert_eq!(MegaHertz(4).to_kilohertz(), KiloHertz(4000));
    assert!(Hertz(1) < Hertz(2));
}

#[test]
fn peripheral_clock() {
    let osc = Osc::new(Hertz(80_000_000));
    assert_eq!(osc.sysclock(), Hertz(80_000_000));
    assert_eq!(osc.pb_clock(0), Hertz(80_000_000));
    assert_eq!(osc.pb_clock(2), Hertz(20_000_000));
}

#[test]
fn refclock_divisor() {
    let (_, rc) = Osc::new_with_refclock(Hertz(40_000_000));
    assert_eq!(rc.set_divisor(0x200, false), Ok(RefclockDivisor { trim: 0, div: 1 }));
    assert_eq!(rc.set_divisor(0xff_ffff, false), Ok(RefclockDivisor { trim: 0x1ff, div: 32767 }));
    assert_eq!(rc.set_divisor(0x1ff, false), Err(ClockError::InvalidArgument));
    assert_eq!(rc.set_divisor(0x100_0000, false), Err(ClockError::InvalidArgument));
    assert_eq!(rc.set_divisor(0x301, true), Err(ClockError::InvalidState));
    assert_eq!(rc.select_source(Source::Sosc, false), Ok(5));
    assert_eq!(rc.select_source(Source::Refclki, false), Ok(8));
    assert_eq!(rc.select_source(Source::Sosc, true), Err(ClockError::InvalidState));
    assert!(rc.set_divisor_ongoing(true, true));
    assert!(!rc.set_divisor_ongoing(false, true));
}

#[test]
fn core_timer_delay_arithmetic() {
    assert_eq!(rounded_div_u32(7, 2), 4);
    assert_eq!(rounded_div_u32(2_000_000_000, 40_000_000), 50);
    let d = Delay::new(Hertz(40_000_000));
    assert_eq!(d.ticks_per_us, 20);
    assert_eq!(d.nanos_per_tick, 50);
    assert_eq!(d.ticks_for_us(1000), 20_000);
    assert_eq!(d.ticks_for_us(u32::MAX), u32::MAX as u64 * 20);
    assert_eq!(d.ticks_for_us_short(500), 10_000);
    assert_eq!(d.ticks_for_ns(1000), 20);
    assert_eq!(next_chunk(5_000_000_000), 0xffff_ffff);
    assert_eq!(next_chunk(12), 12);
}

#[test]
fn adc_register_fields() {
    let mut c = AdcConfiguration::default();
    let f = c.register_fields();
    assert_eq!((f.ssrc, f.samc, f.adrc, f.adcs, f.smpi), (0b111, 31, true, 0, 1));
    assert!(!f.bufm && !f.asam && !f.alts && !f.offcal);
    c.conversion_trigger(ConversionTrigger::Timer3);
    c.conversion_clock(ConversionClock::Pb(3));
    c.voltage_reference(VoltageReference::ExtExt);
    c.result_buffer_mode(ResultBufferMode::DoubleBuffer);
    c.conversions_per_irq(16);
    c.auto_sample(true);
    c.alt_sample_mode(true);
    c.offset_calibration(true);
    let f = c.register_fields();
    assert_eq!((f.ssrc, f.samc, f.adrc, f.adcs, f.vcfg, f.smpi), (0b010, 0, false, 3, 0b11, 16));
    assert!(f.bufm && f.asam && f.alts && f.offcal);
    assert_eq!(form_bits(0b100, true), 0b110);
    assert_eq!(form_bits(0b100, false), 0b100);
}

#[test]
fn peripheral_mode_bits() {
    assert_eq!(OcConfig::Off.ocm_bits(), 0);
    assert_eq!(OcConfig::SinglePulse(1, 2).ocm_bits(), 0b100);
    assert_eq!(OcConfig::ContinuousPulses(1, 2).ocm_bits(), 0b101);
    assert!(AudioFrameFormat::F64S24.mode16() && AudioFrameFormat::F64S24.mode32());
    assert!(!AudioFrameFormat::F32S16.mode16() && !AudioFrameFormat::F32S16.mode32());
    assert_eq!(DmaIrq::CHSD.bits(), 0x80);
    assert_eq!(DmaIrq::CHER.bits(), 0x01);
    assert_eq!(Fscl::F400KHZ.value(), 872600);
    assert_eq!(timer_a::ClockPrescale::Prescale256.bits(), 3);
    assert_eq!(timer_b::ClockPrescale::Prescale256.bits(), 7);
    assert_eq!(Clocking::External.tcs_tgate(), (true, false));
    assert_eq!(Clocking::PbclockGated.tcs_tgate(), (false, true));
}

#[test]
fn log_level_filter() {
    assert!(Level::Error.enabled(Level::Error));
    assert!(!Level::Debug.enabled(Level::Info));
    assert!(Level::Info.enabled(Level::Trace));
    assert_eq!(Level::Trace.as_usize(), 5);
}

#[test]
fn heap_growth_decisions() {
    assert_eq!(headroom(0x1000, 0x0c00), 0x400);
    assert_eq!(headroom(0x0c00, 0x1000), 0);
    assert_eq!(reserve_extension(100, 200, 0x1000, 0x2000), Ok(0));
    assert_eq!(reserve_extension(300, 200, 0x1000, 0x2000), Ok(100));
    assert_eq!(reserve_extension(0x1100, 0x100, 0x1000, 0x2000), Err(HeapError::InsufficientHeadroom));
    assert!(can_extend(0x1000, 0x1401));
    assert!(!can_extend(0x1000, 0x1400));
    assert!(!can_extend(0, 100));
}
