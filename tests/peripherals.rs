use embassy_gd32_core::cctl::{
    compute_clocks, config_valid, flash_wait_states, pll_mf, AHBPreDiv, APBPreDiv, ClockSrc, Config,
    LXTALConfig, PLLConfig, PLLMul, PLLPreDiv, PLLSource,
};
use embassy_gd32_core::exti::{arm_line, poll_edge, AnyChannel, ExtiRegisters};
use embassy_gd32_core::fmc::{erase_pages, is_page_aligned, write_words, Error as FlashError, FlashWord, PAGE_SIZE};
use embassy_gd32_core::gpio::{input_latch, input_mode, mode_field, output_mode, set_mode, AnyPin, Level, OutputType, Pull, Speed};
use embassy_gd32_core::spi::{
    buffer_count, check_error_flags, compute_baud_rate, transfer_count, Error as SpiError, FrameFormat, Prescaler,
    Word, WordSize,
};
use embassy_gd32_core::time::{ClockDivider, ClockMultiplier, Hertz};
use embassy_gd32_core::waker::{Poll, WakerSlot};

#[test]
fn hertz_constructors_and_scaling() {
    assert_eq!(Hertz::hz(5), Hertz(5));
    assert_eq!(Hertz::khz(3), Hertz(3_000));
    assert_eq!(Hertz::mhz(2), Hertz(2_000_000));
    assert_eq!(Hertz::mhz(8).div(&4u32), Hertz(2_000_000));
    assert_eq!(Hertz::mhz(8).mul(&3u32), Hertz(24_000_000));
    assert_eq!(*Hertz(7).as_ref(), 7);
    assert_eq!(4u32.multiply(Hertz(5)), Hertz(20));
    assert_eq!(4u32.divide(Hertz(21)), Hertz(5));
}

#[test]
fn prescalers_divide_and_encode() {
    assert_eq!(AHBPreDiv::Div1.operate(Hertz(100)), (Hertz(100), 0));
    assert_eq!(AHBPreDiv::Div512.operate(Hertz::mhz(1)), (Hertz(1953), 0b1111));
    assert_eq!(AHBPreDiv::Div64.divide(Hertz(640)), Hertz(10));
    assert_eq!(APBPreDiv::Div16.operate(Hertz(160)), (Hertz(10), 0b111));
    assert_eq!(APBPreDiv::Div2.divide(Hertz(9)), Hertz(4));
    assert_eq!(PLLPreDiv::Div2.divide(Hertz(9)), Hertz(4));
    assert_eq!(PLLMul::factor(12).multiply(Hertz::mhz(4)), Hertz::mhz(48));
    assert_eq!(pll_mf(PLLMul::factor(2)), 0);
    assert_eq!(pll_mf(PLLMul::factor(16)), 14);
    assert_eq!(pll_mf(PLLMul::factor(17)), 16);
    assert_eq!(pll_mf(PLLMul::factor(63)), 62);
}

#[test]
fn default_clock_tree_runs_on_internal_oscillator() {
    let c = Config::default();
    assert!(config_valid(&c));
    let s = compute_clocks(&c);
    assert_eq!(s.clocks.sys, Hertz::mhz(8));
    assert_eq!(s.clocks.apb2, Hertz::mhz(8));
    assert_eq!(s.system_source, 0);
    assert!(!s.pll_on && !s.high_drive);
    assert_eq!(s.flash_wait_states, 0);
}

#[test]
fn pll_clock_tree() {
    let c = Config {
        pll: PLLConfig::On(PLLSource::HXTAL(Hertz::mhz(8), PLLPreDiv::Div1), PLLMul::factor(22)),
        ck_sys: ClockSrc::PLL,
        ahb_prediv: AHBPreDiv::Div1,
        apb1_prediv: APBPreDiv::Div2,
        apb2_prediv: APBPreDiv::Div1,
        lxtal: LXTALConfig::Off,
    };
    assert!(config_valid(&c));
    let s = compute_clocks(&c);
    assert_eq!(s.clocks.sys, Hertz::mhz(176));
    assert_eq!(s.clocks.apb1, Hertz::mhz(88));
    assert_eq!(s.clocks.apb2, Hertz::mhz(176));
    assert_eq!(s.system_source, 2);
    assert!(s.pll_on && s.pll_external && s.high_drive);
    assert_eq!(s.pll_mf, 21);
    assert_eq!(s.apb1_bits, 0b100);
    assert_eq!(s.flash_wait_states, 4);
    let too_fast = Config { pll: PLLConfig::On(PLLSource::IRC48M(PLLPreDiv::Div1), PLLMul::factor(4)), ..c };
    assert!(!config_valid(&too_fast));
    let apb1_too_fast = Config { apb1_prediv: APBPreDiv::Div1, ..c };
    assert!(!config_valid(&apb1_too_fast));
    assert_eq!(flash_wait_states(Hertz::mhz(36)), 0);
    assert_eq!(flash_wait_states(Hertz::mhz(73)), 1);
    assert_eq!(flash_wait_states(Hertz::mhz(100)), 2);
}

#[test]
fn gpio_modes() {
    assert_eq!(set_mode(0xFFFF_FFFF, 0b0100, 1), 0xFFFF_FF4F);
    assert_eq!(set_mode(0, 0b1011, 7), 0xB000_0000);
    assert_eq!(input_mode(Pull::Floating), 0b0100);
    assert_eq!(input_mode(Pull::Up), 0b1000);
    assert_eq!(input_latch(0b0001, 4, Pull::Up), 0b1_0001);
    assert_eq!(input_latch(0b1_0001, 4, Pull::Down), 0b0001);
    assert_eq!(input_latch(0b1_0001, 4, Pull::Floating), 0b1_0001);
    assert_eq!(output_mode(OutputType::AFPushPull, Speed::Low), 0b1001);
    assert_eq!(output_mode(OutputType::GPIOOpenDrain, Speed::VeryHigh), 0b0111);
    let f = mode_field(9);
    assert!(f.upper);
    assert_eq!(f.pos, 1);
    let p = AnyPin::new(1, 13);
    assert_eq!((p.port(), p.pin(), p.pin_port()), (1, 13, 29));
    assert_eq!(Speed::from(Hertz::mhz(10)), Speed::Low);
    assert_eq!(Speed::from(Hertz::mhz(20)), Speed::Medium);
    assert_eq!(Speed::from(Hertz::mhz(21)), Speed::High);
    assert_eq!(Speed::from(Hertz::mhz(51)), Speed::VeryHigh);
    assert_eq!(Level::from(true), Level::High);
    let b: bool = Level::Low.into();
    assert!(!b);
}

#[test]
fn spi_prescaler_choice() {
    assert_eq!(compute_baud_rate(Hertz::mhz(8), Hertz::mhz(4)), Prescaler::DIV2);
    assert_eq!(compute_baud_rate(Hertz::mhz(8), Hertz::mhz(1)), Prescaler::DIV8);
    assert_eq!(compute_baud_rate(Hertz::mhz(48), Hertz::mhz(4)), Prescaler::DIV16);
    assert_eq!(compute_baud_rate(Hertz::mhz(64), Hertz::khz(250)), Prescaler::DIV256);
    assert_eq!(Prescaler::DIV64.divide(Hertz::mhz(64)), Hertz::mhz(1));
    assert_eq!(Prescaler::from_bits(5), Prescaler::DIV64);
    assert_eq!(u8::from(Prescaler::DIV128), 6);
    assert_eq!(Prescaler::DIV4.bits(), 1);
}

#[test]
fn spi_errors_and_counts() {
    assert_eq!(check_error_flags(false, false), Ok(()));
    assert_eq!(check_error_flags(true, false), Err(SpiError::Overrun));
    assert_eq!(check_error_flags(false, true), Err(SpiError::Overrun));
    assert_eq!(buffer_count(65535), Ok(65535));
    assert_eq!(buffer_count(65536), Err(SpiError::BufLen));
    assert_eq!(transfer_count(3, 4), Err(SpiError::BufLen));
    assert_eq!(transfer_count(4, 4), Ok(4));
    assert_eq!(SpiError::from(embassy_gd32_core::dma::Error::TransferError),
        SpiError::DMAError(embassy_gd32_core::dma::Error::TransferError));
    assert_eq!(<u16 as Word>::word_size(), WordSize::Bit16);
    assert_eq!(WordSize::Bit8.ff16(), FrameFormat::EightBit);
    assert_eq!(WordSize::Bit16.ff16(), FrameFormat::SixteenBit);
}

#[test]
fn flash_erase_and_write_plans() {
    assert!(is_page_aligned(0x0800_2000));
    assert_eq!(erase_pages(0x0800_0100, 0x0800_4000), Err(FlashError::PageNotAligned(0x0800_0100)));
    assert_eq!(erase_pages(0x0800_0000, 0x0800_4000), Ok(vec![0x0800_0000, 0x0800_2000]));
    assert_eq!(erase_pages(0x0800_0000, 0x0800_4001), Ok(vec![0x0800_0000, 0x0800_2000, 0x0800_4000]));
    assert_eq!(erase_pages(0x0800_2000, 0x0800_2000), Ok(vec![]));
    assert_eq!(PAGE_SIZE, 8192);
    let w = write_words(0x0800_0000, &[1, 2, 3, 4, 0xAA, 0xBB, 0xCC, 0xDD]);
    assert_eq!(w, vec![
        FlashWord { address: 0x0800_0000, value: 0x0403_0201 },
        FlashWord { address: 0x0800_0004, value: 0xDDCC_BBAA },
    ]);
}

#[test]
fn exti_line_arming_and_edge_poll() {
    let regs = ExtiRegisters { inten: 0b1, rten: 0b1000, ften: 0b1000 };
    let r = arm_line(regs, 3, true, false);
    assert_eq!(r, ExtiRegisters { inten: 0b1001, rten: 0b1000, ften: 0 });
    let r = arm_line(regs, 4, false, true);
    assert_eq!(r, ExtiRegisters { inten: 0b1_0001, rten: 0b1000, ften: 0b1_1000 });
    let mut slot = WakerSlot::new();
    assert_eq!(poll_edge(&mut slot, 0b1_0000, 4, 6), Poll::Pending);
    assert_eq!(poll_edge(&mut slot, 0, 4, 6), Poll::Ready(()));
    assert_eq!(AnyChannel::new(9).number(), 9);
}
