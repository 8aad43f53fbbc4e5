use embassy_gd32_core::time::Hertz;
use embassy_gd32_core::usart::{calc_bauddiv, line_control, Config, DataBits, Oversample, Parity, StopBits};

#[test]
fn usart_test_calc_bauddiv_16() {
    let pclk = Hertz::mhz(32);
    let baud = 115200;
    let bauddiv = calc_bauddiv(pclk, baud, Oversample::SixteenTimes);

    //17.36
    let intdiv = bauddiv >> 4;
    assert_eq!(17, intdiv);

    let fradiv = bauddiv & 0xf;
    assert_eq!(6, fradiv);
}

#[test]
fn usart_test_calc_bauddiv_8() {
    let pclk = Hertz::mhz(32);
    let baud = 115200;
    let bauddiv = calc_bauddiv(pclk, baud, Oversample::EightTimes);

    //34.72
    let intdiv = bauddiv >> 4;
    assert_eq!(34, intdiv);

    let fradiv = bauddiv & 0xf;
    assert_eq!(12, fradiv);
}

#[test]
fn usart_test2_calc_bauddiv_16() {
    let pclk = Hertz::mhz(32);
    let baud = 900;
    let bauddiv = calc_bauddiv(pclk, baud, Oversample::SixteenTimes);

    //2222.25
    let intdiv = bauddiv >> 4;
    assert_eq!(2222, intdiv);

    let fradiv = bauddiv & 0xf;
    assert_eq!(4, fradiv);
}

#[test]
fn mod_test_calc_bauddiv_16() {
    let pclk = Hertz::mhz(32);
    let baud = 115200;
    let bauddiv = calc_bauddiv(pclk, baud, Oversample::SixteenTimes);

    //17.36
    let intdiv = bauddiv >> 4;
    assert_eq!(17, intdiv);

    let fradiv = bauddiv & 0xf;
    assert_eq!(6, fradiv);
}

#[test]
fn mod_test_calc_bauddiv_8() {
    let pclk = Hertz::mhz(32);
    let baud = 115200;
    let bauddiv = calc_bauddiv(pclk, baud, Oversample::EightTimes);

    //34.72
    let intdiv = bauddiv >> 4;
    assert_eq!(34, intdiv);

    let fradiv = bauddiv & 0xf;
    assert_eq!(12, fradiv);
}

#[test]
fn mod_test2_calc_bauddiv_16() {
    let pclk = Hertz::mhz(32);
    let baud = 900;
    let bauddiv = calc_bauddiv(pclk, baud, Oversample::SixteenTimes);

    //2222.25
    let intdiv = bauddiv >> 4;
    assert_eq!(2222, intdiv);

    let fradiv = bauddiv & 0xf;
    assert_eq!(4, fradiv);
}

#[test]
fn bauddiv_eight_times_keeps_low_32_bits() {
    // 0xC000_0000 doubled is 0x1_8000_0000; only 0x8000_0000 is kept.
    let d = calc_bauddiv(Hertz::hz(0xC000_0000), 1, Oversample::EightTimes);
    assert_eq!(d, 0);
    // (0xC000_0000 + 0x8000) doubled keeps 0x8001_0000.
    let d = calc_bauddiv(Hertz::hz(0xC000_0000), 0x1_0000, Oversample::EightTimes);
    assert_eq!(d, 0x8001);
}

#[test]
fn default_config_and_line_control() {
    let c = Config::default();
    assert_eq!(c.baudrate, 115200);
    assert_eq!(c.data_bits, DataBits::DataBits8);
    assert_eq!(c.data_bits.bits(), 3);
    assert_eq!(DataBits::DataBits5.bits(), 0);
    let lc = line_control(&c);
    assert!(!lc.parity_enable);
    assert_eq!(lc.stop_bits, 0);
    let odd = Config { parity: Parity::ParityOdd, stop_bits: StopBits::STOP2, ..c };
    let lc = line_control(&odd);
    assert!(lc.parity_enable && lc.parity_odd);
    assert_eq!(lc.stop_bits, 2);
    let even = Config { parity: Parity::ParityEven, ..c };
    let lc = line_control(&even);
    assert!(lc.parity_enable && !lc.parity_odd);
}
