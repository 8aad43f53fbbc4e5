//! Interrupt-bridged completion core for a microcontroller HAL: time and
//! alarm drivers, the waker bridge, DMA completion, buffered serial rings,
//! and the clock, pin and bus computations around them.

pub mod alarm;
pub mod cctl;
pub mod dma;
pub mod exti;
pub mod fmc;
pub mod gpio;
pub mod ring_buffer;
pub mod spi;
pub mod systick;
pub mod time;
pub mod timedriver_rtc;
pub mod usart;
pub mod waker;

pub use time::Hertz;
