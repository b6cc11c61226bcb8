pub mod adc;
pub mod clock;
pub mod coretimer;
pub mod cp0timer;
pub mod dma;
pub mod i2c;
pub mod interrupt;
pub mod oc;
pub mod spi;
pub mod time;
pub mod timer;
