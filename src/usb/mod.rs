pub mod bdt;
pub mod bus;
pub mod ecb;
pub mod laws;
pub mod poll;
pub mod regs;
pub mod sie;
pub mod types;
