pub mod address_mode;
pub mod alu;
pub mod control;
pub mod dma;
pub mod memory;
pub mod nop;
pub mod processor;
pub mod rwm;
pub mod status;
pub mod step;
pub mod transfer;
pub mod unofficial;
