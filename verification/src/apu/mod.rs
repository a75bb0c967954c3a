pub mod dmc;
pub mod envelope;
pub mod frame_counter;
pub mod length_counter;
pub mod linear_counter;
pub mod noise;
pub mod pulse;
pub mod sweep;
pub mod timer;
pub mod triangle;
pub mod unit;
