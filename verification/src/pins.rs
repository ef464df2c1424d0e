//! Pin assignments of the two SPI sides on the board's headers.

pub mod master;
pub mod slave;
