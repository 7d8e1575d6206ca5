//! A GPIO-sample based DCF77 time-signal decoder.
//!
//! [`SimpleDCF77Decoder`] turns a stream of 10 ms samples of the receiver's
//! output into bits and minute boundaries; [`DCF77Time`] reads the calendar
//! and clock fields out of one minute's 59-bit telegram and checks them.
pub mod decoder;
pub mod telegram;

pub use decoder::{SimpleDCF77Decoder, SimpleDCF77DecoderState};
pub use telegram::DCF77Time;
