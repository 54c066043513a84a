//! Sidetone core for a serial Morse keyer: the keyer protocol client and the
//! timing state of the real-time audio engine, both free of I/O.

pub mod jack_handlers;
pub mod shared;
pub mod winkey;
