//! Control logic of a two-channel DAC sine-wave generator for the
//! LCard E14-140 module: the device-opening protocol, the double-buffered
//! streaming loop, multi-cycle sequencing, command-line layout checks,
//! the terminal front end's key handling, and the byte-level parsing of
//! the vendor DLL's PE header and C strings.
#![allow(non_snake_case)]
#![allow(non_camel_case_types)]

pub mod cli;
pub mod cstring;
pub mod cycles;
pub mod device;
pub mod pe;
pub mod text;
pub mod ui;
pub mod stream;
