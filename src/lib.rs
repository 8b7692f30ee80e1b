//! Temperature readings in Celsius, Fahrenheit and Kelvin: parsing of
//! `<number><scale letter>` input, the order in which a reading's equivalents
//! are reported, the texts that the front-ends show and record, and the
//! decisions of the command line and of the converter window.
//!
//! Numeric values are generic throughout the library: the caller picks the
//! number type, parses numbers and applies the conversion formulas, and the
//! library decides everything around them.
pub mod cli;
pub mod gui;
pub mod parse;
pub mod reading;
pub mod report;
pub mod scale;
pub mod usage_log;
pub mod weather;
