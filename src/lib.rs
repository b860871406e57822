//! Blocking analog-to-digital conversion, with verified unit conversions.

pub mod adc;
