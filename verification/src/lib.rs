//! Parsing, check-digit computation, generation and validation of Hong Kong
//! Identity Card (HKID) numbers.
//!
//! An HKID number consists of a one- or two-letter prefix, six digits, and a
//! final check character (`0`-`9` or `A`) computed by a weighted-sum-mod-11
//! formula. This crate classifies prefixes and card symbols, computes and
//! checks the check digit, and generates synthetic HKID numbers.

pub mod hkid_check_digit;
pub mod hkid_format;
pub mod hkid_generator;
pub mod hkid_ops;
pub mod hkid_prefix;
pub mod hkid_symbol;
pub mod hkid_validator;
