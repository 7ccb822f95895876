//! Exact integer arithmetic on 128-bit words with 256-bit intermediates.

pub mod wide;
