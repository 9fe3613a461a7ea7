//! The calls this library makes into other crates and into parts of the
//! standard library that the verifier has no specification for.
//!
//! Every function here is believed, not proved: its contract restates what
//! the called function's source or documentation says. Results that are a
//! function of the arguments alone but take pages to define (a digest, an
//! encoding, the verdict of a parser) are given a name, an uninterpreted
//! spec function, so that callers can speak of them exactly.

pub mod chars;
pub mod clock;
pub mod codec;
pub mod email;
pub mod jwt;
pub mod password;
pub mod random;
