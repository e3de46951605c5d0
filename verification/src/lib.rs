//! Phantom types: parsing the declaration of a data-free generic type,
//! expanding its derive requests into implementations, and working out the
//! variance marker of each generic parameter.

pub mod args;
pub mod attr;
pub mod derive;
pub mod error;
pub mod invocation;
pub mod parse;
pub mod stream;
pub mod template;
pub mod token;
pub mod variance;
