//! Safe, verified core of a binding to the libxc exchange-correlation library.
//!
//! The native calls themselves are made by the application layer; this crate
//! holds everything that decides something about their results: the decoding
//! of native integer codes, the checking of status codes and lookup results,
//! the validation of functional IDs against the enumerated table, and the
//! size of the enumeration buffer.
mod error;
mod functional;
mod util;

pub use error::FunctionalError;
pub use functional::{Functional, FunctionalFamily, FunctionalKind, Polarization};

pub use util::{
    available_count_of, available_functional_count, available_functional_names,
    check_init_status, functional_name, lemma_enumeration_lengths, number_from_lookup,
};
