//! A write-once optional value, and the same error-shaping writes for the
//! set-once cells of `std`.
pub mod cell_ext;
pub mod error;
pub mod once_option;

pub use cell_ext::OnceCellExt;
pub use error::SomeError;
pub use once_option::OnceOption;
