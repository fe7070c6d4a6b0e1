//! A software model of one RV64 hart: register and CSR state, privilege levels and trap entry,
//! physical memory protection, and instruction decoding.

pub mod bits;
pub mod config;
pub mod csr;
pub mod decode;
pub mod hart;
pub mod pmp;
pub mod registers;
pub mod trap;

pub use decode::Ast;
pub use hart::{new_core, Core, Privilege};
pub use pmp::AccessType;
pub use trap::ExceptionType;
