//! The Rust side of R extensions: conversions between R's values and Rust's,
//! R conditions and error messages, the bookkeeping that keeps R objects
//! alive, allocators on R's memory, R wrapper generation from exported
//! metadata, graphics settings, and matrices in R's column-major layout.
pub mod cnd;
pub mod conditions;
pub mod conversions;
pub mod error;
pub mod functions;
pub mod graphics;
pub mod io;
pub mod logical;
pub mod matrix;
pub mod metadata;
pub mod na;
pub mod ownership;
pub mod ralloc;
pub mod rawalloc;
pub mod rtype;
pub mod text;
