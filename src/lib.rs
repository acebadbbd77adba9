//! A client generator for REST interfaces.
//!
//! An interface is a named list of method declarations. Each method may carry
//! an `endpoint("...")` tag whose literal is a path template with positional
//! `{}` placeholders; untagged methods use their own name as the path. From an
//! interface the generator produces a stripped copy of the interface (with the
//! generator's own tags erased) and, for each method, the endpoint template and
//! the parameter names that fill it.
pub mod endpoint;
pub mod error;
pub mod generate;
pub mod model;
pub mod strip;
pub mod template;
