//! Declarative function hooking: a compiler for hook declarations and the
//! runtime protocol that resolves hook targets and activates detour slots.

pub mod activation;
pub mod crate_refs;
pub mod diagnostic;
pub mod error;
pub mod expand;
pub mod fold;
pub mod helpers;
pub mod lookup;
pub mod output;
pub mod parse;
pub mod slot;
pub mod syntax;
pub mod token;
pub mod types;

pub use activation::init_detour;
pub use error::{EngineError, Error};
pub use expand::hook_module;
pub use lookup::LookupData;
