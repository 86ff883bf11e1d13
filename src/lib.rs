//! Capability compiler: turns an entity description and a list of requested
//! CRUD capabilities into a plan of capability interfaces, binds handler
//! functions to those interfaces, and maps token grants onto the same
//! capability vocabulary at run time.
//!
//! - `vocabulary`: the capability tags, operation carriers and their binding
//!   to runtime capabilities.
//! - `meta`: the arguments of an annotation and the options read from them.
//! - `naming`: names of generated interfaces and identifier aliases.
//! - `synth`, `entity`: the interfaces an entity's annotation generates.
//! - `binder`: handler bindings and the registry they resolve against.
//! - `service`: the service container's backing resource and field.
//! - `bridge`, `perform`: token grants at run time and the guarded dispatch.
//! - `laws`: properties of generation, proved.
pub mod binder;
pub mod bridge;
pub mod entity;
pub mod error;
pub mod laws;
pub mod meta;
pub mod naming;
pub mod perform;
pub mod service;
pub mod synth;
pub mod vocabulary;

pub use bridge::FilterConfig;
pub use error::GenError;
pub use vocabulary::{
    CapToEnum, Capability, Create, Delete, DeleteAll, EmptyInput, Read, ReadAll, Update, UpdateAll,
};
