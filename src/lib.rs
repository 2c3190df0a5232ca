//! Object runtime of an ActionScript 3 virtual machine: qualified names,
//! the object arena with its variants, primitive coercion, application
//! domains and the reflection entry points of `flash.utils`.

pub mod activation;
pub mod coerce;
pub mod date;
pub mod domain;
pub mod error;
pub mod names;
pub mod object;
pub mod property;
pub mod utils;

pub use activation::Activation;
pub use date::{date_allocator, DateObject};
pub use error::Error;
pub use names::{Namespace, QName};
pub use object::{DateObjectData, ObjRef, ObjectArena, ObjectData, Value};
pub use utils::{
    get_definition_by_name, get_qualified_class_name, get_qualified_super_class_name, get_timer,
};
