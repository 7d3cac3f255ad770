//! The `constructor` annotation: its arguments, its configuration and the
//! method it yields.

pub mod constructor_arg;
pub mod constructor_processor;
pub mod constructor_struct_attrs;
pub mod constructor_visibility;

pub use constructor_arg::ConstructorArg;
pub use constructor_struct_attrs::ConstructorStructAttrs;
pub use constructor_visibility::ConstructorVisibility;
