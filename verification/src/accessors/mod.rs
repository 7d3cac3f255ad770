//! The accessor annotations `getters`, `setters`, `get` and `set`: their
//! arguments, their configurations and the methods they yield.

pub mod accessor_arg;
pub mod accessor_field_attrs;
pub mod accessor_processor;
pub mod accessor_struct_attrs;

pub use accessor_arg::AccessorArg;
pub use accessor_field_attrs::AccessorFieldAttrs;
pub use accessor_struct_attrs::AccessorStructAttrs;
