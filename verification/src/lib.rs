pub mod callback;
pub mod error;
pub mod extra;
pub mod failure;
pub mod lock;
pub mod ref_stack;
pub mod registry;
pub mod userdata;
