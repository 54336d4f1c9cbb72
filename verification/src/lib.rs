//! Safe-side logic of a binding to a native virtual-reality runtime: typed
//! status codes, the decisions taken on the runtime's replies, the life
//! cycle of the interface tables, and the generator of the enumeration
//! definitions.

pub mod applications;
pub mod bytes;
pub mod context;
pub mod display;
pub mod enums;
pub mod generator;
pub mod input;
mod internal;
pub mod overlay;
pub mod reply;
pub mod system;
pub mod text;

pub(crate) use internal::Sealed;
