//! In-memory registry of dynamically identified automation objects.
//!
//! The crate models a small building-automation core: objects carry a
//! polymorphic name ([`object_name::ObjectName`]), a set of typed property
//! cells, an optional list of state texts, and a change-notification
//! registry ([`callback::ObjectCallbacks`]) that fires only for writes that
//! arrive over the remote path.

pub mod callback;
pub mod object;
pub mod object_name;
pub mod property;
pub mod registry;
pub mod state_text;
pub mod text_cell;
