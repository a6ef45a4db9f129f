//! Read-only introspection of a Unity game's managed runtime.
//!
//! The library works over a snapshot of the target's address space: a set of
//! byte regions plus the table of loaded modules.  On top of that it detects
//! which managed-runtime flavour the target embeds, walks the runtime's
//! metadata graph, and resolves class descriptors, field offsets and
//! static-field storage addresses.  Every lookup is a pure function of the
//! snapshot; the contracts pin each result down to a specification-level
//! mirror of the walk.

pub mod cname;
pub mod il2cpp_2020;
pub mod pe;
pub mod mem;
pub mod mono_v2_x64;
pub mod mono_v2_x86;
pub mod mono_walk;
pub mod ptr;
pub mod sig;
pub mod unity;
pub mod version;
