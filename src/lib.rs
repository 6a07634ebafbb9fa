//! Compiles an interface declaration into an ABI-stable manual dispatch
//! object model: a C-layout table of function pointers, the trampolines that
//! fill it for one concrete type, a per-type cache of table instances,
//! upcast accessors for super-interfaces and the two forwarding strategies
//! through which a type-erased wrapper answers the interface again.
pub mod model;
pub mod names;
pub mod super_trait;
pub mod types;
pub mod vtable;
pub mod cdrop;
pub mod methods;
pub mod trait_for_cref;
pub mod trait_wrapper;
pub mod render;
pub mod render_impls;
pub mod render_forward;
pub mod expand;
pub mod laws;
pub mod cslice;
pub mod cvec;
