//! Attaching a component to an entity when the component's concrete type is
//! known only at run time.
//!
//! An entity-component store normally needs the compile-time type to move data
//! into its typed storage columns. This crate bridges that gap with two
//! layered pieces: a [`registry::ErasedComponentRegistry`], a process-wide
//! table from runtime type token to constructor, and a dynamic insertion path
//! that resolves the constructor for a token, defers the mutation on a command
//! queue, and, when the queue is applied, materializes the value and writes it
//! into the entity's storage slot for that type.
//!
//! Types, constructors, entities and storage slots are identified by plain
//! `u64` ids; the host store's own handles are mapped to these ids at the
//! boundary. The laws the insertion path obeys are stated and proved in
//! [`laws`].

pub mod laws;
pub mod registry;
pub mod world;

pub use registry::ErasedComponentRegistry;
pub use world::CommandQueue;
pub use world::ErasedValue;
pub use world::InsertRequest;
pub use world::WorldModel;
pub use world::WorldSnapshot;
