//! Core data model of a voxel-style block engine: block identifiers, block
//! state properties (boolean, bounded integer, closed string enumeration),
//! the permutation of every property combination, and the state definition
//! table that maps each legal block state to a dense 16-bit index and back.
//!
//! The heart of the crate is the state machinery: a block state type
//! declares its properties ([`definition::Properties`]), the odometer in
//! [`state`] enumerates every combination of the property domains in a
//! fixed order, and [`definition::StateDefinition`] indexes the resulting
//! states. [`block_id::BlockId`] packs a block kind and a state index into
//! the 32-bit wire form. Around that sit the value model ([`value`],
//! [`strenum`]), the coordinate types ([`coords`], [`positions`]) and the
//! `namespace:path` resource identifiers ([`resource`]).

pub mod block_id;
pub mod coords;
pub mod definition;
pub mod dynamic;
pub mod errors;
pub mod liquid;
pub mod positions;
pub mod primitive;
pub mod property;
pub mod resource;
pub mod state;
pub mod strenum;
pub mod text;
pub mod value;

pub use block_id::BlockId;
pub use definition::{Properties, ReflectProperties, StateDefinition};
pub use property::{Property, PropertyDef, ReflectProperty};
pub use value::ValueUntyped;
