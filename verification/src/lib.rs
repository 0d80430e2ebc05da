//! A two-pass tile-map compositor: the host-side data model, buffer layouts
//! and frame planning for an unlit colour pass followed by an additive
//! lighting pass.

pub mod atlas;
pub mod bindings;
pub mod bitmap;
pub mod camera;
pub mod chunk;
pub mod chunk_store;
pub mod color;
pub mod compositor;
pub mod compute_view;
pub mod entity;
pub mod error;
pub mod frame;
pub mod instance;
pub mod layout;
pub mod light;
pub mod locals;
pub mod material;
pub mod resolution;
pub mod tile;
pub mod tile_map;
pub mod time;
pub mod world;
