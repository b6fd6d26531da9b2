//! Scene descriptions for the maskerad engine: the text-shaped descriptors of
//! levels and game objects, the resolution of a level's file references into
//! domain objects, and the flattening of domain objects back into descriptors.

pub mod error;
pub mod mesh_description;
pub mod transform_description;
pub mod gameobject_description;
pub mod gltf_resource;
pub mod gameobject;
pub mod level_description;
pub mod level;
pub mod resolver;
pub mod gameobject_builder;
pub mod descriptor;
