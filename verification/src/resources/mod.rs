//! Named resources: unique naming and the managers that hold materials, meshes
//! and scenes by name.

pub mod name_order;
pub mod naming;
pub mod managers;
pub mod material;
pub mod texture;
