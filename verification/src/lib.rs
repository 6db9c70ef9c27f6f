//! Lifecycle of a cubemap backdrop texture: which compressed encodings a
//! device decodes, the load/swap state machine, the reinterpretation of a
//! flat six-face strip as a layered cube texture, the attachment of the
//! backdrop to the scene, and the description of the shader bindings.

pub mod cubemap;
pub mod formats;
pub mod image;
pub mod material;
pub mod scene;
