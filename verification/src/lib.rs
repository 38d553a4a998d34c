//! Descriptions of render pipelines, vertex buffers, bind groups and
//! textures, assembled as plain values for a GPU layer to carry out.

pub mod pipeline;
pub mod render_error;
pub mod render_node;
pub mod textures;
pub mod vertex_buffer;

pub use render_error::RenderError;
pub use render_node::{RenderNode, RenderNodeBuilder};
pub use textures::simpletexture::SimpleTexture;
