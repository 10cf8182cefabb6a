//! Verified core of an immediate-mode GUI bridge for a game engine: the
//! per-frame draw-command pipeline, its buffers and tables, stated over
//! plain values and proved with Verus.

pub mod callback;
pub mod collections;
pub mod draw;
pub mod extract;
pub mod geometry;
pub mod graph;
pub mod image;
pub mod input;
pub mod managed_textures;
pub mod output;
pub mod pipeline;
pub mod rect;
pub mod render_data;
pub mod render_pass;
pub mod render_targets;
pub mod texture;
pub mod transform;
pub mod user_textures;
