//! The core of an editor and renderer for fractal flames: the automation
//! graph that binds scalar sources to parameters, the synthesis of the
//! compute kernel's source, and the decisions of the render thread. Every
//! function is stated by a contract and proved against it; the drawing, the
//! floating-point arithmetic and the device work are left to the program
//! around the library.

pub mod blocks;
pub mod graph_store;
pub mod editor_view;
pub mod evaluation;
pub mod automation;
pub mod laws;
pub mod interaction;
pub mod scene;
pub mod scene_hash;
pub mod shader;
pub mod resources;
pub mod dispatch;
pub mod mailbox;
pub mod render_laws;
