//! Terminal 3D rendering core: scenes, pixel grids and the mapping of pixels
//! onto terminal cells.

pub mod cells;
pub mod color;
pub mod framebuffer;
pub mod loader;
pub mod rect;
pub mod render_mode;
pub mod scene;
