pub mod offscreen_rendering;
pub mod rendering3d;
pub mod scene;
