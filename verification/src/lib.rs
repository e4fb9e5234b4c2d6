//! Support code for small OpenGL programs: the bookkeeping that sits between
//! an application and the graphics driver, with each function's behaviour
//! stated as a contract and proved.

pub mod camera;
pub mod load_image;
pub mod utils;
pub mod window;
