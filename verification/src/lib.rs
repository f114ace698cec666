//! Verified core of an image viewport: the layout of the offscreen render
//! target, the camera's aspect ratio, the image upload rules and the
//! controller that decides, tick by tick, what the graphics layer has to do.

pub mod browse;
pub mod camera;
pub mod decode;
pub mod picture;
pub mod ratio;
pub mod renderer;
pub mod target;
pub mod viewport;
