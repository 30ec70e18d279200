//! Region selection over a captured frame: rectangle geometry, the drag
//! state machine with its repaint regions, the geometry and the software
//! painting of the overlay, cropping, and what the menu's actions do with
//! the selected pixels.

pub mod actions;
pub mod cropper;
pub mod export;
pub mod geometry;
pub mod overlay;
pub mod qrcode;
pub mod selection;
pub mod selection_logic;
