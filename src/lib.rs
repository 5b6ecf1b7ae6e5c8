pub mod d3d;
pub mod util;
pub mod win;
