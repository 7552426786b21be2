pub mod protocol;
pub mod model;
pub mod laws;
pub mod text;
pub mod midi;
pub mod params;
pub mod sender;
pub mod observed;
