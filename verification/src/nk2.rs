pub mod scene;
pub mod midi;
pub mod msg;
pub mod eventloop;
