pub mod display;
pub mod hardware;
pub mod network;
pub mod software;
pub mod system;
pub mod terminal;
