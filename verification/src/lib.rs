pub mod agent;
pub mod network;
pub mod ring_buffer;
pub mod snake;
