pub mod bridge;
pub mod interface;
