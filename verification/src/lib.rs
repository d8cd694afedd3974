pub mod addr;
pub mod listener;
pub mod platform;
pub mod response;
