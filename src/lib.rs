pub mod identity;
pub mod machine;
pub mod usb;
pub mod bus;
pub mod worker;
pub mod controller;
