pub mod error;
pub mod properties;
pub mod value;
pub mod device;
pub mod adapter;
