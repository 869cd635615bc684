//! Client-side building blocks for a BLE peripheral link: an advertisement
//! payload builder, and the GATT discovery engine that walks a remote server's
//! services, characteristics and descriptors.

pub mod advertisement_builder;
pub mod gatt_client;
pub mod pages;
pub mod portal;
pub mod registry;
pub mod status;
pub mod types;
