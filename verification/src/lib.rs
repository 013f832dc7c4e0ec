//! A publish/subscribe notification registry: external parties register a
//! callback URL under a product-type topic and can later be looked up for
//! notification delivery. The registry maps each topic to a set of
//! subscribers in which no two subscribers share a URL.

pub mod notification;
pub mod registry;
pub mod subscriber;

pub use registry::Registry;
pub use registry::RegistryError;
pub use subscriber::Subscriber;
