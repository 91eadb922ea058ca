//! Verified core of the bindings to Apple's SystemConfiguration framework: the
//! interface-type vocabulary, property-list nodes and their downcasts, the
//! retain/release discipline of object handles, the dynamic-store callback
//! bridge, and the helpers that read network settings out of fetched nodes.
//!
//! Two parts are models rather than framework code: [`handle::ObjectTable`]
//! stands for the framework's reference counts, and
//! [`dynamic_store::MemoryStore`] for the system's dynamic store. They state
//! and exercise the retain/release and get/set/remove/notify disciplines
//! without the framework; the layer that talks to the real framework does not
//! run them, and relies on the framework's own counting and store instead.
pub mod dynamic_store;
pub mod handle;
pub mod ipv4;
pub mod network_configuration;
pub mod network_settings;
pub mod property_list;
pub mod text;
