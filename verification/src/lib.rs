//! Capability-to-entity synchronization for a bridge that mirrors a vendor
//! device fleet into a home-automation hub over MQTT discovery.

pub mod hass_mqtt;
pub mod platform_api;
pub mod service;
pub mod text;
