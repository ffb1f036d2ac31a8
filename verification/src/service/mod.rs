pub mod device;
pub mod hass;
pub mod state;
