pub mod base;
pub mod binary_sensor;
pub mod enumerator;
pub mod instance;
