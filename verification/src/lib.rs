//! Measurement decoding, MQTT settings and dashboard state for a BE-Strom
//! three-phase energy meter that is read over Modbus/TCP and published over MQTT.

pub mod registers;
pub mod text;
pub mod decimal;
pub mod settings;
pub mod device_dashboard;
pub mod sensor_dashboard;
pub mod data_source;
