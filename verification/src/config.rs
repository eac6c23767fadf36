//! The configuration of a universe of devices.

use crate::Address;
use std::collections::HashSet;
use vstd::prelude::*;

verus! {

/// The configuration of all devices.
#[derive(Debug)]
pub struct UniverseConfig {
    pub version: u64,
    pub devices: Vec<DeviceConfig>,
}

/// The configuration of one device and its ports.
#[derive(Debug)]
pub struct DeviceConfig {
    pub alias: String,
    pub device_type: DeviceType,
    pub inputs: Vec<InputPortConfig>,
    pub outputs: Vec<OutputPortConfig>,
}

/// The kinds of devices that can be attached.
#[derive(Debug, Clone)]
pub enum DeviceType {
    DHT22,
    DHT22Expander,
    DS18B20Expander,
    PCA9685,
    DS18,
    MCP23017,
    BME280,
    GPIO,
    FanHeater,
    ButtonExpander,
}

/// The configuration of one input port.
#[derive(Debug)]
pub struct InputPortConfig {
    pub alias: String,
    pub input_type: InputValueType,
    pub tags: HashSet<String>,
    pub port: u8,
    pub address: Address,
}

/// The kind of value an input produces.
#[derive(Debug, Clone, Copy, PartialEq, Eq)]
pub enum InputValueType {
    Binary,
    Temperature,
    Humidity,
    Pressure,
    Continuous,
    Gas,
}

/// The configuration of one output port.
#[derive(Debug)]
pub struct OutputPortConfig {
    pub alias: String,
    pub tags: HashSet<String>,
    pub port: u8,
    pub address: Address,
}

} // verus!
