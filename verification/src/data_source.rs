//! The MQTT data source as seen by the C++ data-acquisition host.

use vstd::prelude::*;

verus! {

/// A data source that reads channels from MQTT, identified by its name.
pub struct MqttReader {
    pub name: String,
}

} // verus!
