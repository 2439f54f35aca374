//! Temperature sensors.  The platforms modelled here expose none through
//! this interface, so enumeration yields the empty list; the record type
//! states what an entry would carry.

use vstd::prelude::*;

verus! {

/// One hardware temperature sensor: the unit it belongs to, an optional
/// label, and its reading in thousandths of a degree Celsius, as the
/// kernel's monitoring interface reports it.
#[derive(Clone, Debug, PartialEq, Eq)]
pub struct TemperatureSensor {
    pub unit: String,
    pub label: Option<String>,
    pub current_millidegrees: u64,
}

/// The sensors available: none on the platforms modelled here.
pub fn temperatures() -> (r: Vec<TemperatureSensor>)
    ensures
        r@.len() == 0,
{
    Vec::new()
}

} // verus!
