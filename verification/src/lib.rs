//! The core of the Azubitafel notice-board service: a time-to-live cache in front
//! of slow upstream sources, the conditional-freshness gate that answers "has this
//! changed since T?", and the join of a fan-out over many keys.

pub mod aggregator;
pub mod cache;
pub mod calendar;
pub mod departures;
pub mod endpoint;
pub mod enumerate;
pub mod freshness_gate;
pub mod key;
pub mod numeral;
pub mod query;
pub mod stopfinder;
pub mod table;
pub mod weather;
