//! State and decision logic of a bridge between a trading terminal's
//! market-data feed / command channel and a local front end.

pub mod bridge;
mod clock;
pub mod gateway;
pub mod laws;
pub mod lots;
pub mod model;
pub mod names;
pub mod reply;
pub mod ring;
pub mod text;
