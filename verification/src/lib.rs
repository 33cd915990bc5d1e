//! Solar-surplus charging control for one wallbox behind one photovoltaic inverter.

pub mod config;
pub mod dctr;
pub mod devnull;
pub mod e3dc;
pub mod mennekes;
pub mod monitor;
pub mod pac2200;
pub mod params;
pub mod registers;
pub mod telemetry;
pub mod text;
pub mod timeouter;
pub mod wallbox_manager;
