//! What each of the program's commands is started with, and the settings
//! that follow from it.

use crate::config::MODBUS_DEFAULT_PORT;
use std::path::PathBuf;
use vstd::prelude::*;

verus! {

/// A path of the standard library, carried through as it is.
#[verifier::external_type_specification]
#[verifier::external_body]
pub struct ExPathBuf(PathBuf);

/// The shortest polling interval, in milliseconds; also the interval used when none is given.
pub const MIN_POLLING_INTERVAL: u64 = 1000;

/// The shortest interval between two flushes of the log, in seconds.
pub const MIN_FLUSH_INTERVAL: u64 = 10;

/// Seconds between two flushes of the log when none are given.
pub const DEFAULT_FLUSH_INTERVAL: u64 = 3600;

/// Starts the charging control.
#[derive(Debug)]
pub struct WallboxManagerParams {
    pub config_path: PathBuf,
}

/// Starts the read-out of the energy meter.
#[derive(Debug)]
pub struct EnergyMeterParams {
    pub meter_host: String,
    pub meter_port: Option<u16>,
    pub bind_to: Option<String>,
    /// Milliseconds between two polls.
    pub polling_interval: Option<u64>,
    pub log_to: Option<PathBuf>,
    /// Seconds between two flushes of the log.
    pub log_flush_interval: Option<u64>,
    pub write_to_console: Option<bool>,
}

/// Starts the decompression of logs.
#[derive(Debug)]
pub struct DecompressStreamParams {
    pub file_name: Vec<PathBuf>,
    pub output_to_sqlite: Option<String>,
}

/// Starts the read-out of the residual-current monitor.
#[derive(Debug)]
pub struct ResidualCurrentMonitorParams {
    pub host_name: String,
    pub port: Option<u16>,
    pub bind_to: Option<String>,
    /// Milliseconds between two polls.
    pub polling_interval: Option<u64>,
    pub log_to: Option<PathBuf>,
    /// Seconds between two flushes of the log.
    pub log_flush_interval: Option<u64>,
    pub write_to_console: Option<bool>,
    pub alarm_a_command: Option<String>,
    pub alarm_b_command: Option<String>,
}

/// Why a command does not start.
#[derive(Debug, Clone, Copy, PartialEq, Eq, Structural)]
pub enum ParamsError {
    /// The polling interval is shorter than a second.
    PollingIntervalTooLow,
    /// The log would be flushed more often than every ten seconds.
    FlushIntervalTooLow,
}

/// The intervals that a read-out runs with.
#[derive(Debug, Clone, Copy, PartialEq, Eq, Structural)]
pub struct Intervals {
    /// Milliseconds between two polls.
    pub polling: u64,
    /// Seconds between two flushes of the log.
    pub log_flush: u64,
}

/// The intervals that follow from what was given: a polling interval below
/// a second is refused, then a flush interval below ten seconds; what was
/// not given takes its default.
pub open spec fn intervals_of(polling_interval: Option<u64>, log_flush_interval: Option<u64>) -> Result<
    Intervals,
    ParamsError,
> {
    if polling_interval is Some && polling_interval->0 < MIN_POLLING_INTERVAL {
        Err(ParamsError::PollingIntervalTooLow)
    } else if log_flush_interval is Some && log_flush_interval->0 < MIN_FLUSH_INTERVAL {
        Err(ParamsError::FlushIntervalTooLow)
    } else {
        Ok(
            Intervals {
                polling: match polling_interval {
                    Some(millis) => millis,
                    None => MIN_POLLING_INTERVAL,
                },
                log_flush: match log_flush_interval {
                    Some(secs) => secs,
                    None => DEFAULT_FLUSH_INTERVAL,
                },
            },
        )
    }
}

/// Computes `intervals_of`.
pub fn intervals(polling_interval: Option<u64>, log_flush_interval: Option<u64>) -> (checked: Result<
    Intervals,
    ParamsError,
>)
    ensures
        checked == intervals_of(polling_interval, log_flush_interval),
{
    let polling: u64 = match polling_interval {
        Some(millis) => {
            if millis < MIN_POLLING_INTERVAL {
                return Err(ParamsError::PollingIntervalTooLow);
            }
            millis
        },
        None => MIN_POLLING_INTERVAL,
    };
    let log_flush: u64 = match log_flush_interval {
        Some(secs) => {
            if secs < MIN_FLUSH_INTERVAL {
                return Err(ParamsError::FlushIntervalTooLow);
            }
            secs
        },
        None => DEFAULT_FLUSH_INTERVAL,
    };
    Ok(Intervals { polling, log_flush })
}

/// The port that was given, or the protocol's default.
pub fn port_or_default(port: Option<u16>) -> (chosen: u16)
    ensures
        chosen == match port {
            Some(p) => p,
            None => MODBUS_DEFAULT_PORT,
        },
{
    match port {
        Some(p) => p,
        None => MODBUS_DEFAULT_PORT,
    }
}

impl ParamsError {
    /// The refusal in words.
    pub fn describe(&self) -> (text: &'static str)
        ensures
            text@ == match self {
                ParamsError::PollingIntervalTooLow =>
                    "A polling interval smaller than one second is too low"@,
                ParamsError::FlushIntervalTooLow =>
                    "A flushing interval smaller than ten seconds is too low"@,
            },
    {
        match self {
            ParamsError::PollingIntervalTooLow => {
                "A polling interval smaller than one second is too low"
            },
            ParamsError::FlushIntervalTooLow => {
                "A flushing interval smaller than ten seconds is too low"
            },
        }
    }
}

impl EnergyMeterParams {
    /// The intervals of the read-out, or why it does not start.
    pub fn intervals(&self) -> (checked: Result<Intervals, ParamsError>)
        ensures
            checked == intervals_of(self.polling_interval, self.log_flush_interval),
    {
        intervals(self.polling_interval, self.log_flush_interval)
    }

    /// The meter's port.
    pub fn port(&self) -> (chosen: u16)
        ensures
            chosen == match self.meter_port {
                Some(p) => p,
                None => MODBUS_DEFAULT_PORT,
            },
    {
        port_or_default(self.meter_port)
    }

    /// The address that readers connect to.
    pub fn bind_address(&self) -> (address: String)
        ensures
            address@ == match self.bind_to {
                Some(given) => given@,
                None => "localhost:1723"@,
            },
    {
        match &self.bind_to {
            Some(given) => given.clone(),
            None => "localhost:1723".to_owned(),
        }
    }

    /// Whether readings are printed as well.
    pub fn console(&self) -> (on: bool)
        ensures
            on == (self.write_to_console == Some(true)),
    {
        match self.write_to_console {
            Some(on) => on,
            None => false,
        }
    }
}

impl ResidualCurrentMonitorParams {
    /// The intervals of the read-out, or why it does not start.
    pub fn intervals(&self) -> (checked: Result<Intervals, ParamsError>)
        ensures
            checked == intervals_of(self.polling_interval, self.log_flush_interval),
    {
        intervals(self.polling_interval, self.log_flush_interval)
    }

    /// The monitor's port.
    pub fn port_or_default(&self) -> (chosen: u16)
        ensures
            chosen == match self.port {
                Some(p) => p,
                None => MODBUS_DEFAULT_PORT,
            },
    {
        port_or_default(self.port)
    }

    /// The address that readers connect to.
    pub fn bind_address(&self) -> (address: String)
        ensures
            address@ == match self.bind_to {
                Some(given) => given@,
                None => "localhost:2317"@,
            },
    {
        match &self.bind_to {
            Some(given) => given.clone(),
            None => "localhost:2317".to_owned(),
        }
    }
}

} // verus!
