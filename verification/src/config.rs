//! Configuration surface of the engine: probe mode, target, timing, and the
//! memory budget the history capacity is derived from. Validation rejects
//! the zero values no component accepts, before anything starts.

use vstd::prelude::*;
use crate::color::ColorScheme;
use crate::fmt::{dec_str, push_u64};
use vstd::string::StringExecFns;

verus! {

/// Probe mode of a session.
#[derive(Clone, Copy, Debug, PartialEq, Eq, Structural)]
pub enum Mode {
    /// ICMP echo (may require elevated privileges).
    Icmp,
    /// UDP client: sends datagrams to an echo server.
    UdpClient,
    /// UDP server: echoes datagrams back to clients.
    UdpServer,
}

/// The display name of a mode.
pub open spec fn mode_label(m: Mode) -> Seq<char> {
    match m {
        Mode::Icmp => "ICMP"@,
        Mode::UdpClient => "UDP Client"@,
        Mode::UdpServer => "UDP Server"@,
    }
}

impl Mode {
    /// The display name of the mode.
    pub fn label(&self) -> (r: String)
        ensures
            r@ == mode_label(*self),
    {
        match self {
            Mode::Icmp => String::from_str("ICMP"),
            Mode::UdpClient => String::from_str("UDP Client"),
            Mode::UdpServer => String::from_str("UDP Server"),
        }
    }
}

/// Why a configuration was rejected: the zero value that no component
/// accepts.
#[derive(Clone, Copy, Debug, PartialEq, Eq, Structural)]
pub enum ConfigError {
    /// The probe interval is zero.
    ZeroInterval,
    /// The probe timeout is zero.
    ZeroTimeout,
    /// The color scale ceiling is zero.
    ZeroScale,
    /// The history memory budget is zero.
    ZeroBuffer,
}

/// The message of a configuration error.
pub open spec fn config_error_message(e: ConfigError) -> Seq<char> {
    match e {
        ConfigError::ZeroInterval => "Interval must be greater than 0"@,
        ConfigError::ZeroTimeout => "Timeout must be greater than 0"@,
        ConfigError::ZeroScale => "Scale must be greater than 0"@,
        ConfigError::ZeroBuffer => "Buffer size must be greater than 0"@,
    }
}

impl ConfigError {
    /// The message of the error.
    pub fn message(&self) -> (r: String)
        ensures
            r@ == config_error_message(*self),
    {
        match self {
            ConfigError::ZeroInterval => String::from_str("Interval must be greater than 0"),
            ConfigError::ZeroTimeout => String::from_str("Timeout must be greater than 0"),
            ConfigError::ZeroScale => String::from_str("Scale must be greater than 0"),
            ConfigError::ZeroBuffer => String::from_str("Buffer size must be greater than 0"),
        }
    }
}

/// Bytes one stored probe result is budgeted at.
pub const BYTES_PER_RESULT: usize = 48;

/// The history capacity a memory budget of `buffer_mb` megabytes allows.
pub open spec fn max_history_spec(buffer_mb: int) -> int {
    buffer_mb * 1024 * 1024 / 48
}

/// Engine configuration, resolved before a session starts.
#[derive(Clone, Debug)]
pub struct Config {
    /// Target host (address or name, resolved outside); absent until chosen.
    pub host: Option<String>,
    /// Probe mode.
    pub mode: Mode,
    /// Probe interval in milliseconds.
    pub interval: u64,
    /// UDP port for client and server mode.
    pub port: u16,
    /// Bind address for server mode; absent means every interface.
    pub bind: Option<String>,
    /// Probe timeout in milliseconds.
    pub timeout: u64,
    /// RTT in milliseconds mapped to the top of the color gradient.
    pub scale: u64,
    /// Color scheme of the graph.
    pub colors: ColorScheme,
    /// Whether the terminal cursor is hidden while running.
    pub hide_cursor: bool,
    /// History memory budget in megabytes.
    pub buffer_mb: u64,
}

impl Config {
    /// What validation decides: the first zero field in checking order, or
    /// acceptance.
    pub open spec fn validate_spec(self) -> Result<(), ConfigError> {
        if self.interval == 0 {
            Err(ConfigError::ZeroInterval)
        } else if self.timeout == 0 {
            Err(ConfigError::ZeroTimeout)
        } else if self.scale == 0 {
            Err(ConfigError::ZeroScale)
        } else if self.buffer_mb == 0 {
            Err(ConfigError::ZeroBuffer)
        } else {
            Ok(())
        }
    }

    /// Reject a configuration whose interval, timeout, scale or buffer
    /// budget is zero; everything else is accepted. The host may stay
    /// absent: a session only starts once one is chosen.
    pub fn validate(&self) -> (r: Result<(), ConfigError>)
        ensures
            r == self.validate_spec(),
            r is Ok <==> self.interval > 0 && self.timeout > 0 && self.scale > 0 && self.buffer_mb
                > 0,
    {
        if self.interval == 0 {
            Err(ConfigError::ZeroInterval)
        } else if self.timeout == 0 {
            Err(ConfigError::ZeroTimeout)
        } else if self.scale == 0 {
            Err(ConfigError::ZeroScale)
        } else if self.buffer_mb == 0 {
            Err(ConfigError::ZeroBuffer)
        } else {
            Ok(())
        }
    }

    /// The history capacity the memory budget allows, at about
    /// `BYTES_PER_RESULT` bytes per entry.
    pub fn max_history(&self) -> (r: usize)
        requires
            self.buffer_mb as int * 1024 * 1024 <= usize::MAX as int,
        ensures
            r == max_history_spec(self.buffer_mb as int),
    {
        let bytes: usize = (self.buffer_mb as usize) * 1024 * 1024;
        bytes / BYTES_PER_RESULT
    }

    /// The target as shown to the user: the configured host, or the wildcard
    /// address with the configured port while none is set.
    pub fn target_display(&self) -> (r: String)
        ensures
            r@ == match self.host {
                Some(h) => h@,
                None => "0.0.0.0:"@ + dec_str(self.port as int),
            },
    {
        match &self.host {
            Some(h) => h.clone(),
            None => {
                proof {
                    reveal_strlit("0.0.0.0:");
                }
                let mut s = String::from_str("0.0.0.0:");
                push_u64(&mut s, self.port as u64);
                s
            },
        }
    }
}

} // verus!
