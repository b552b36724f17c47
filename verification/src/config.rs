//! The server's settings: what the command line gives, the defaults for what
//! it leaves out, and the bounds that it must keep to.

use vstd::prelude::*;

verus! {

/// The port for xPalm when none is given.
pub const DEFAULT_PORT: u16 = 45784;
/// The polling rate (Hz) when none is given.
pub const DEFAULT_POLLING_RATE: u64 = 125;
/// The lowest polling rate (Hz) accepted.
pub const MIN_POLLING_RATE: u64 = 1;
/// The highest polling rate (Hz) accepted.
pub const MAX_POLLING_RATE: u64 = 1000;
/// How long (ms) a client has to enter the authorization code, by default.
pub const DEFAULT_AUTHORIZATION_PERIOD: u64 = 30000;
/// How long (ms) a client is throttled after a connection request, by default.
pub const DEFAULT_CONNECT_COOLDOWN: u64 = 10000;
/// How long (ms) a client may stay idle before it is kicked, by default.
pub const DEFAULT_IDLE_KICK: u64 = 3000;

/// The settings as given on the command line; `None` where one was left out.
#[derive(Debug, Clone, Copy, PartialEq, Eq, Structural)]
pub struct ConsoleArgs {
    /// Port for xPalm.
    pub port: Option<u16>,
    /// Polling rate (Hz) at which controllers fetch and emit information.
    pub polling_rate: Option<u64>,
    /// How long to wait (ms) for a client to enter the authorization code.
    pub authorization_period: Option<u64>,
    /// How long (ms) to throttle connection requests from a client after one.
    pub connect_cooldown: Option<u64>,
    /// Idle time (ms) after which a client is kicked.
    pub idle_kick: Option<u64>,
}

/// The settings that the server runs with; all times are in milliseconds.
#[derive(Debug, Clone, Copy, PartialEq, Eq, Structural)]
pub struct ServerArgs {
    /// Port of the control connection and of joystick datagrams.
    pub port: u16,
    /// Period (ms) at which the virtual controller is polled.
    pub polling_rate: u64,
    /// How long (ms) a client has to enter the authorization code.
    pub authorization_period: u64,
    /// How long (ms) a client is throttled after a connection request.
    pub connect_cooldown: u64,
    /// Idle time (ms) after which a client is kicked.
    pub idle_kick: u64,
}

/// Why the command line was refused.
#[derive(Debug, Clone, Copy, PartialEq, Eq, Structural)]
pub enum ConfigError {
    /// The polling rate is outside `MIN_POLLING_RATE..=MAX_POLLING_RATE`.
    InvalidPollingRate,
}

/// The value of an optional setting, or its default.
pub open spec fn or_default<T>(value: Option<T>, default: T) -> T {
    match value {
        Some(v) => v,
        None => default,
    }
}

/// Whether the polling rate given on the command line, if any, is accepted.
pub open spec fn polling_rate_valid(rate: Option<u64>) -> bool {
    match rate {
        Some(r) => MIN_POLLING_RATE <= r <= MAX_POLLING_RATE,
        None => true,
    }
}

/// The settings that a command line stands for.
pub open spec fn spec_from_console(args: ConsoleArgs) -> ServerArgs {
    ServerArgs {
        port: or_default(args.port, DEFAULT_PORT),
        polling_rate: 1000u64 / or_default(args.polling_rate, DEFAULT_POLLING_RATE),
        authorization_period: or_default(args.authorization_period, DEFAULT_AUTHORIZATION_PERIOD),
        connect_cooldown: or_default(args.connect_cooldown, DEFAULT_CONNECT_COOLDOWN),
        idle_kick: or_default(args.idle_kick, DEFAULT_IDLE_KICK),
    }
}

impl ServerArgs {
    /// The settings for a command line: each setting that was given, the
    /// default for each that was not, and the polling rate turned into a
    /// period of `1000 / rate` milliseconds.
    pub fn from_console(args: ConsoleArgs) -> (r: Self)
        requires
            args.polling_rate != Some(0u64),
        ensures
            r == spec_from_console(args),
    {
        let rate = match args.polling_rate {
            Some(rate) => rate,
            None => DEFAULT_POLLING_RATE,
        };
        ServerArgs {
            port: match args.port {
                Some(port) => port,
                None => DEFAULT_PORT,
            },
            polling_rate: 1000 / rate,
            authorization_period: match args.authorization_period {
                Some(period) => period,
                None => DEFAULT_AUTHORIZATION_PERIOD,
            },
            connect_cooldown: match args.connect_cooldown {
                Some(cooldown) => cooldown,
                None => DEFAULT_CONNECT_COOLDOWN,
            },
            idle_kick: match args.idle_kick {
                Some(idle) => idle,
                None => DEFAULT_IDLE_KICK,
            },
        }
    }
}

/// Checks a command line and gives the settings it stands for; refuses a
/// polling rate outside `MIN_POLLING_RATE..=MAX_POLLING_RATE`.
pub fn server_args(args: ConsoleArgs) -> (r: Result<ServerArgs, ConfigError>)
    ensures
        r is Err <==> !polling_rate_valid(args.polling_rate),
        r matches Err(e) ==> e == ConfigError::InvalidPollingRate,
        r matches Ok(s) ==> s == spec_from_console(args),
{
    match args.polling_rate {
        Some(rate) => {
            if rate > MAX_POLLING_RATE || rate < MIN_POLLING_RATE {
                return Err(ConfigError::InvalidPollingRate);
            }
        },
        None => {},
    }
    Ok(ServerArgs::from_console(args))
}

/// An accepted command line gives a polling period between 1 and 1000 ms.
pub proof fn lemma_polling_period_bounds(args: ConsoleArgs)
    requires
        polling_rate_valid(args.polling_rate),
    ensures
        1 <= spec_from_console(args).polling_rate <= 1000,
{
    let rate = or_default(args.polling_rate, DEFAULT_POLLING_RATE);
    assert(1 <= 1000u64 / rate <= 1000) by (nonlinear_arith)
        requires
            1 <= rate <= 1000,
    ;
}

/// Each setting given on the command line is kept; each left out takes its
/// default: port 45784, polling rate 125 Hz, authorization period 30000 ms,
/// connect cooldown 10000 ms, idle kick 3000 ms. The polling rate becomes a
/// period of `1000 / rate` whole milliseconds.
pub proof fn lemma_settings_kept_or_defaulted(args: ConsoleArgs)
    ensures
        spec_from_console(args).port == match args.port {
            Some(p) => p,
            None => 45784u16,
        },
        spec_from_console(args).polling_rate == match args.polling_rate {
            Some(r) => 1000u64 / r,
            None => 8u64,
        },
        spec_from_console(args).authorization_period == match args.authorization_period {
            Some(t) => t,
            None => 30000u64,
        },
        spec_from_console(args).connect_cooldown == match args.connect_cooldown {
            Some(t) => t,
            None => 10000u64,
        },
        spec_from_console(args).idle_kick == match args.idle_kick {
            Some(t) => t,
            None => 3000u64,
        },
{
}

} // verus!
