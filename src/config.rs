use vstd::prelude::*;

verus! {

/// The fixed destination every tunnel forwards to.
#[derive(Clone, Debug)]
pub struct TargetAddress {
    pub host: String,
    pub port: u16,
}

/// The resolved configuration the tunnel starts from.
#[derive(Clone, Debug)]
pub struct TunnelConfig {
    /// Whether the TCP relay mode is enabled.
    pub tcp_enabled: bool,
    /// The local address to listen on, as configured.
    pub local_addr: Option<String>,
    /// The target every tunnel forwards to.
    pub forward: Option<TargetAddress>,
    /// Whether Nagle's algorithm is disabled on accepted sockets.
    pub no_delay: bool,
}

/// Why the tunnel cannot start.
#[derive(PartialEq, Eq, Structural, Clone, Copy, Debug)]
pub enum StartupError {
    /// The TCP relay mode is not enabled.
    TcpDisabled,
    /// No local address to listen on is configured.
    MissingLocalAddr,
    /// No target address is configured.
    MissingForward,
}

/// What the tunnel runs with once its configuration has been checked.
#[derive(Clone, Debug)]
pub struct Plan {
    pub local_addr: String,
    pub target: TargetAddress,
    pub no_delay: bool,
}

/// Whether a configuration has everything the tunnel needs.
pub open spec fn startable(cfg: TunnelConfig) -> bool {
    cfg.tcp_enabled && cfg.local_addr is Some && cfg.forward is Some
}

/// The first thing missing from a configuration, checked in the order:
/// relay mode, local address, target.
pub open spec fn startup_error(cfg: TunnelConfig) -> StartupError {
    if !cfg.tcp_enabled {
        StartupError::TcpDisabled
    } else if cfg.local_addr is None {
        StartupError::MissingLocalAddr
    } else {
        StartupError::MissingForward
    }
}

/// Checks a configuration before anything is bound: a startable one gives
/// the plan to run, holding its values unchanged; any other gives the first
/// thing missing.
pub fn check_config(cfg: TunnelConfig) -> (r: Result<Plan, StartupError>)
    ensures
        r is Ok <==> startable(cfg),
        r matches Ok(p) ==> {
            &&& cfg.local_addr == Some(p.local_addr)
            &&& cfg.forward == Some(p.target)
            &&& p.no_delay == cfg.no_delay
        },
        r matches Err(e) ==> e == startup_error(cfg),
{
    if !cfg.tcp_enabled {
        return Err(StartupError::TcpDisabled);
    }
    let no_delay = cfg.no_delay;
    match cfg.local_addr {
        None => Err(StartupError::MissingLocalAddr),
        Some(local_addr) => match cfg.forward {
            None => Err(StartupError::MissingForward),
            Some(target) => Ok(Plan { local_addr, target, no_delay }),
        },
    }
}

} // verus!
