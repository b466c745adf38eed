//! Transport parameters, held as plain values, and their application to the
//! QUIC engine's transport configuration.
use crate::time::Duration;
use vstd::prelude::*;

verus! {

#[verifier::external_type_specification]
#[verifier::external_body]
pub struct ExTransportConfig(quinn::TransportConfig);

#[verifier::external_type_specification]
#[verifier::external_body]
pub struct ExIdleTimeout(quinn::IdleTimeout);

/// One more than the largest idle timeout, in milliseconds, that the QUIC
/// engine can encode (its variable-length integers stop below 2^62).
pub const IDLE_TIMEOUT_MILLIS_LIMIT: u64 = 0x4000_0000_0000_0000;

/// Whether `d` can be encoded as the QUIC engine's idle timeout.
pub open spec fn idle_timeout_representable(d: Duration) -> bool {
    d.millis_spec() < IDLE_TIMEOUT_MILLIS_LIMIT as int
}

/// The whole milliseconds that an engine idle timeout stands for.
pub uninterp spec fn idle_timeout_millis(t: quinn::IdleTimeout) -> int;

/// The idle timeout, in whole milliseconds, that a transport configuration holds.
pub uninterp spec fn transport_idle_timeout_millis(t: quinn::TransportConfig) -> Option<int>;

/// The keep-alive interval, in nanoseconds, that a transport configuration holds.
pub uninterp spec fn transport_keep_alive_nanos(t: quinn::TransportConfig) -> Option<int>;

/// Whether `config` holds the idle timeout and keep-alive interval of `params`.
pub open spec fn transport_applies(config: quinn::TransportConfig, params: TransportParams) -> bool {
    transport_idle_timeout_millis(config) == match params.max_idle_timeout {
        Some(d) => Some(d.millis_spec()),
        None => None,
    } && transport_keep_alive_nanos(config) == match params.keep_alive_interval {
        Some(d) => Some(d.total_nanos()),
        None => None,
    }
}

/// Relies on `quinn::IdleTimeout::try_from(Duration)`: it takes the duration in
/// whole milliseconds and succeeds exactly when that count is below 2^62. Its
/// error type is not exported by `quinn`, so the result comes as an `Option`.
#[verifier::external_body]
fn idle_timeout_from(d: Duration) -> (r: Option<quinn::IdleTimeout>)
    ensures
        r.is_some() <==> idle_timeout_representable(d),
        r matches Some(t) ==> idle_timeout_millis(t) == d.millis_spec(),
{
    quinn::IdleTimeout::try_from(std::time::Duration::new(d.as_secs(), d.subsec_nanos())).ok()
}

/// Relies on `quinn::TransportConfig::default`, the engine's default transport settings.
#[verifier::external_body]
fn default_transport_config() -> quinn::TransportConfig {
    quinn::TransportConfig::default()
}

/// Relies on `quinn::TransportConfig::max_idle_timeout`, which stores the
/// timeout's milliseconds and changes nothing else.
#[verifier::external_body]
fn apply_idle_timeout(config: &mut quinn::TransportConfig, value: Option<quinn::IdleTimeout>)
    ensures
        transport_idle_timeout_millis(*final(config)) == match value {
            Some(t) => Some(idle_timeout_millis(t)),
            None => None,
        },
        transport_keep_alive_nanos(*final(config)) == transport_keep_alive_nanos(*old(config)),
{
    config.max_idle_timeout(value);
}

/// Relies on `quinn::TransportConfig::keep_alive_interval`, which stores the
/// interval and changes nothing else.
#[verifier::external_body]
fn apply_keep_alive_interval(config: &mut quinn::TransportConfig, value: Option<Duration>)
    ensures
        transport_keep_alive_nanos(*final(config)) == match value {
            Some(d) => Some(d.total_nanos()),
            None => None,
        },
        transport_idle_timeout_millis(*final(config)) == transport_idle_timeout_millis(*old(config)),
{
    config.keep_alive_interval(value.map(|d| std::time::Duration::new(d.as_secs(), d.subsec_nanos())));
}

/// The transport parameters that a builder collects.
#[derive(Debug, Clone, Copy, PartialEq, Eq)]
pub struct TransportParams {
    /// Maximum idle time before a connection times out; `None` is no timeout.
    pub max_idle_timeout: Option<Duration>,
    /// Period of inactivity before a keep-alive packet; `None` sends none.
    pub keep_alive_interval: Option<Duration>,
}

impl TransportParams {
    /// The idle timeout, if any, can be encoded by the engine.
    pub open spec fn wf(self) -> bool {
        match self.max_idle_timeout {
            Some(d) => idle_timeout_representable(d),
            None => true,
        }
    }

    /// No idle timeout and no keep-alive.
    pub open spec fn is_default(self) -> bool {
        self.max_idle_timeout.is_none() && self.keep_alive_interval.is_none()
    }

    /// The parameters that a builder starts from.
    pub fn new() -> (r: TransportParams)
        ensures
            r.is_default(),
            r.wf(),
    {
        TransportParams { max_idle_timeout: None, keep_alive_interval: None }
    }

    /// Sets the idle timeout. Fails, with `self` unchanged, when a given
    /// duration cannot be encoded by the engine.
    pub fn set_max_idle_timeout(&mut self, idle_timeout: Option<Duration>) -> (r: bool)
        requires
            old(self).wf(),
        ensures
            final(self).wf(),
            r == match idle_timeout {
                Some(d) => idle_timeout_representable(d),
                None => true,
            },
            r ==> *final(self) == (TransportParams { max_idle_timeout: idle_timeout, ..*old(self) }),
            !r ==> *final(self) == *old(self),
    {
        match idle_timeout {
            Some(d) => {
                if idle_timeout_from(d).is_some() {
                    self.max_idle_timeout = idle_timeout;
                    true
                } else {
                    false
                }
            },
            None => {
                self.max_idle_timeout = None;
                true
            },
        }
    }

    /// Setting no idle timeout on fresh parameters leaves them as they were:
    /// a builder on which `max_idle_timeout(None)` was called and one on which
    /// it never was hold the same parameters.
    pub proof fn lemma_no_idle_timeout_is_default(self)
        requires
            self.is_default(),
        ensures
            (TransportParams { max_idle_timeout: None, ..self }) == self,
            (TransportParams { max_idle_timeout: None, ..self }).is_default(),
    {
    }

    /// The engine's transport configuration with these parameters applied
    /// over its defaults.
    pub fn to_transport_config(&self) -> (r: quinn::TransportConfig)
        requires
            self.wf(),
        ensures
            transport_applies(r, *self),
    {
        let mut config = default_transport_config();
        let idle = match self.max_idle_timeout {
            Some(d) => Some(idle_timeout_from(d).unwrap()),
            None => None,
        };
        apply_idle_timeout(&mut config, idle);
        apply_keep_alive_interval(&mut config, self.keep_alive_interval);
        config
    }
}

/// The idle timeout given cannot be encoded by the QUIC engine.
#[derive(Debug, Clone, Copy, PartialEq, Eq)]
pub struct InvalidIdleTimeout;

impl InvalidIdleTimeout {
    /// A description of the error.
    pub fn message(&self) -> (r: String)
        ensures
            r@ == "idle timeout value configuration is invalid"@,
    {
        String::from_str("idle timeout value configuration is invalid")
    }
}

} // verus!
