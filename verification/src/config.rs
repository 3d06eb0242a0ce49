//! SFU runtime configuration.
//!
//! [`SfuConfig`] has sensible defaults; the process environment (read by
//! the application) overrides them through [`SfuConfig::from_env_values`].
use vstd::prelude::*;
use vstd::string::StringSliceAdditionalSpecFns;

verus! {

/// Runtime configuration for the SFU.
#[derive(Clone, Debug, PartialEq, Eq)]
pub struct SfuConfig {
    /// UDP port the SFU listens on for WebRTC media. Env `SFU_UDP_PORT`, default 3478.
    pub udp_port: u16,
    /// HTTP port for the metrics endpoint. Env `SFU_METRICS_PORT`, default 9317.
    pub metrics_port: u16,
    /// Bind address for the UDP socket. Env `SFU_BIND_ADDRESS`, default `"0.0.0.0"`.
    pub bind_address: String,
    /// Log directive for the application. Env `RUST_LOG`, default `"info"`.
    pub log_level: String,
}

/// Which setting could not be parsed.
#[derive(Debug, Clone, Copy, PartialEq, Eq, Structural)]
pub enum ConfigError {
    /// `SFU_UDP_PORT` is not a port number.
    InvalidUdpPort,
    /// `SFU_METRICS_PORT` is not a port number.
    InvalidMetricsPort,
}

/// Whether `b` is an ASCII decimal digit.
pub open spec fn is_digit(b: u8) -> bool {
    48 <= b <= 57
}

/// The decimal value of a digit string.
pub open spec fn decimal_value(s: Seq<u8>) -> int
    decreases s.len(),
{
    if s.len() == 0 {
        0
    } else {
        decimal_value(s.drop_last()) * 10 + (s.last() - 48)
    }
}

/// The digits of an unsigned number's text: everything after a leading `+`.
pub open spec fn unsigned_digits(s: Seq<u8>) -> Seq<u8> {
    if s.len() > 0 && s[0] == 43 {
        s.drop_first()
    } else {
        s
    }
}

/// The value of `s` as a `u16` the way Rust's integer parsing reads it: an
/// optional `+`, then at least one decimal digit, nothing else, and a value
/// that fits in 16 bits.
pub open spec fn parse_u16_spec(s: Seq<u8>) -> Option<u16> {
    let d = unsigned_digits(s);
    if d.len() > 0 && (forall|i: int| 0 <= i < d.len() ==> is_digit(#[trigger] d[i]))
        && decimal_value(d) <= u16::MAX {
        Some(decimal_value(d) as u16)
    } else {
        None
    }
}

/// A digit string's value is at least that of any prefix.
proof fn lemma_decimal_prefix(s: Seq<u8>, i: int)
    requires
        0 <= i <= s.len(),
        forall|k: int| 0 <= k < s.len() ==> is_digit(#[trigger] s[k]),
    ensures
        decimal_value(s.subrange(0, i)) <= decimal_value(s),
        decimal_value(s) >= 0,
    decreases s.len(),
{
    if s.len() > 0 {
        assert forall|k: int| 0 <= k < s.len() - 1 implies is_digit(#[trigger] s.drop_last()[k]) by {
            assert(s.drop_last()[k] == s[k]);
        }
        if i == s.len() {
            assert(s.subrange(0, i) =~= s);
            lemma_decimal_prefix(s.drop_last(), i - 1);
        } else {
            lemma_decimal_prefix(s.drop_last(), i);
            assert(s.drop_last().subrange(0, i) =~= s.subrange(0, i));
        }
    }
}

/// Parse a port number (decimal `u16`, optional leading `+`).
pub fn parse_u16(text: &str) -> (r: Option<u16>)
    ensures
        r == parse_u16_spec(text.spec_bytes()),
{
    let s = text.as_bytes();
    let start: usize = if s.len() > 0 && s[0] == 43 {
        1
    } else {
        0
    };
    let ghost d = unsigned_digits(s@);
    assert(d =~= s@.subrange(start as int, s@.len() as int));
    if start >= s.len() {
        return None;
    }
    let mut v: u32 = 0;
    let mut i: usize = start;
    while i < s.len()
        invariant
            start <= i <= s@.len(),
            d == s@.subrange(start as int, s@.len() as int),
            d == unsigned_digits(text.spec_bytes()),
            s@ == text.spec_bytes(),
            forall|k: int| 0 <= k < i - start ==> is_digit(#[trigger] d[k]),
            v == decimal_value(d.subrange(0, i - start)),
            v <= u16::MAX,
        decreases s@.len() - i,
    {
        let b = s[i];
        if b < 48 || b > 57 {
            assert(!is_digit(d[i - start]));
            return None;
        }
        let ghost pre = d.subrange(0, i - start);
        let ghost nxt = d.subrange(0, i - start + 1);
        assert(nxt.drop_last() =~= pre);
        assert(nxt.last() == b);
        let nv = v * 10 + (b - 48) as u32;
        assert(decimal_value(nxt) == nv);
        if nv > 65535 {
            proof {
                if forall|k: int| 0 <= k < d.len() ==> is_digit(#[trigger] d[k]) {
                    lemma_decimal_prefix(d, i - start + 1);
                }
            }
            return None;
        }
        v = nv;
        i = i + 1;
    }
    assert(d.subrange(0, d.len() as int) =~= d);
    Some(v as u16)
}

impl Default for SfuConfig {
    fn default() -> (c: Self)
        ensures
            c.udp_port == 3478,
            c.metrics_port == 9317,
            c.bind_address@ == "0.0.0.0"@,
            c.log_level@ == "info"@,
    {
        SfuConfig {
            udp_port: 3478,
            metrics_port: 9317,
            bind_address: "0.0.0.0".to_owned(),
            log_level: "info".to_owned(),
        }
    }
}

impl SfuConfig {
    /// Build a config from the environment's settings (each `None` when the
    /// variable is unset), falling back to the defaults for unset ones.
    /// Fails when a port setting is present but not a port number; the UDP
    /// port is checked first.
    pub fn from_env_values(
        udp_port: Option<&str>,
        metrics_port: Option<&str>,
        bind_address: Option<&str>,
        log_level: Option<&str>,
    ) -> (r: Result<SfuConfig, ConfigError>)
        ensures
            r is Err <==> (udp_port matches Some(u) && parse_u16_spec(u.spec_bytes()) is None) || (
            metrics_port matches Some(m) && parse_u16_spec(m.spec_bytes()) is None),
            r == Err::<SfuConfig, ConfigError>(ConfigError::InvalidUdpPort) <==> (udp_port matches Some(u)
                && parse_u16_spec(u.spec_bytes()) is None),
            r matches Ok(c) ==> {
                &&& c.udp_port == (match udp_port {
                    Some(u) => parse_u16_spec(u.spec_bytes())->0,
                    None => 3478u16,
                })
                &&& c.metrics_port == (match metrics_port {
                    Some(m) => parse_u16_spec(m.spec_bytes())->0,
                    None => 9317u16,
                })
                &&& c.bind_address@ == (match bind_address {
                    Some(b) => b@,
                    None => "0.0.0.0"@,
                })
                &&& c.log_level@ == (match log_level {
                    Some(l) => l@,
                    None => "info"@,
                })
            },
    {
        let defaults = SfuConfig::default();
        let udp = match udp_port {
            None => defaults.udp_port,
            Some(u) => match parse_u16(u) {
                Some(p) => p,
                None => return Err(ConfigError::InvalidUdpPort),
            },
        };
        let metrics = match metrics_port {
            None => defaults.metrics_port,
            Some(m) => match parse_u16(m) {
                Some(p) => p,
                None => return Err(ConfigError::InvalidMetricsPort),
            },
        };
        let bind = match bind_address {
            None => defaults.bind_address,
            Some(b) => b.to_owned(),
        };
        let log = match log_level {
            None => defaults.log_level,
            Some(l) => l.to_owned(),
        };
        Ok(SfuConfig { udp_port: udp, metrics_port: metrics, bind_address: bind, log_level: log })
    }
}

} // verus!
