//! The operator's intent as the bring-up reads it, and the lines of the daemon's
//! configuration that depend on it.

use vstd::prelude::*;
use crate::backend::{BitcoinCoreConfig, SyncStrategy};
use crate::text::{decimal, push_decimal, push_str, string_from_chars};
use crate::watchtower::WatchtowerConfig;

verus! {

/// The part of the configuration that the bring-up decides on. It is made once
/// at startup and only read after that.
#[derive(Debug, Clone, PartialEq, Eq)]
pub struct NodeConfig {
    pub alias: Option<String>,
    pub externalip: Option<String>,
    pub min_chan_size: Option<u64>,
    pub max_chan_size: Option<u64>,
    pub bitcoind: BitcoinCoreConfig,
    pub watchtowers: WatchtowerConfig,
    pub recovery_window: Option<usize>,
    pub use_tor_only: bool,
}

/// The line for an optional setting: empty where the setting is absent, else
/// the key, an equals sign and the value.
pub open spec fn optional_row_spec(key: Seq<char>, value: Option<Seq<char>>) -> Seq<char> {
    match value {
        None => Seq::empty(),
        Some(v) => key + seq!['='] + v,
    }
}

/// The line for an optional text setting.
pub fn optional_row(key: &str, value: &Option<String>) -> (row: String)
    ensures
        row@ == optional_row_spec(
            key@,
            match *value {
                Some(v) => Some(v@),
                None => None,
            },
        ),
{
    match value {
        None => String::new(),
        Some(v) => {
            let mut out: Vec<char> = Vec::new();
            push_str(&mut out, key);
            out.push('=');
            push_str(&mut out, v.as_str());
            assert(out@ =~= key@ + seq!['='] + v@);
            string_from_chars(&out)
        },
    }
}

/// The line for an optional number.
pub fn optional_number_row(key: &str, value: Option<u64>) -> (row: String)
    ensures
        row@ == optional_row_spec(
            key@,
            match value {
                Some(n) => Some(decimal(n as nat)),
                None => None,
            },
        ),
{
    match value {
        None => String::new(),
        Some(n) => {
            let mut out: Vec<char> = Vec::new();
            push_str(&mut out, key);
            out.push('=');
            push_decimal(&mut out, n);
            assert(out@ =~= key@ + seq!['='] + decimal(n as nat));
            string_from_chars(&out)
        },
    }
}

/// The line that names the fee estimator: the light client needs one, the full
/// node has its backend.
pub open spec fn fee_url_row_spec(strategy: SyncStrategy) -> Seq<char> {
    match strategy {
        SyncStrategy::LightClient =>
            "fee.url=https://nodes.lightning.computer/fees/v1/btc-fee-estimates.json"@,
        SyncStrategy::FullNode => Seq::empty(),
    }
}

/// The name of the chain service in the daemon's configuration.
pub open spec fn chain_node_spec(strategy: SyncStrategy) -> Seq<char> {
    match strategy {
        SyncStrategy::LightClient => "neutrino"@,
        SyncStrategy::FullNode => "bitcoind"@,
    }
}

/// The line that names the fee estimator.
pub fn fee_url_row(strategy: SyncStrategy) -> (row: String)
    ensures
        row@ == fee_url_row_spec(strategy),
{
    match strategy {
        SyncStrategy::LightClient =>
            "fee.url=https://nodes.lightning.computer/fees/v1/btc-fee-estimates.json".to_owned(),
        SyncStrategy::FullNode => String::new(),
    }
}

/// The name of the chain service.
pub fn chain_node(strategy: SyncStrategy) -> (name: String)
    ensures
        name@ == chain_node_spec(strategy),
{
    match strategy {
        SyncStrategy::LightClient => "neutrino".to_owned(),
        SyncStrategy::FullNode => "bitcoind".to_owned(),
    }
}

impl NodeConfig {
    /// The line of the external address.
    pub fn externalip_row(&self) -> (row: String)
        ensures
            row@ == optional_row_spec(
                "externalip"@,
                match self.externalip {
                    Some(v) => Some(v@),
                    None => None,
                },
            ),
    {
        optional_row("externalip", &self.externalip)
    }

    /// The line of the smallest channel size.
    pub fn min_chan_size_row(&self) -> (row: String)
        ensures
            row@ == optional_row_spec(
                "minchansize"@,
                match self.min_chan_size {
                    Some(n) => Some(decimal(n as nat)),
                    None => None,
                },
            ),
    {
        optional_number_row("minchansize", self.min_chan_size)
    }

    /// The line of the largest channel size.
    pub fn max_chan_size_row(&self) -> (row: String)
        ensures
            row@ == optional_row_spec(
                "maxchansize"@,
                match self.max_chan_size {
                    Some(n) => Some(decimal(n as nat)),
                    None => None,
                },
            ),
    {
        optional_number_row("maxchansize", self.max_chan_size)
    }

    /// Whether the daemon may also connect outside Tor.
    pub fn tor_enable_clearnet(&self) -> (r: bool)
        ensures
            r == !self.use_tor_only,
    {
        !self.use_tor_only
    }

    /// The address-recovery window as it goes into an unlock request.
    pub fn unlock_window(&self) -> (w: Option<u64>)
        ensures
            w == match self.recovery_window {
                Some(n) => Some(n as u64),
                None => None,
            },
    {
        match self.recovery_window {
            Some(n) => Some(n as u64),
            None => None,
        }
    }
}

} // verus!
