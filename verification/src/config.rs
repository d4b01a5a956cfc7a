//! Configuration records for the multiplexer and their validation.

use vstd::prelude::*;

verus! {

/// How settled a block must be before a source reports it.
///
/// `Processed` blocks are not sequential in the presence of forks, so the
/// fastest-wins filter supports only `Confirmed` and `Finalized`.
#[derive(Clone, Copy, Debug, PartialEq, Eq, Structural)]
pub enum CommitmentLevel {
    Processed,
    Confirmed,
    Finalized,
}

impl CommitmentLevel {
    /// The filter stage is sound only for commitment levels under which the
    /// slot progression cannot fork.
    pub open spec fn is_supported(self) -> bool {
        self == CommitmentLevel::Confirmed || self == CommitmentLevel::Finalized
    }
}

/// A fatal error found while a multiplexer is being configured.
#[derive(Clone, Copy, Debug, PartialEq, Eq, Structural)]
pub enum ConfigError {
    /// The source list was empty.
    NoSources,
    /// The commitment level was neither `Confirmed` nor `Finalized`.
    UnsupportedCommitment,
}

/// Transport-security settings for one source, held as plain values.
#[derive(Clone, Debug)]
pub struct TlsSettings {
    /// The domain name expected on the server certificate, when the
    /// endpoint address alone does not determine it.
    pub domain_name: Option<String>,
}

/// One upstream subscription endpoint.
///
/// Created at configuration time, cloned per (re)connect, never mutated.
#[derive(Clone, Debug)]
pub struct GrpcSourceConfig {
    /// Symbolic name used in logs.
    pub label: String,
    /// Network address of the upstream endpoint.
    pub grpc_addr: String,
    /// Optional opaque credential sent with the connect call.
    pub grpc_x_token: Option<String>,
    /// Optional transport security parameters.
    pub tls_config: Option<TlsSettings>,
}

impl GrpcSourceConfig {
    /// A source record without transport security parameters.
    pub fn new(label: String, grpc_addr: String, grpc_x_token: Option<String>) -> (c: Self)
        ensures
            c.label == label,
            c.grpc_addr == grpc_addr,
            c.grpc_x_token == grpc_x_token,
            c.tls_config is None,
    {
        Self { label, grpc_addr, grpc_x_token, tls_config: None }
    }
}

/// Checks the preconditions of the multiplex assembler: at least one source,
/// and a commitment level under which slots advance monotonically.
///
/// The commitment level is examined first, so an unsupported level is
/// reported even when the source list is also empty.
pub fn validate_config(sources: &Vec<GrpcSourceConfig>, commitment: CommitmentLevel) -> (r: Result<
    (),
    ConfigError,
>)
    ensures
        r is Ok <==> sources@.len() >= 1 && commitment.is_supported(),
        r == Err::<(), ConfigError>(ConfigError::UnsupportedCommitment) <==> !commitment.is_supported(),
        r == Err::<(), ConfigError>(ConfigError::NoSources) <==> commitment.is_supported()
            && sources@.len() == 0,
{
    if !(matches!(commitment, CommitmentLevel::Confirmed)
        || matches!(commitment, CommitmentLevel::Finalized)) {
        Err(ConfigError::UnsupportedCommitment)
    } else if sources.len() == 0 {
        Err(ConfigError::NoSources)
    } else {
        Ok(())
    }
}

} // verus!
