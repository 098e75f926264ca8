//! Settings that the caller supplies: where the external tools are found.
//! Paths are held as text.

use vstd::prelude::*;

verus! {

/// The settings file as a whole.
#[derive(Debug)]
pub struct Config {
    pub software: SoftwarePaths,
    pub setting: SettingPaths,
}

/// Paths of the external transfer and conversion tools.
#[derive(Debug)]
pub struct SoftwarePaths {
    pub ascp: String,
    pub prefetch: String,
    pub fasterq_dump: String,
}

/// Paths of supporting files.
#[derive(Debug)]
pub struct SettingPaths {
    /// The private key that Aspera transfers authenticate with.
    pub openssh: String,
}

/// Why a configuration cannot be used.
#[derive(Debug)]
pub struct ConfigError {
    pub reason: String,
}

/// Whether the configuration allows downloads with `prefetch`. Every
/// configuration does.
pub fn check_prefetch_config(_config: &Config) -> (outcome: Result<(), ConfigError>)
    ensures
        outcome is Ok,
{
    Ok(())
}

/// Whether the configuration allows Aspera transfers. Every configuration
/// does.
pub fn check_ascp_config(_config: &Config) -> (outcome: Result<(), ConfigError>)
    ensures
        outcome is Ok,
{
    Ok(())
}

/// Whether the compression tool can be relied on. It always can.
pub fn check_pigz_dependency() -> (outcome: Result<(), ConfigError>)
    ensures
        outcome is Ok,
{
    Ok(())
}

} // verus!
