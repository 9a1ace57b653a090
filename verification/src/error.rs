//! Typed errors surfaced by the engine, grouped into the domains that decide
//! how the scheduler and the executor react to a failure.

use vstd::prelude::*;
use vstd::string::StringExecFns;

verus! {

/// Error raised while monitoring or liquidating a position.
#[derive(Debug, Clone, PartialEq, Eq)]
pub enum LiquidationError {
    /// The ledger client failed to answer.
    RpcError(String),
    /// The on-ledger settlement program rejected an instruction.
    ProgramError(String),
    /// The oracle source failed to deliver an observation.
    OracleError(String),
    /// The observation for this symbol is older than the configured bound.
    StalePrice(String),
    /// The confidence interval for this symbol is suspiciously narrow.
    LowConfidencePrice(String),
    /// The confidence interval for this symbol is too wide.
    HighConfidenceInterval(String),
    /// A liquidation was attempted on a healthy position.
    PositionNotLiquidatable(u64),
    /// The liquidation submission was rejected.
    LiquidationFailed(String),
    /// The pre-submission simulation of the liquidation failed.
    SimulationFailed(String),
    /// The submitted transaction was not confirmed in time.
    ConfirmationTimeout,
    /// The engine was started with an invalid configuration.
    ConfigError(String),
    /// Any other failure.
    Other(String),
}

/// The domains of the error taxonomy. Each domain has one recovery policy:
/// oracle errors skip the position for the tick, execution errors are retried
/// up to a bound, configuration errors are fatal at startup, and logic errors
/// guard against races that a correct caller never triggers.
#[derive(Debug, Clone, Copy, PartialEq, Eq, Structural)]
pub enum ErrorDomain {
    Oracle,
    Execution,
    Configuration,
    Logic,
}

impl LiquidationError {
    /// The domain a given error belongs to.
    pub open spec fn spec_domain(&self) -> ErrorDomain {
        match self {
            LiquidationError::RpcError(_) => ErrorDomain::Oracle,
            LiquidationError::OracleError(_) => ErrorDomain::Oracle,
            LiquidationError::StalePrice(_) => ErrorDomain::Oracle,
            LiquidationError::LowConfidencePrice(_) => ErrorDomain::Oracle,
            LiquidationError::HighConfidenceInterval(_) => ErrorDomain::Oracle,
            LiquidationError::ProgramError(_) => ErrorDomain::Execution,
            LiquidationError::LiquidationFailed(_) => ErrorDomain::Execution,
            LiquidationError::SimulationFailed(_) => ErrorDomain::Execution,
            LiquidationError::ConfirmationTimeout => ErrorDomain::Execution,
            LiquidationError::Other(_) => ErrorDomain::Execution,
            LiquidationError::ConfigError(_) => ErrorDomain::Configuration,
            LiquidationError::PositionNotLiquidatable(_) => ErrorDomain::Logic,
        }
    }

    /// The domain a given error belongs to.
    pub fn domain(&self) -> (d: ErrorDomain)
        ensures
            d == self.spec_domain(),
    {
        match self {
            LiquidationError::RpcError(_) => ErrorDomain::Oracle,
            LiquidationError::OracleError(_) => ErrorDomain::Oracle,
            LiquidationError::StalePrice(_) => ErrorDomain::Oracle,
            LiquidationError::LowConfidencePrice(_) => ErrorDomain::Oracle,
            LiquidationError::HighConfidenceInterval(_) => ErrorDomain::Oracle,
            LiquidationError::ProgramError(_) => ErrorDomain::Execution,
            LiquidationError::LiquidationFailed(_) => ErrorDomain::Execution,
            LiquidationError::SimulationFailed(_) => ErrorDomain::Execution,
            LiquidationError::ConfirmationTimeout => ErrorDomain::Execution,
            LiquidationError::Other(_) => ErrorDomain::Execution,
            LiquidationError::ConfigError(_) => ErrorDomain::Configuration,
            LiquidationError::PositionNotLiquidatable(_) => ErrorDomain::Logic,
        }
    }

    /// An oracle-domain error only skips the position for the current tick;
    /// it is never a reason to drop the position from monitoring.
    pub fn skips_position(&self) -> (r: bool)
        ensures
            r == (self.spec_domain() == ErrorDomain::Oracle),
    {
        let d = self.domain();
        d == ErrorDomain::Oracle
    }

    /// An execution-domain error may be retried up to the configured bound.
    pub fn is_retryable(&self) -> (r: bool)
        ensures
            r == (self.spec_domain() == ErrorDomain::Execution),
    {
        let d = self.domain();
        d == ErrorDomain::Execution
    }

    /// The error's operator-facing description.
    pub open spec fn spec_description(&self) -> Seq<char> {
        match self {
            LiquidationError::RpcError(msg) => "RPC error: "@ + msg@,
            LiquidationError::ProgramError(msg) => "Program error: "@ + msg@,
            LiquidationError::OracleError(msg) => "Oracle error: "@ + msg@,
            LiquidationError::StalePrice(symbol) => "Stale price for "@ + symbol@,
            LiquidationError::LowConfidencePrice(symbol) => "Low confidence price for "@
                + symbol@,
            LiquidationError::HighConfidenceInterval(symbol) => "High confidence interval for "@
                + symbol@,
            LiquidationError::PositionNotLiquidatable(_) => "Position is not liquidatable"@,
            LiquidationError::LiquidationFailed(msg) => "Liquidation failed: "@ + msg@,
            LiquidationError::SimulationFailed(msg) => "Simulation failed: "@ + msg@,
            LiquidationError::ConfirmationTimeout => "Transaction confirmation timed out"@,
            LiquidationError::ConfigError(msg) => "Configuration error: "@ + msg@,
            LiquidationError::Other(msg) => "Error: "@ + msg@,
        }
    }

    /// Describes the error for operators; the address of a healthy
    /// position a liquidation was attempted on is carried by the variant
    /// itself.
    pub fn describe(&self) -> (r: String)
        ensures
            r@ == self.spec_description(),
    {
        match self {
            LiquidationError::RpcError(msg) => "RPC error: ".to_owned().concat(msg.as_str()),
            LiquidationError::ProgramError(msg) => "Program error: ".to_owned().concat(
                msg.as_str(),
            ),
            LiquidationError::OracleError(msg) => "Oracle error: ".to_owned().concat(msg.as_str()),
            LiquidationError::StalePrice(symbol) => "Stale price for ".to_owned().concat(
                symbol.as_str(),
            ),
            LiquidationError::LowConfidencePrice(symbol) => "Low confidence price for "
                .to_owned().concat(symbol.as_str()),
            LiquidationError::HighConfidenceInterval(symbol) => "High confidence interval for "
                .to_owned().concat(symbol.as_str()),
            LiquidationError::PositionNotLiquidatable(_) => "Position is not liquidatable"
                .to_owned(),
            LiquidationError::LiquidationFailed(msg) => "Liquidation failed: ".to_owned().concat(
                msg.as_str(),
            ),
            LiquidationError::SimulationFailed(msg) => "Simulation failed: ".to_owned().concat(
                msg.as_str(),
            ),
            LiquidationError::ConfirmationTimeout => "Transaction confirmation timed out"
                .to_owned(),
            LiquidationError::ConfigError(msg) => "Configuration error: ".to_owned().concat(
                msg.as_str(),
            ),
            LiquidationError::Other(msg) => "Error: ".to_owned().concat(msg.as_str()),
        }
    }
}

} // verus!
