//! Diagnostics egress: whether it is switched on.
//!
//! Egress from the VM is visible to the sample, so it is off unless configured. A
//! malformed DSN is hostile configuration: the agent warns and goes on without
//! egress.

use vstd::prelude::*;

use crate::protocol::config::TelemetryConfig;
use crate::text::opt_view;

verus! {

/// What is wrong with a DSN, as `sentry::types::Dsn` says it; `None` = nothing.
pub uninterp spec fn dsn_fault(text: Seq<char>) -> Option<Seq<char>>;

/// Parses the text as a `sentry::types::Dsn` (`FromStr`) and hands out the error's
/// words, `None` where it parses. Both depend on the text alone; what a DSN looks
/// like is left unsaid.
#[verifier::external_body]
fn check_dsn(text: &str) -> (fault: Option<String>)
    ensures
        opt_view(fault) == dsn_fault(text@),
{
    match text.parse::<sentry::types::Dsn>() {
        Ok(_) => None,
        Err(error) => Some(error.to_string()),
    }
}

/// What becomes of diagnostics.
#[derive(Debug, PartialEq, Eq)]
pub enum Egress {
    /// They stay, as configured.
    Disabled,
    /// They stay, because the DSN is malformed; the text says how.
    Invalid(String),
    /// They leave the VM.
    Active,
}

/// Does the egress follow from the switch and from what is wrong with the DSN?
pub open spec fn egress_follows(egress: Egress, enabled: bool, fault: Option<Seq<char>>) -> bool {
    if !enabled {
        egress is Disabled
    } else {
        match fault {
            Some(words) => egress matches Egress::Invalid(text) && text@ == words,
            None => egress is Active,
        }
    }
}

/// What becomes of diagnostics, given what is wrong with the DSN.
pub fn decide_egress(enabled: bool, fault: Option<String>) -> (egress: Egress)
    ensures
        egress_follows(egress, enabled, opt_view(fault)),
{
    if !enabled {
        return Egress::Disabled;
    }
    match fault {
        Some(text) => Egress::Invalid(text),
        None => Egress::Active,
    }
}

/// What becomes of diagnostics under this configuration.
pub fn egress(config: &TelemetryConfig) -> (egress: Egress)
    ensures
        egress_follows(egress, config.sentry_enabled, dsn_fault(config.dsn@)),
{
    decide_egress(config.sentry_enabled, check_dsn(config.dsn.as_str()))
}

/// Telemetry leaves the machine exactly when it is switched on and nothing is
/// wrong with its address; where something is, that is what is told.
pub proof fn law_egress_needs_consent_and_an_address(
    egress: Egress,
    enabled: bool,
    fault: Option<Seq<char>>,
)
    requires
        egress_follows(egress, enabled, fault),
    ensures
        egress is Active <==> enabled && fault is None,
        egress is Disabled <==> !enabled,
        egress matches Egress::Invalid(text) ==> fault == Some(text@),
{
}

} // verus!
