//! The command-line decision: what to do for a given pair of optional
//! arguments. Parsing itself is the caller's concern.

use vstd::prelude::*;

verus! {

/// What a given command line asks for.
#[derive(Debug)]
pub enum CliPlan {
    /// No arguments: list the input devices and exit.
    ListDevices,
    /// Exactly one of the two arguments: report usage and fail.
    UsageError,
    /// Both arguments: record from the matching device into the file.
    Record { device_query: String, file: String },
}

/// Decides the plan: both arguments absent lists devices, exactly one is
/// a usage error, both present proceeds to record.
pub fn plan_cli(device: Option<String>, file: Option<String>) -> (r: CliPlan)
    ensures
        match (device, file) {
            (Option::None, Option::None) => r is ListDevices,
            (Option::Some(q), Option::Some(f)) => {
                &&& r is Record
                &&& r->Record_device_query == q
                &&& r->Record_file == f
            },
            _ => r is UsageError,
        },
{
    match (device, file) {
        (Option::None, Option::None) => CliPlan::ListDevices,
        (Option::Some(q), Option::Some(f)) => CliPlan::Record { device_query: q, file: f },
        _ => CliPlan::UsageError,
    }
}

} // verus!
