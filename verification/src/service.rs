//! Managed service results and the commands that run services.

use vstd::prelude::*;
use crate::config::{trim, whitespace_trimmed};
use crate::numbers::{decimal_u64, parse_u64};

verus! {

/// Observed process state of one managed service.
pub struct ServiceStatus {
    pub name: String,
    /// The PID of the running process, `None` when the service is stopped.
    pub pid: Option<u32>,
}

/// A process to launch for a managed service.
pub struct ServiceCommand {
    pub program: String,
    pub args: Vec<String>,
    /// Extra environment variables, in order.
    pub environment: Vec<(String, String)>,
}

impl ServiceCommand {
    /// A `uv` invocation with the given arguments and no extra environment.
    pub fn uv(args: Vec<String>) -> (r: ServiceCommand)
        ensures
            r.program@ == "uv"@,
            r.args@ == args@,
            r.environment@.len() == 0,
    {
        ServiceCommand { program: "uv".to_owned(), args, environment: Vec::new() }
    }
}

/// The views of a list of strings.
pub open spec fn string_views(v: Seq<String>) -> Seq<Seq<char>> {
    v.map_values(|s: String| s@)
}

/// The PID a PID file records: its text, trimmed, as a decimal number in the range of `u32`.
pub open spec fn pid_of_text(text: Seq<char>) -> Option<u32> {
    match decimal_u64(whitespace_trimmed(text)) {
        Some(n) if n <= u32::MAX => Some(n as u32),
        _ => None,
    }
}

/// Reads the PID recorded in the text of a PID file; `None` when the text records none.
pub fn recorded_pid(text: &str) -> (r: Option<u32>)
    ensures
        r == pid_of_text(text@),
{
    match parse_u64(trim(text).as_str()) {
        Ok(n) => if n <= 0xffff_ffff {
            Some(n as u32)
        } else {
            None
        },
        Err(_) => None,
    }
}

} // verus!
