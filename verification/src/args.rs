//! Argument helpers shared by every command family.

use vstd::prelude::*;
use crate::chars::str_eq;

verus! {

/// `word` asks for usage text.
pub open spec fn is_help_word(word: Seq<char>) -> bool {
    word == "help"@ || word == "--help"@
}

/// The invocation asks for usage text: its first word is `help` or `--help`.
pub open spec fn asks_help(args: Seq<String>) -> bool {
    args.len() > 0 && is_help_word(args[0]@)
}

/// Reports whether `word` is `help` or `--help`.
pub fn is_help_arg(word: &str) -> (r: bool)
    ensures
        r == is_help_word(word@),
{
    str_eq(word, "help") || str_eq(word, "--help")
}

/// Reports whether an invocation asks for usage text instead of an operation.
pub fn is_help(args: &Vec<String>) -> (r: bool)
    ensures
        r == asks_help(args@),
{
    args.len() > 0 && is_help_arg(args[0].as_str())
}

/// Returns the sole non-empty argument, or `None` when the invocation names no single target.
pub fn single_target(args: &Vec<String>) -> (r: Option<&str>)
    ensures
        r is Some <==> (args@.len() == 1 && args@[0]@.len() > 0),
        r matches Some(t) ==> t@ == args@[0]@,
{
    if args.len() == 1 && args[0].as_str().unicode_len() > 0 {
        Some(args[0].as_str())
    } else {
        None
    }
}

/// The diagnostic for a target outside a service inventory.
pub open spec fn unknown_service_message(target: Seq<char>) -> Seq<char> {
    "unknown service: "@ + target
}

/// Whether `target` names one of `services`.
pub open spec fn is_member(target: Seq<char>, services: Seq<&str>) -> bool {
    exists|i: int| 0 <= i < services.len() && (#[trigger] services[i])@ == target
}

/// Rejects a target that is not part of a domain's service inventory.
pub fn validate_member(target: &str, services: &[&str]) -> (r: Result<(), String>)
    ensures
        r is Ok <==> is_member(target@, services@),
        r matches Err(m) ==> m@ == unknown_service_message(target@),
{
    let mut i: usize = 0;
    while i < services.len()
        invariant
            i <= services@.len(),
            forall|j: int| 0 <= j < i ==> (#[trigger] services@[j])@ != target@,
        decreases services@.len() - i,
    {
        if str_eq(services[i], target) {
            return Ok(());
        }
        i = i + 1;
    }
    let mut m = "unknown service: ".to_owned();
    m.append(target);
    Err(m)
}

} // verus!
