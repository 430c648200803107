use vstd::prelude::*;
use vstd::string::StringExecFns;

verus! {

/// The greeting for a name, substituted verbatim.
pub open spec fn greeting(name: Seq<char>) -> Seq<char> {
    "Hello, "@ + name + "! You've been greeted from Rust!"@
}

/// Greets `name`. Depends on its argument alone and never fails.
pub fn greet(name: &str) -> (r: String)
    ensures
        r@ == greeting(name@),
{
    let mut r = String::from_str("Hello, ");
    r.append(name);
    r.append("! You've been greeted from Rust!");
    r
}

/// The always-on-top value that the command writes, given what reading the
/// window's current value gave: its negation, or the read's error, which the
/// command hands back to its caller without writing.
pub fn toggle_always_on_top(current: Result<bool, String>) -> (r: Result<bool, String>)
    ensures
        match current {
            Ok(on) => r == Ok::<bool, String>(!on),
            Err(e) => r == Err::<bool, String>(e),
        },
{
    match current {
        Ok(on) => Ok(!on),
        Err(e) => Err(e),
    }
}

} // verus!
