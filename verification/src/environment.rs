//! The closed set of deployment environments and the parsing of the raw
//! command-line token into it.

use vstd::prelude::*;

verus! {

/// A recognized deployment environment. The raw token is parsed into this
/// enum once, at the program's edge; everything downstream is total over it.
#[derive(Clone, Copy, PartialEq, Eq, Structural, Debug)]
pub enum Env {
    Dev,
    Stage,
    Prod,
}

/// Which environment, if any, a raw token denotes. Exactly the tokens
/// `dev`, `stage` and `prod` are recognized; every other token is rejected.
pub open spec fn env_of(s: Seq<char>) -> Option<Env> {
    if s == "dev"@ {
        Some(Env::Dev)
    } else if s == "stage"@ {
        Some(Env::Stage)
    } else if s == "prod"@ {
        Some(Env::Prod)
    } else {
        None
    }
}

fn str_eq(a: &str, b: &str) -> (r: bool)
    ensures
        r == (a@ == b@),
{
    let x = a.to_owned();
    let y = b.to_owned();
    x == y
}

/// Parse a raw environment token. Returns `None` for an unrecognized token,
/// which callers must treat as a reported error, not a silent no-op.
pub fn parse_env(s: &str) -> (r: Option<Env>)
    ensures
        r == env_of(s@),
{
    if str_eq(s, "dev") {
        Some(Env::Dev)
    } else if str_eq(s, "stage") {
        Some(Env::Stage)
    } else if str_eq(s, "prod") {
        Some(Env::Prod)
    } else {
        None
    }
}

} // verus!
