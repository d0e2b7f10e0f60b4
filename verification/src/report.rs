//! The health checker's observation record and the rendering of each
//! check's outcome as the one line printed for its URL.

use vstd::prelude::*;
use vstd::string::StringExecFns;

verus! {

/// One health check's observation: the round-trip time in milliseconds and
/// the numeric HTTP status code of the response.
#[derive(Clone, Copy, PartialEq, Eq, Structural, Debug)]
pub struct HealthCheckResult {
    pub time: u128,
    pub response_code: u16,
}

impl HealthCheckResult {
    /// Record one measurement.
    pub fn new(time: u128, response_code: u16) -> (r: HealthCheckResult)
        ensures
            r.time == time,
            r.response_code == response_code,
    {
        HealthCheckResult { time, response_code }
    }
}

/// The decimal digit character for `d`, `0 <= d < 10`.
pub open spec fn digit_char(d: int) -> char {
    if d == 0 {
        '0'
    } else if d == 1 {
        '1'
    } else if d == 2 {
        '2'
    } else if d == 3 {
        '3'
    } else if d == 4 {
        '4'
    } else if d == 5 {
        '5'
    } else if d == 6 {
        '6'
    } else if d == 7 {
        '7'
    } else if d == 8 {
        '8'
    } else {
        '9'
    }
}

/// The decimal rendering of `n`, most significant digit first, with no
/// leading zeros (and `0` rendered as the single digit `0`).
pub open spec fn dec_digits(n: nat) -> Seq<char>
    decreases n,
{
    if n < 10 {
        seq![digit_char(n as int)]
    } else {
        dec_digits(n / 10) + seq![digit_char((n % 10) as int)]
    }
}

fn digit_str(d: u128) -> (s: &'static str)
    requires
        d < 10,
    ensures
        s@ == seq![digit_char(d as int)],
{
    if d == 0 {
        proof {
            reveal_strlit("0");
            assert("0"@ =~= seq![digit_char(0)]);
        }
        "0"
    } else if d == 1 {
        proof {
            reveal_strlit("1");
            assert("1"@ =~= seq![digit_char(1)]);
        }
        "1"
    } else if d == 2 {
        proof {
            reveal_strlit("2");
            assert("2"@ =~= seq![digit_char(2)]);
        }
        "2"
    } else if d == 3 {
        proof {
            reveal_strlit("3");
            assert("3"@ =~= seq![digit_char(3)]);
        }
        "3"
    } else if d == 4 {
        proof {
            reveal_strlit("4");
            assert("4"@ =~= seq![digit_char(4)]);
        }
        "4"
    } else if d == 5 {
        proof {
            reveal_strlit("5");
            assert("5"@ =~= seq![digit_char(5)]);
        }
        "5"
    } else if d == 6 {
        proof {
            reveal_strlit("6");
            assert("6"@ =~= seq![digit_char(6)]);
        }
        "6"
    } else if d == 7 {
        proof {
            reveal_strlit("7");
            assert("7"@ =~= seq![digit_char(7)]);
        }
        "7"
    } else if d == 8 {
        proof {
            reveal_strlit("8");
            assert("8"@ =~= seq![digit_char(8)]);
        }
        "8"
    } else {
        proof {
            reveal_strlit("9");
            assert("9"@ =~= seq![digit_char(9)]);
        }
        "9"
    }
}

/// Render `n` in decimal.
pub fn u128_to_dec(n: u128) -> (s: String)
    ensures
        s@ == dec_digits(n as nat),
    decreases n,
{
    if n < 10 {
        String::from_str(digit_str(n))
    } else {
        proof {
            assert(n / 10 < n) by (nonlinear_arith)
                requires
                    n >= 10,
            ;
        }
        let mut s = u128_to_dec(n / 10);
        s.append(digit_str(n % 10));
        s
    }
}

/// The line reported for a check that received a response: the URL, the
/// status code and the round-trip time in milliseconds.
pub open spec fn success_line(url: Seq<char>, time: nat, code: nat) -> Seq<char> {
    url + " Status: "@ + dec_digits(code) + " Response time: "@ + dec_digits(time) + "ms"@
}

/// The line reported for a check that failed for any reason.
pub open spec fn failure_line(url: Seq<char>) -> Seq<char> {
    url + " Failed."@
}

/// Render the one line printed for `url`: the status-and-latency form when
/// a response was observed, the failure form otherwise. Every failure cause
/// renders identically.
pub fn report_line(url: &str, outcome: Option<HealthCheckResult>) -> (s: String)
    ensures
        (match outcome {
            Some(r) => s@ == success_line(url@, r.time as nat, r.response_code as nat),
            None => s@ == failure_line(url@),
        }),
{
    match outcome {
        Some(r) => {
            let mut s = String::from_str(url);
            s.append(" Status: ");
            let code = u128_to_dec(r.response_code as u128);
            s.append(code.as_str());
            s.append(" Response time: ");
            let time = u128_to_dec(r.time);
            s.append(time.as_str());
            s.append("ms");
            s
        },
        None => {
            let mut s = String::from_str(url);
            s.append(" Failed.");
            s
        },
    }
}

} // verus!
