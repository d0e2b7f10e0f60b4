//! Resolution of a deployment environment to the fixed, ordered list of
//! five URLs that are probed for it.
//!
//! The URLs follow a template: an environment suffix (empty for production)
//! and its compact variant (the suffix with the dash stripped) are spliced
//! into five fixed templates. The resulting list is total over `Env` and
//! deterministic.

use crate::environment::Env;
use vstd::prelude::*;
use vstd::string::StringExecFns;

verus! {

/// The environment suffix spliced into subdomain names: empty for
/// production, `-dev` and `-stage` otherwise.
pub open spec fn suffix(e: Env) -> Seq<char> {
    match e {
        Env::Dev => "-dev"@,
        Env::Stage => "-stage"@,
        Env::Prod => ""@,
    }
}

/// The compact variant of the suffix, with the dash stripped; it prefixes
/// whole host names rather than extending one.
pub open spec fn compact(e: Env) -> Seq<char> {
    match e {
        Env::Dev => "dev"@,
        Env::Stage => "stage"@,
        Env::Prod => ""@,
    }
}

/// The separator that follows the compact prefix when it forms its own
/// subdomain label: absent for production.
pub open spec fn dot(e: Env) -> Seq<char> {
    match e {
        Env::Prod => ""@,
        _ => "."@,
    }
}

/// The separator that joins the compact prefix to a hyphenated subdomain:
/// absent for production.
pub open spec fn dash(e: Env) -> Seq<char> {
    match e {
        Env::Prod => ""@,
        _ => "-"@,
    }
}

/// The `i`-th URL probed for environment `e`, for `0 <= i < 5`: the
/// versioned API endpoint, the application root, the second API's version
/// endpoint, the evacuation API's version endpoint, and the `new` subdomain
/// root, in that order.
pub open spec fn url_spec(e: Env, i: int) -> Seq<char> {
    if i == 0 {
        "https://api"@ + suffix(e) + ".eastcoast-online.net/version"@
    } else if i == 1 {
        "https://"@ + compact(e) + dot(e) + "eastcoast-online.net"@
    } else if i == 2 {
        "https://app"@ + suffix(e) + ".eastcoastexpress.net/api/v2/version"@
    } else if i == 3 {
        "https://"@ + compact(e) + dash(e) + "evac-api.eastcoast-online.net/api/version"@
    } else {
        "https://new"@ + suffix(e) + ".eastcoast-online.net/"@
    }
}

/// Every URL probed for any environment is an absolute HTTPS URL: each of
/// the five begins with the scheme prefix `https://`. Together with the
/// resolver's postcondition (exactly five URLs, in the fixed template
/// order) this pins the shape of the whole list for every environment.
pub proof fn lemma_urls_are_https(e: Env, i: int)
    requires
        0 <= i < 5,
    ensures
        url_spec(e, i).len() >= 8,
        url_spec(e, i).subrange(0, 8) == "https://"@,
{
    reveal_strlit("https://");
    reveal_strlit("https://api");
    reveal_strlit("https://app");
    reveal_strlit("https://new");
    if i == 0 {
        assert(url_spec(e, 0).subrange(0, 8) =~= "https://"@);
    } else if i == 1 {
        assert(url_spec(e, 1).subrange(0, 8) =~= "https://"@);
    } else if i == 2 {
        assert(url_spec(e, 2).subrange(0, 8) =~= "https://"@);
    } else if i == 3 {
        assert(url_spec(e, 3).subrange(0, 8) =~= "https://"@);
    } else {
        assert(url_spec(e, 4).subrange(0, 8) =~= "https://"@);
    }
}

/// For a given environment the same substitution is applied across all
/// five URLs: each URL embeds that environment's suffix, or its compact
/// variant (the suffix with the dash stripped), at its template position.
/// Production's suffix, compact variant and both separators are empty, so
/// production URLs carry no environment marker; the dev and stage suffixes
/// are `-dev` and `-stage`.
pub proof fn lemma_substitution_consistent(e: Env)
    ensures
        url_spec(e, 0) == "https://api"@ + suffix(e) + ".eastcoast-online.net/version"@,
        url_spec(e, 1) == "https://"@ + compact(e) + dot(e) + "eastcoast-online.net"@,
        url_spec(e, 2) == "https://app"@ + suffix(e) + ".eastcoastexpress.net/api/v2/version"@,
        url_spec(e, 3) == "https://"@ + compact(e) + dash(e)
            + "evac-api.eastcoast-online.net/api/version"@,
        url_spec(e, 4) == "https://new"@ + suffix(e) + ".eastcoast-online.net/"@,
        suffix(Env::Prod).len() == 0,
        compact(Env::Prod).len() == 0,
        dot(Env::Prod).len() == 0,
        dash(Env::Prod).len() == 0,
        e != Env::Prod ==> compact(e) == suffix(e).drop_first(),
        suffix(Env::Dev) == "-dev"@,
        suffix(Env::Stage) == "-stage"@,
{
    reveal_strlit("");
    reveal_strlit("-dev");
    reveal_strlit("dev");
    reveal_strlit("-stage");
    reveal_strlit("stage");
    assert("dev"@ =~= "-dev"@.drop_first());
    assert("stage"@ =~= "-stage"@.drop_first());
}

fn suffix_str(e: Env) -> (s: &'static str)
    ensures
        s@ == suffix(e),
{
    match e {
        Env::Dev => "-dev",
        Env::Stage => "-stage",
        Env::Prod => "",
    }
}

fn compact_str(e: Env) -> (s: &'static str)
    ensures
        s@ == compact(e),
{
    match e {
        Env::Dev => "dev",
        Env::Stage => "stage",
        Env::Prod => "",
    }
}

fn dot_str(e: Env) -> (s: &'static str)
    ensures
        s@ == dot(e),
{
    match e {
        Env::Prod => "",
        _ => ".",
    }
}

fn dash_str(e: Env) -> (s: &'static str)
    ensures
        s@ == dash(e),
{
    match e {
        Env::Prod => "",
        _ => "-",
    }
}

/// Build the five URLs for `e` by splicing the suffixes into the templates.
pub fn generate_vec(e: Env) -> (r: Vec<String>)
    ensures
        r@.len() == 5,
        r@[0]@ == url_spec(e, 0),
        r@[1]@ == url_spec(e, 1),
        r@[2]@ == url_spec(e, 2),
        r@[3]@ == url_spec(e, 3),
        r@[4]@ == url_spec(e, 4),
{
    let suf = suffix_str(e);
    let comp = compact_str(e);
    let dot_sep = dot_str(e);
    let dash_sep = dash_str(e);

    let mut u0 = String::from_str("https://api");
    u0.append(suf);
    u0.append(".eastcoast-online.net/version");

    let mut u1 = String::from_str("https://");
    u1.append(comp);
    u1.append(dot_sep);
    u1.append("eastcoast-online.net");

    let mut u2 = String::from_str("https://app");
    u2.append(suf);
    u2.append(".eastcoastexpress.net/api/v2/version");

    let mut u3 = String::from_str("https://");
    u3.append(comp);
    u3.append(dash_sep);
    u3.append("evac-api.eastcoast-online.net/api/version");

    let mut u4 = String::from_str("https://new");
    u4.append(suf);
    u4.append(".eastcoast-online.net/");

    let mut r: Vec<String> = Vec::new();
    r.push(u0);
    r.push(u1);
    r.push(u2);
    r.push(u3);
    r.push(u4);
    r
}

/// The ordered list of URLs to probe for environment `e`: always exactly
/// five, in the fixed template order.
pub fn get_urls_for_env(e: Env) -> (r: Vec<String>)
    ensures
        r@.len() == 5,
        r@[0]@ == url_spec(e, 0),
        r@[1]@ == url_spec(e, 1),
        r@[2]@ == url_spec(e, 2),
        r@[3]@ == url_spec(e, 3),
        r@[4]@ == url_spec(e, 4),
{
    generate_vec(e)
}

} // verus!
