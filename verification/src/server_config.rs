//! The parts of the server's settings that are computed rather than read:
//! the list of allowed hosts, given as a JSON array, and the host names that
//! a request may be addressed to.
use vstd::prelude::*;

verus! {

/// The list of texts that a JSON text holds, where it is a JSON array of
/// strings (`None` where it is not).
pub uninterp spec fn json_string_list(text: Seq<char>) -> Option<Seq<Seq<char>>>;

/// The texts of a list of strings.
pub open spec fn texts(items: Seq<String>) -> Seq<Seq<char>> {
    items.map_values(|s: String| s@)
}

/// Calls `serde_json::from_str` for a `Vec<String>`. Claimed: it succeeds
/// exactly where the text is a JSON array of strings, and then gives those
/// strings in order; both depend on the text alone. Which texts are such
/// arrays, and which error a failure reports, is left unstated.
#[verifier::external_body]
fn parse_string_list(text: &str) -> (r: Result<Vec<String>, serde_json::Error>)
    ensures
        r is Ok <==> json_string_list(text@) is Some,
        r matches Ok(hosts) ==> texts(hosts@) == json_string_list(text@).unwrap(),
{
    serde_json::from_str(text)
}

/// Reads the allowed hosts, written as a JSON array of host names.
pub fn parse_allowed_hosts(text: &str) -> (r: Result<Vec<String>, serde_json::Error>)
    ensures
        r is Ok <==> json_string_list(text@) is Some,
        r matches Ok(hosts) ==> texts(hosts@) == json_string_list(text@).unwrap(),
{
    parse_string_list(text)
}

/// The host names that a request may be addressed to: the address that the
/// server binds to, always, then each allowed host in order.
pub fn allowed_host_names(bind_address: String, allowed_hosts: &Vec<String>) -> (r: Vec<String>)
    ensures
        texts(r@) == seq![bind_address@] + texts(allowed_hosts@),
{
    let mut names: Vec<String> = Vec::new();
    names.push(bind_address);
    let n: usize = allowed_hosts.len();
    let mut i: usize = 0;
    while i < n
        invariant
            n == allowed_hosts@.len(),
            i <= n,
            texts(names@) =~= seq![bind_address@] + texts(allowed_hosts@.take(i as int)),
        decreases n - i,
    {
        let ghost before = names@;
        names.push(allowed_hosts[i].clone());
        assert(texts(names@) =~= texts(before).push(allowed_hosts@[i as int]@));
        assert(allowed_hosts@.take(i + 1) =~= allowed_hosts@.take(i as int).push(allowed_hosts@[i as int]));
        i = i + 1;
    }
    assert(allowed_hosts@.take(n as int) =~= allowed_hosts@);
    names
}

} // verus!
