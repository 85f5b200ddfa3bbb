//! Routing decisions of the reverse proxy.
//!
//! Every request that reaches the gateway's public port and matches no
//! control route is forwarded to the tenant's own listener: the tenant is
//! named by the `product_code` request header, its port looked up in the port
//! table, and the request re-targeted at `http://127.0.0.1:<port>` with path
//! and query preserved. The byte streaming of request and response bodies is
//! the application's job; the decision of where (and whether) to forward, and
//! the exact target, are made here.

use vstd::prelude::*;

use crate::registry::PortTable;
use crate::worker_util::ScriptWorkerId;
use crate::worker_util::WorkerPort;
use crate::Res;

verus! {

/// What the proxy does with one inbound request.
#[derive(Debug, Clone, Copy, PartialEq, Eq, Structural)]
pub enum ForwardDecision {
    /// The request carries no `product_code` header; answer with the uniform
    /// envelope carrying "product_code not found", without forwarding.
    MissingHeader,
    /// The named tenant has no live listener; answer "service not found"
    /// without forwarding.
    ServiceNotFound,
    /// Forward to the tenant's assigned port.
    Forward { port: WorkerPort },
}

/// Decide where an inbound request goes: requests without the tenant header
/// are answered "not found", tenants without a port-table entry "service not
/// found", and everything else is forwarded to the tenant's assigned port.
pub fn route(ports: &PortTable, product_code: Option<&str>) -> (d: ForwardDecision)
    requires
        ports.wf(),
    ensures
        (d is MissingHeader) <==> (product_code is None),
        product_code matches Some(code) ==> match ports.spec_get(code@) {
            Some(p) => d == (ForwardDecision::Forward { port: p }),
            None => d is ServiceNotFound,
        },
{
    match product_code {
        None => ForwardDecision::MissingHeader,
        Some(code) => {
            let id = ScriptWorkerId(String::from_str(code));
            match ports.get(&id) {
                Some(p) => ForwardDecision::Forward { port: *p },
                None => ForwardDecision::ServiceNotFound,
            }
        },
    }
}

/// Response when the tenant header is absent: the uniform envelope carrying
/// the notice, under this system's `code: 0` convention.
pub fn missing_header_response() -> (r: Res<String>)
    ensures
        r.code == 0,
        r.data@ == "product_code not found"@,
{
    Res { code: 0, data: String::from_str("product_code not found") }
}

/// Response body when the named tenant has no live listener, distinct from
/// the missing-header answer: the tenant code followed by a notice.
pub fn service_not_found_body(code: &str) -> (s: String)
    ensures
        s@ == code@ + " service not found"@,
{
    let mut s = String::from_str(code);
    s.append(" service not found");
    s
}

/// The decimal digit `d` as a character.
pub open spec fn digit_char(d: nat) -> char {
    if d == 0 {
        '0'
    } else if d == 1 {
        '1'
    } else if d == 2 {
        '2'
    } else if d == 3 {
        '3'
    } else if d == 4 {
        '4'
    } else if d == 5 {
        '5'
    } else if d == 6 {
        '6'
    } else if d == 7 {
        '7'
    } else if d == 8 {
        '8'
    } else {
        '9'
    }
}

/// The decimal digits of `n`, most significant first, no leading zeros
/// (a single zero for `n == 0`).
pub open spec fn decimal_digits(n: nat) -> Seq<char>
    decreases n,
{
    if n < 10 {
        seq![digit_char(n)]
    } else {
        decimal_digits(n / 10).push(digit_char(n % 10))
    }
}

/// Append the character of one decimal digit.
fn push_digit(s: &mut String, d: u16)
    requires
        d < 10,
    ensures
        final(s)@ == old(s)@.push(digit_char(d as nat)),
{
    let ghost pre = s@;
    let p: &str = match d {
        0 => "0",
        1 => "1",
        2 => "2",
        3 => "3",
        4 => "4",
        5 => "5",
        6 => "6",
        7 => "7",
        8 => "8",
        _ => "9",
    };
    proof {
        reveal_strlit("0");
        reveal_strlit("1");
        reveal_strlit("2");
        reveal_strlit("3");
        reveal_strlit("4");
        reveal_strlit("5");
        reveal_strlit("6");
        reveal_strlit("7");
        reveal_strlit("8");
        reveal_strlit("9");
        assert(p@ =~= seq![digit_char(d as nat)]);
    }
    s.append(p);
    proof {
        assert(s@ =~= pre.push(digit_char(d as nat)));
    }
}

/// Append the decimal digits of `n`.
fn push_decimal(s: &mut String, n: u16)
    ensures
        final(s)@ == old(s)@ + decimal_digits(n as nat),
    decreases n,
{
    let ghost pre = s@;
    if n >= 10 {
        push_decimal(s, n / 10);
    }
    push_digit(s, n % 10);
    proof {
        if n >= 10 {
            assert(s@ =~= pre + decimal_digits(n as nat));
        } else {
            assert(s@ =~= pre + decimal_digits(n as nat));
        }
    }
}

/// The target that a forwarded request is rewritten to: the tenant's loopback
/// origin followed by the request's path and, when present, its query after a
/// `?` — path and query are preserved verbatim.
pub fn upstream_target(port: WorkerPort, path: &str, query: Option<&str>) -> (s: String)
    ensures
        s@ == "http://127.0.0.1:"@ + decimal_digits(port.0 as nat) + path@ + (match query {
            Some(q) => seq!['?'] + q@,
            None => Seq::<char>::empty(),
        }),
{
    let ghost expected = "http://127.0.0.1:"@ + decimal_digits(port.0 as nat) + path@ + (
    match query {
        Some(q) => seq!['?'] + q@,
        None => Seq::<char>::empty(),
    });
    let mut s = String::from_str("http://127.0.0.1:");
    push_decimal(&mut s, port.0);
    s.append(path);
    match query {
        Some(q) => {
            s.append("?");
            proof {
                reveal_strlit("?");
                assert("?"@ =~= seq!['?']);
            }
            s.append(q);
        },
        None => {},
    }
    proof {
        assert(s@ =~= expected);
    }
    s
}

} // verus!
