//! Fixed configuration of the supervised service and the text built from it.
use vstd::prelude::*;
use vstd::string::*;

verus! {

/// Loopback port on which the supervised service listens.
pub const SIDECAR_PORT: u16 = 14200;

/// Logical name under which the service's executable is resolved.
pub const SIDECAR_NAME: &'static str = "anonymize-api";

/// Bound, in seconds, on the wait for the service to become ready.
pub const HEALTH_CHECK_TIMEOUT_SECS: u64 = 30;

/// Pause, in milliseconds, between two readiness probes.
pub const HEALTH_CHECK_INTERVAL_MS: u64 = 500;

/// The character of a decimal digit.
pub open spec fn digit_char(d: nat) -> char {
    if d == 0 {
        '0'
    } else if d == 1 {
        '1'
    } else if d == 2 {
        '2'
    } else if d == 3 {
        '3'
    } else if d == 4 {
        '4'
    } else if d == 5 {
        '5'
    } else if d == 6 {
        '6'
    } else if d == 7 {
        '7'
    } else if d == 8 {
        '8'
    } else {
        '9'
    }
}

/// Decimal notation of `n`, most significant digit first, without leading zeros.
pub open spec fn decimal(n: nat) -> Seq<char>
    decreases n,
{
    if n < 10 {
        seq![digit_char(n)]
    } else {
        decimal(n / 10).push(digit_char(n % 10))
    }
}

/// `127.0.0.1:<port>`: where the service is reached.
pub open spec fn loopback_authority() -> Seq<char> {
    "127.0.0.1:"@ + decimal(SIDECAR_PORT as nat)
}

/// The base URL of the service's API.
pub open spec fn backend_url() -> Seq<char> {
    "http://"@ + loopback_authority()
}

fn digit_text(d: u64) -> (r: &'static str)
    requires
        d < 10,
    ensures
        r@ == seq![digit_char(d as nat)],
{
    proof {
        reveal_strlit("0");
        reveal_strlit("1");
        reveal_strlit("2");
        reveal_strlit("3");
        reveal_strlit("4");
        reveal_strlit("5");
        reveal_strlit("6");
        reveal_strlit("7");
        reveal_strlit("8");
        reveal_strlit("9");
    }
    let r = if d == 0 {
        "0"
    } else if d == 1 {
        "1"
    } else if d == 2 {
        "2"
    } else if d == 3 {
        "3"
    } else if d == 4 {
        "4"
    } else if d == 5 {
        "5"
    } else if d == 6 {
        "6"
    } else if d == 7 {
        "7"
    } else if d == 8 {
        "8"
    } else {
        "9"
    };
    assert(r@ =~= seq![digit_char(d as nat)]);
    r
}

/// Appends the decimal notation of `n` to `out`.
pub fn push_decimal(out: &mut String, n: u64)
    ensures
        final(out)@ == old(out)@ + decimal(n as nat),
    decreases n,
{
    if n >= 10 {
        push_decimal(out, n / 10);
    }
    out.append(digit_text(n % 10));
    proof {
        if n >= 10 {
            assert(old(out)@ + decimal((n / 10) as nat) + seq![digit_char((n % 10) as nat)]
                =~= old(out)@ + decimal(n as nat));
        } else {
            assert(old(out)@ + seq![digit_char((n % 10) as nat)] =~= old(out)@ + decimal(
                n as nat,
            ));
        }
    }
}

/// The loopback `host:port` of the service.
pub fn loopback_address() -> (r: String)
    ensures
        r@ == loopback_authority(),
{
    let mut r = String::from_str("127.0.0.1:");
    push_decimal(&mut r, SIDECAR_PORT as u64);
    r
}

} // verus!
