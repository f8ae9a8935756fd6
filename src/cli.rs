//! The settings that the client starts with.
use vstd::prelude::*;

use crate::tui::logs::LogLevel;

verus! {

/// The address that the login screen offers first.
pub const DEFAULT_ADDRESS: &'static str = "0.0.0.0";

/// The port of a chatger server.
pub const DEFAULT_PORT: u16 = 4348;

/// Start-up settings: where to connect, as whom, how much to log (`None` logs nothing), and
/// whether to log in at once and over TLS.
#[derive(Debug, Clone)]
pub struct AppConfig {
    pub address: String,
    pub port: u16,
    pub username: String,
    pub password: String,
    pub auto_login: bool,
    pub loglevel: Option<LogLevel>,
    pub enable_tls: bool,
}

/// The value of a run of decimal digits, or `None` where a character is not a digit.
pub open spec fn decimal_value(s: Seq<char>) -> Option<nat>
    decreases s.len(),
{
    if s.len() == 0 {
        Some(0)
    } else {
        match decimal_value(s.drop_last()) {
            None => None,
            Some(v) => if '0' <= s.last() && s.last() <= '9' {
                Some((v * 10 + (s.last() as nat - '0' as nat)) as nat)
            } else {
                None
            },
        }
    }
}

/// The port that the text after the colon of an address names: one to five digits whose
/// value fits a port.
pub open spec fn port_value(s: Seq<char>) -> Option<u16> {
    if 1 <= s.len() <= 5 && (decimal_value(s) matches Some(v) && v <= 0xFFFF) {
        Some(decimal_value(s)->Some_0 as u16)
    } else {
        None
    }
}

/// Reads a port number written in decimal.
pub fn parse_port(s: &Vec<char>) -> (r: Option<u16>)
    ensures
        r == port_value(s@),
{
    if s.len() == 0 || s.len() > 5 {
        return None;
    }
    let mut v: u32 = 0;
    let mut i: usize = 0;
    while i < s.len()
        invariant
            1 <= s@.len() <= 5,
            i <= s@.len(),
            decimal_value(s@.take(i as int)) == Some(v as nat),
            v < pow10(i as nat),
        decreases s@.len() - i,
    {
        let c = s[i];
        proof {
            assert(s@.take(i + 1).drop_last() =~= s@.take(i as int));
            assert(s@.take(i + 1).last() == c);
        }
        if !('0' <= c && c <= '9') {
            proof {
                lemma_no_value_past(s@, (i + 1) as nat);
                assert(s@.take(s@.len() as int) =~= s@);
            }
            return None;
        }
        proof {
            lemma_pow10_small(i as nat);
            assert((v as nat) * 10 + 9 < pow10((i + 1) as nat)) by (nonlinear_arith)
                requires
                    (v as nat) < pow10(i as nat),
                    pow10((i + 1) as nat) == 10 * pow10(i as nat),
            ;
        }
        v = v * 10 + (c as u32 - '0' as u32);
        i = i + 1;
    }
    assert(s@.take(s@.len() as int) =~= s@);
    if v > 0xFFFF {
        None
    } else {
        Some(v as u16)
    }
}

/// `10^n`.
pub open spec fn pow10(n: nat) -> nat
    decreases n,
{
    if n == 0 {
        1
    } else {
        10 * pow10((n - 1) as nat)
    }
}

proof fn lemma_pow10_small(n: nat)
    requires
        n <= 4,
    ensures
        pow10(n + 1) == 10 * pow10(n),
        pow10(n + 1) <= 100000,
{
    reveal_with_fuel(pow10, 6);
}

/// A prefix that holds a non-digit has no value, and neither has any longer prefix.
proof fn lemma_no_value_past(s: Seq<char>, i: nat)
    requires
        1 <= i <= s.len(),
        decimal_value(s.take(i as int)) is None,
    ensures
        decimal_value(s.take(s.len() as int)) is None,
    decreases s.len() - i,
{
    if i < s.len() {
        assert(s.take(i + 1 as int).drop_last() =~= s.take(i as int));
        lemma_no_value_past(s, i + 1);
    }
}

/// The parts of an address as typed: the host before the first colon, and the text between
/// that colon and the next one, where there is a colon.
pub open spec fn address_parts(s: Seq<char>) -> (Seq<char>, Option<Seq<char>>) {
    if exists|i: int| 0 <= i < s.len() && s[i] == ':' {
        let i = choose|i: int| 0 <= i < s.len() && s[i] == ':' && forall|j: int| 0 <= j < i ==> s[j] != ':';
        let rest = s.skip(i + 1);
        let port = if exists|j: int| 0 <= j < rest.len() && rest[j] == ':' {
            rest.take(choose|j: int| 0 <= j < rest.len() && rest[j] == ':' && forall|k: int| 0 <= k < j ==> rest[k] != ':')
        } else {
            rest
        };
        (s.take(i), Some(port))
    } else {
        (s, None)
    }
}

/// The first colon at or after `from`, or the length of `s`.
fn find_colon(s: &Vec<char>, from: usize) -> (r: usize)
    requires
        from <= s@.len(),
    ensures
        from <= r <= s@.len(),
        r < s@.len() ==> s@[r as int] == ':',
        forall|j: int| from <= j < r ==> s@[j] != ':',
{
    let mut i = from;
    while i < s.len() && s[i] != ':'
        invariant
            from <= i <= s@.len(),
            forall|j: int| from <= j < i ==> s@[j] != ':',
        decreases s@.len() - i,
    {
        i = i + 1;
    }
    i
}

fn copy_range(s: &Vec<char>, from: usize, to: usize) -> (r: Vec<char>)
    requires
        from <= to <= s@.len(),
    ensures
        r@ == s@.subrange(from as int, to as int),
{
    let mut r: Vec<char> = Vec::new();
    let mut i = from;
    while i < to
        invariant
            from <= i <= to <= s@.len(),
            r@ == s@.subrange(from as int, i as int),
        decreases to - i,
    {
        r.push(s[i]);
        i = i + 1;
        assert(r@ =~= s@.subrange(from as int, i as int));
    }
    r
}

/// Splits an address as typed into its host and the text of its port, if it has one.
pub fn split_address(s: &Vec<char>) -> (r: (Vec<char>, Option<Vec<char>>))
    ensures
        r.0@ == address_parts(s@).0,
        match (r.1, address_parts(s@).1) {
            (Some(p), Some(q)) => p@ == q,
            (None, None) => true,
            _ => false,
        },
{
    let i = find_colon(s, 0);
    if i == s.len() {
        proof {
            assert(s@.take(s@.len() as int) =~= s@);
        }
        return (copy_range(s, 0, s.len()), None);
    }
    let j = find_colon(s, i + 1);
    let ghost rest = s@.skip(i + 1);
    proof {
        assert(forall|k: int| 0 <= k < i ==> s@[k] != ':');
        let c = choose|c: int| 0 <= c < s@.len() && s@[c] == ':' && forall|k: int| 0 <= k < c ==> s@[k] != ':';
        if c < i {
        } else if c > i {
            assert(s@[i as int] == ':');
        }
        assert(c == i);
        if j < s.len() {
            let d = choose|d: int|
                0 <= d < rest.len() && rest[d] == ':' && forall|k: int| 0 <= k < d ==> rest[k] != ':';
            assert(rest[j - i - 1] == ':');
            if d < j - i - 1 {
                assert(s@[d + i + 1] == ':');
            } else if d > j - i - 1 {
                assert(rest[j - i - 1] == ':');
            }
            assert(rest.take(d) =~= s@.subrange(i + 1, j as int));
        } else {
            assert forall|k: int| 0 <= k < rest.len() implies rest[k] != ':' by {
                assert(rest[k] == s@[k + i + 1]);
            }
            assert(rest =~= s@.subrange(i + 1, j as int));
        }
        assert(s@.take(i as int) =~= s@.subrange(0, i as int));
    }
    (copy_range(s, 0, i), Some(copy_range(s, i + 1, j)))
}

} // verus!
