use vstd::prelude::*;
use vstd::string::StrSliceExecFns;

use crate::error::Error;

verus! {

/// A transport address for a socket endpoint: a host name and a port,
/// written `host:port` on the wire.
#[derive(Debug, Clone, PartialEq, Eq)]
pub struct Address {
    pub host: String,
    pub port: u16,
}

/// Whether this character is a decimal digit.
pub open spec fn is_digit(c: char) -> bool {
    48 <= c as u32 <= 57
}

/// The value of a decimal digit; zero for anything else.
pub open spec fn digit_val(c: char) -> nat {
    if is_digit(c) {
        (c as u32 - 48) as nat
    } else {
        0
    }
}

/// Whether every character of the sequence is a decimal digit.
pub open spec fn all_digits(s: Seq<char>) -> bool {
    forall|i: int| 0 <= i < s.len() ==> is_digit(s[i])
}

/// The number a sequence of decimal digits denotes.
pub open spec fn digits_val(s: Seq<char>) -> nat
    decreases s.len(),
{
    if s.len() == 0 {
        0
    } else {
        digits_val(s.drop_last()) * 10 + digit_val(s.last())
    }
}

/// A digit string denotes at least what any of its prefixes denotes.
pub proof fn lemma_digits_val_monotone(s: Seq<char>, i: int)
    requires
        0 <= i <= s.len(),
    ensures
        digits_val(s.take(i)) <= digits_val(s),
    decreases s.len() - i,
{
    if i < s.len() {
        lemma_digits_val_monotone(s, i + 1);
        assert(s.take(i + 1).drop_last() =~= s.take(i));
        assert(s.take(i + 1).last() == s[i]);
    } else {
        assert(s.take(i) =~= s);
    }
}

/// Whether position `k` holds the last colon of the sequence.
pub open spec fn is_last_colon(s: Seq<char>, k: int) -> bool {
    &&& 0 <= k < s.len()
    &&& s[k] == ':'
    &&& forall|m: int| k < m < s.len() ==> s[m] != ':'
}

/// The position of the last colon.
pub open spec fn last_colon(s: Seq<char>) -> int {
    choose|k: int| is_last_colon(s, k)
}

/// Whether the sequence is a well-formed `host:port` address: a non-empty
/// host, then the last colon, then a non-empty run of decimal digits
/// denoting at most 65535.
pub open spec fn valid_address(s: Seq<char>) -> bool {
    exists|k: int|
        {
            &&& is_last_colon(s, k)
            &&& k >= 1
            &&& k + 1 < s.len()
            &&& all_digits(s.skip(k + 1))
            &&& digits_val(s.skip(k + 1)) <= 65535
        }
}

/// There is at most one last colon.
pub proof fn lemma_last_colon_unique(s: Seq<char>, k1: int, k2: int)
    requires
        is_last_colon(s, k1),
        is_last_colon(s, k2),
    ensures
        k1 == k2,
{
    if k1 < k2 {
        assert(s[k2] != ':');
    } else if k2 < k1 {
        assert(s[k1] != ':');
    }
}

/// Parses a `host:port` address. Succeeds, with the host and the port the
/// string spells, exactly when the string is a well-formed address; fails
/// with `ConnectionError` on anything else.
#[verifier::loop_isolation(false)]
pub fn parse_address(s: &str) -> (r: Result<Address, Error>)
    ensures
        match r {
            Ok(a) => valid_address(s@) && a.host@ == s@.take(last_colon(s@)) && a.port as nat
                == digits_val(s@.skip(last_colon(s@) + 1)),
            Err(e) => !valid_address(s@) && e == Error::ConnectionError,
        },
{
    let n = s.unicode_len();
    // find the last colon
    let mut i = n;
    let mut colon: usize = 0;
    let mut found = false;
    while i > 0 && !found
        invariant
            i <= n,
            n == s@.len(),
            !found ==> forall|m: int| i <= m < n ==> s@[m] != ':',
            found ==> i < n && is_last_colon(s@, i as int) && colon == i,
        decreases i + (if found {
            0int
        } else {
            1int
        }),
    {
        i -= 1;
        if s.get_char(i) == ':' {
            colon = i;
            found = true;
        }
    }
    if !found {
        proof {
            assert forall|k: int| !is_last_colon(s@, k) by {
                if 0 <= k < n {
                    assert(s@[k] != ':');
                }
            }
        }
        return Err(Error::ConnectionError);
    }
    let k = colon;
    proof {
        assert forall|k2: int| is_last_colon(s@, k2) implies k2 == k as int by {
            lemma_last_colon_unique(s@, k as int, k2);
        }
    }
    if k == 0 || k + 1 >= n {
        return Err(Error::ConnectionError);
    }
    // parse the digits of the port
    let ghost port_part = s@.skip(k + 1);
    let mut acc: u32 = 0;
    let mut j = k + 1;
    while j < n
        invariant
            k + 1 <= j <= n,
            n == s@.len(),
            k < n,
            acc <= 65535,
            port_part == s@.skip(k + 1),
            acc as nat == digits_val(port_part.take(j - k - 1)),
            all_digits(port_part.take(j - k - 1)),
        decreases n - j,
    {
        let c = s.get_char(j);
        if c < '0' || c > '9' {
            proof {
                assert(port_part[j - k - 1] == s@[j as int]);
                assert(!is_digit(s@[j as int]));
            }
            return Err(Error::ConnectionError);
        }
        let d = (c as u32) - 48;
        proof {
            assert(port_part.take(j - k) =~= port_part.take(j - k - 1).push(s@[j as int]));
            assert(port_part.take(j - k).drop_last() =~= port_part.take(j - k - 1));
        }
        if acc > 6553 || (acc == 6553 && d > 5) {
            proof {
                assert(digits_val(port_part.take(j - k)) > 65535);
                lemma_digits_val_monotone(port_part, j - k);
            }
            return Err(Error::ConnectionError);
        }
        acc = acc * 10 + d;
        j += 1;
    }
    proof {
        assert(port_part.take(n - k - 1) =~= port_part);
        assert(valid_address(s@)) by {
            assert(is_last_colon(s@, k as int) && k >= 1 && k + 1 < n && all_digits(port_part)
                && digits_val(port_part) <= 65535);
        }
        assert(last_colon(s@) == k as int) by {
            lemma_last_colon_unique(s@, k as int, last_colon(s@));
        }
    }
    let host = s.substring_char(0, k).to_owned();
    Ok(Address { host, port: acc as u16 })
}

} // verus!
