//! Resolving an opaque device identifier to a device selector.
//!
//! An identifier selects a concrete output device only when it is the fixed
//! prefix `windows_output_` followed by a non-negative integer that fits the
//! machine word. Anything else — no identifier, a wrong prefix, a non-digit
//! suffix, an empty suffix, or a number too large — silently degrades to the
//! system default device. Resolution never fails and performs no I/O; device
//! existence is checked later, at session open.

use vstd::prelude::*;
use vstd::string::StrSliceExecFns;

verus! {

/// The recognized identifier prefix, `windows_output_`.
pub open spec fn device_id_prefix() -> Seq<char> {
    seq!['w', 'i', 'n', 'd', 'o', 'w', 's', '_', 'o', 'u', 't', 'p', 'u', 't', '_']
}

/// Whether `c` is an ASCII decimal digit.
pub open spec fn is_decimal_digit(c: char) -> bool {
    48 <= c as u32 <= 57
}

/// The numeric value of a decimal digit (0 for any other character).
pub open spec fn digit_of(c: char) -> nat {
    if is_decimal_digit(c) {
        (c as u32 - 48) as nat
    } else {
        0
    }
}

/// The number written by a run of decimal digits, most significant first.
pub open spec fn digits_value(s: Seq<char>) -> nat
    decreases s.len(),
{
    if s.len() == 0 {
        0
    } else {
        digits_value(s.drop_last()) * 10 + digit_of(s.last())
    }
}

/// Whether every character of `s` is a decimal digit.
pub open spec fn all_digits(s: Seq<char>) -> bool {
    forall|i: int| 0 <= i < s.len() ==> is_decimal_digit(#[trigger] s[i])
}

/// The ordinal an identifier selects: the digits after the recognized
/// prefix, provided there is at least one, they are all decimal digits, and
/// their value fits in `usize`. Every other identifier selects nothing.
pub open spec fn spec_device_index(id: Seq<char>) -> Option<usize> {
    let p = device_id_prefix();
    let rest = id.skip(p.len() as int);
    if id.len() > p.len() && id.take(p.len() as int) == p && all_digits(rest)
        && digits_value(rest) <= usize::MAX {
        Some(digits_value(rest) as usize)
    } else {
        None
    }
}

/// Either the system default output device, or the output device at a
/// concrete ordinal.
#[derive(Clone, Copy, Debug, PartialEq, Eq, Structural)]
pub enum DeviceSelector {
    SystemDefault,
    OutputIndex(usize),
}

/// The consumer-facing entry point: holds the resolved device choice until
/// a capture session is started from it.
pub struct SpeakerInput {
    pub device_index: Option<usize>,
}

impl SpeakerInput {
    /// Resolves an optional opaque identifier. A well-formed identifier
    /// (recognized prefix, digit suffix that fits the machine word) yields
    /// that ordinal; an absent or malformed one yields the default-device
    /// choice. Resolution never fails.
    pub fn new(device_id: Option<String>) -> (r: SpeakerInput)
        ensures
            match device_id {
                Some(id) => r.device_index == spec_device_index(id@),
                None => r.device_index is None,
            },
    {
        match device_id {
            Some(id) => SpeakerInput { device_index: parse_device_index(id.as_str()) },
            None => SpeakerInput { device_index: None },
        }
    }

    /// The selector this input resolves to: a concrete ordinal where one was
    /// recognized, the system default otherwise.
    pub fn selector(&self) -> (s: DeviceSelector)
        ensures
            match self.device_index {
                Some(i) => s == DeviceSelector::OutputIndex(i),
                None => s == DeviceSelector::SystemDefault,
            },
    {
        match self.device_index {
            Some(i) => DeviceSelector::OutputIndex(i),
            None => DeviceSelector::SystemDefault,
        }
    }
}

/// The digits a longer prefix of `s` writes are worth at least as much as
/// those of a shorter one: appending digits never shrinks the value.
proof fn lemma_digits_value_take_le(s: Seq<char>, k: int)
    requires
        0 <= k <= s.len(),
    ensures
        digits_value(s.take(k)) <= digits_value(s),
    decreases s.len() - k,
{
    if k == s.len() {
        assert(s.take(k) =~= s);
    } else {
        assert(s.take(k + 1).drop_last() =~= s.take(k));
        assert(digits_value(s.take(k + 1)) == digits_value(s.take(k)) * 10 + digit_of(
            s.take(k + 1).last(),
        ));
        lemma_digits_value_take_le(s, k + 1);
    }
}

/// The executable prefix, with the same characters as [`device_id_prefix`].
fn prefix_chars() -> (p: Vec<char>)
    ensures
        p@ == device_id_prefix(),
{
    let mut p: Vec<char> = Vec::new();
    p.push('w');
    p.push('i');
    p.push('n');
    p.push('d');
    p.push('o');
    p.push('w');
    p.push('s');
    p.push('_');
    p.push('o');
    p.push('u');
    p.push('t');
    p.push('p');
    p.push('u');
    p.push('t');
    p.push('_');
    assert(p@ =~= device_id_prefix());
    p
}

/// Parses an identifier into the ordinal it selects, exactly as
/// [`spec_device_index`] describes: `None` for a wrong or missing prefix, an
/// empty or non-digit suffix, or a value that does not fit in `usize`.
pub fn parse_device_index(id: &str) -> (r: Option<usize>)
    ensures
        r == spec_device_index(id@),
{
    let n = id.unicode_len();
    let p = prefix_chars();
    let plen = p.len();
    assert(plen == device_id_prefix().len());
    if n <= plen {
        return None;
    }
    let mut i: usize = 0;
    while i < plen
        invariant
            0 <= i <= plen,
            plen == device_id_prefix().len(),
            n == id@.len(),
            n > plen,
            p@ == device_id_prefix(),
            forall|j: int| 0 <= j < i ==> id@[j] == device_id_prefix()[j],
        decreases plen - i,
    {
        let c = id.get_char(i);
        if c != p[i] {
            proof {
                assert(id@.take(plen as int)[i as int] != device_id_prefix()[i as int]);
            }
            return None;
        }
        i = i + 1;
    }
    assert(id@.take(plen as int) =~= device_id_prefix());
    let ghost rest: Seq<char> = id@.skip(plen as int);
    let mut acc: usize = 0;
    let mut i: usize = plen;
    while i < n
        invariant
            plen <= i <= n,
            plen == device_id_prefix().len(),
            n == id@.len(),
            n > plen,
            rest == id@.skip(plen as int),
            forall|j: int| 0 <= j < i - plen ==> is_decimal_digit(#[trigger] rest[j]),
            acc == digits_value(rest.take(i - plen)),
        decreases n - i,
    {
        let c = id.get_char(i);
        let cv = c as u32;
        if cv < 48 || cv > 57 {
            proof {
                assert(!is_decimal_digit(rest[i - plen]));
            }
            return None;
        }
        let d: usize = (cv - 48) as usize;
        let ghost j: int = i - plen;
        proof {
            assert(rest.take(j + 1).drop_last() =~= rest.take(j));
            assert(rest.take(j + 1).last() == rest[j]);
            assert(digits_value(rest.take(j + 1)) == acc * 10 + d);
        }
        if acc > (usize::MAX - d) / 10 {
            proof {
                let m = usize::MAX as int;
                assert(10 * ((m - d) / 10) > m - d - 10);
                assert(acc * 10 >= ((m - d) / 10 + 1) * 10);
                assert(acc * 10 + d > m);
                lemma_digits_value_take_le(rest, j + 1);
                assert(digits_value(rest) > usize::MAX);
            }
            return None;
        }
        proof {
            let m = usize::MAX as int;
            assert(10 * ((m - d) / 10) <= m - d);
            assert(acc * 10 <= 10 * ((m - d) / 10));
        }
        acc = acc * 10 + d;
        i = i + 1;
    }
    proof {
        assert(rest.take(n - plen) =~= rest);
        assert(all_digits(rest));
    }
    Some(acc)
}

} // verus!
