//! The picker's single-instance lock file: where it lives, and which
//! process it names.
use vstd::prelude::*;
use crate::ipc::{join_path, path_join};
use crate::preview::{decimal, push_decimal};
use crate::text::{chars_of, string_of, trim, trimmed};

verus! {

/// The lock file: `<runtime dir>/rcopy/rcopy-picker.lock`, or without a
/// runtime dir `<temp dir>/rcopy-<uid>/rcopy-picker.lock`, with `unknown`
/// for a missing uid.
pub open spec fn lock_file(runtime_dir: Option<Seq<char>>, temp_dir: Seq<char>, uid: Option<Seq<char>>) -> Seq<
    char,
> {
    match runtime_dir {
        Some(d) => path_join(d, "rcopy/rcopy-picker.lock"@),
        None => {
            let user = match uid {
                Some(u) => u,
                None => "unknown"@,
            };
            path_join(temp_dir, "rcopy-"@ + user + "/rcopy-picker.lock"@)
        },
    }
}

/// The lock file for a runtime dir, or for a temp dir and the `UID`
/// variable; see [`lock_file`].
pub fn lock_path(runtime_dir: Option<&str>, temp_dir: &str, uid: Option<&str>) -> (p: String)
    ensures
        p@ == lock_file(
            match runtime_dir {
                Some(d) => Some(d@),
                None => None,
            },
            temp_dir@,
            match uid {
                Some(u) => Some(u@),
                None => None,
            },
        ),
{
    match runtime_dir {
        Some(d) => join_path(d, "rcopy/rcopy-picker.lock"),
        None => {
            let mut name = String::from_str("rcopy-");
            match uid {
                Some(u) => name.append(u),
                None => name.append("unknown"),
            }
            name.append("/rcopy-picker.lock");
            join_path(temp_dir, name.as_str())
        },
    }
}

/// `c` is an ASCII digit.
pub open spec fn is_digit(c: char) -> bool {
    '0' <= c <= '9'
}

/// The number the ASCII digits `s` spell in base 10.
pub open spec fn digits_value(s: Seq<char>) -> nat
    decreases s.len(),
{
    if s.len() == 0 {
        0
    } else {
        digits_value(s.drop_last()) * 10 + ((s.last() as int) - ('0' as int)) as nat
    }
}

/// `s` without a leading `+`.
pub open spec fn unsigned_digits(s: Seq<char>) -> Seq<char> {
    if s.len() > 0 && s[0] == '+' {
        s.drop_first()
    } else {
        s
    }
}

/// What `str::parse::<u32>` gives: an optional `+` followed by one or more
/// ASCII digits whose value fits in a `u32`; anything else is no number.
pub open spec fn parsed_u32(s: Seq<char>) -> Option<u32> {
    let digits = unsigned_digits(s);
    if digits.len() > 0 && (forall|i: int| 0 <= i < digits.len() ==> is_digit(#[trigger] digits[i]))
        && digits_value(digits) <= u32::MAX {
        Some(digits_value(digits) as u32)
    } else {
        None
    }
}

proof fn lemma_digits_value_grows(s: Seq<char>, k: int)
    requires
        0 <= k <= s.len(),
        forall|i: int| 0 <= i < s.len() ==> is_digit(#[trigger] s[i]),
    ensures
        digits_value(s.take(k)) <= digits_value(s),
    decreases s.len() - k,
{
    if k < s.len() {
        let t = s.take(k + 1);
        assert(t.drop_last() =~= s.take(k));
        assert(t.last() == s[k]);
        lemma_digits_value_grows(s, k + 1);
    } else {
        assert(s.take(k) =~= s);
    }
}

/// The number `s` holds, as `str::parse::<u32>` reads it; see [`parsed_u32`].
pub fn parse_u32(s: &str) -> (r: Option<u32>)
    ensures
        r == parsed_u32(s@),
{
    let cs = chars_of(s);
    let start: usize = if cs.len() > 0 && cs[0] == '+' {
        1
    } else {
        0
    };
    let ghost digits = unsigned_digits(s@);
    proof {
        assert(digits =~= cs@.skip(start as int));
    }
    if start >= cs.len() {
        return None;
    }
    let mut value: u64 = 0;
    let mut i: usize = start;
    while i < cs.len()
        invariant
            start <= i <= cs.len(),
            cs@ == s@,
            digits =~= cs@.skip(start as int),
            digits == unsigned_digits(s@),
            digits.len() > 0,
            value == digits_value(digits.take(i - start)),
            value <= u32::MAX,
            forall|k: int| 0 <= k < i - start ==> is_digit(#[trigger] digits[k]),
        decreases cs.len() - i,
    {
        let c = cs[i];
        let ghost j = i - start;
        if !('0' <= c && c <= '9') {
            proof {
                assert(digits[j] == c);
                assert(!is_digit(digits[j]));
                assert(parsed_u32(s@) is None);
            }
            return None;
        }
        let d: u64 = (c as u32 - '0' as u32) as u64;
        let next: u64 = value * 10 + d;
        proof {
            let t = digits.take(j + 1);
            assert(t.drop_last() =~= digits.take(j));
            assert(t.last() == c);
            assert(digits[j] == c);
        }
        if next > 0xffff_ffffu64 {
            proof {
                assert forall|k: int| 0 <= k < j + 1 implies is_digit(
                    #[trigger] digits.take(j + 1)[k],
                ) by {
                    assert(digits.take(j + 1)[k] == digits[k]);
                }
                if forall|k: int| 0 <= k < digits.len() ==> is_digit(#[trigger] digits[k]) {
                    lemma_digits_value_grows(digits, j + 1);
                    assert(digits_value(digits) > u32::MAX);
                }
                assert(parsed_u32(s@) is None);
            }
            return None;
        }
        value = next;
        i = i + 1;
    }
    proof {
        assert(digits.take(i - start) =~= digits);
    }
    Some(value as u32)
}

/// The process id a lock file holds: its trimmed contents read as a `u32`.
pub fn lock_owner_pid(contents: &str) -> (r: Option<u32>)
    ensures
        r == parsed_u32(trim(contents@)),
{
    let cs = chars_of(contents);
    let t = trimmed(&cs);
    let text = string_of(&t);
    parse_u32(text.as_str())
}

/// The `/proc` entry of the process `pid`.
pub fn process_entry(pid: u32) -> (p: String)
    ensures
        p@ == "/proc/"@ + decimal(pid as nat),
{
    let mut cs = chars_of("/proc/");
    push_decimal(&mut cs, pid as u64);
    string_of(&cs)
}

} // verus!
