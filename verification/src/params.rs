//! Typed conversion of raw query-string values: the capability trait that
//! the parameter extractors are generic over, and its implementations for
//! the common scalar types, with decimal parsing done and proved here.

use vstd::prelude::*;
use vstd::string::StrSliceExecFns;

verus! {

// ---------------------------------------------------------------------------
// Plain string equality
// ---------------------------------------------------------------------------

/// Character-for-character equality of two string slices.
pub fn str_eq(a: &str, b: &str) -> (r: bool)
    ensures
        r == (a@ == b@),
{
    let an = a.unicode_len();
    let bn = b.unicode_len();
    if an != bn {
        return false;
    }
    let mut i: usize = 0;
    while i < an
        invariant
            i <= an,
            an == a@.len(),
            an == bn,
            bn == b@.len(),
            forall|j: int| 0 <= j < i ==> a@[j] == b@[j],
        decreases an - i,
    {
        if a.get_char(i) != b.get_char(i) {
            return false;
        }
        i = i + 1;
    }
    assert(a@ =~= b@);
    true
}

// ---------------------------------------------------------------------------
// Decimal digit strings
// ---------------------------------------------------------------------------

/// Is `c` a decimal digit?
pub open spec fn is_digit(c: char) -> bool {
    '0' <= c && c <= '9'
}

/// The numeric value of a decimal digit.
pub open spec fn digit_val(c: char) -> nat {
    ((c as u32) - ('0' as u32)) as nat
}

/// Is `s` a non-empty string of decimal digits?
pub open spec fn is_dec_digits(s: Seq<char>) -> bool {
    s.len() > 0 && forall|i: int| 0 <= i < s.len() ==> is_digit(s[i])
}

/// The number that a digit string denotes, most significant digit first.
pub open spec fn dec_val(s: Seq<char>) -> nat
    decreases s.len(),
{
    if s.len() == 0 {
        0
    } else {
        dec_val(s.drop_last()) * 10 + digit_val(s.last())
    }
}

/// Appending digits never decreases the denoted number.
proof fn lemma_dec_val_extend(t: Seq<char>, k: int)
    requires
        0 <= k <= t.len(),
    ensures
        dec_val(t) >= dec_val(t.take(k)),
    decreases t.len() - k,
{
    if k < t.len() {
        assert(t.take(k + 1).drop_last() =~= t.take(k));
        assert(dec_val(t.take(k + 1)) == dec_val(t.take(k)) * 10 + digit_val(t.take(k + 1).last()));
        lemma_dec_val_extend(t, k + 1);
    } else {
        assert(t.take(k) =~= t);
    }
}

/// What parsing the digit part of an unsigned number yields: the denoted
/// value when `t` is all digits and the value fits in a `u64`.
pub open spec fn parse_digits_spec(t: Seq<char>) -> Option<u64> {
    if is_dec_digits(t) && dec_val(t) <= u64::MAX {
        Some(dec_val(t) as u64)
    } else {
        None
    }
}

/// Parse the digits of `s` from position `from` to the end, with overflow
/// detected against `u64`.
fn parse_u64_digits(s: &str, from: usize) -> (r: Option<u64>)
    requires
        from <= s@.len(),
    ensures
        r == parse_digits_spec(s@.skip(from as int)),
{
    let ghost t = s@.skip(from as int);
    let n = s.unicode_len();
    if from == n {
        return None;
    }
    let mut acc: u64 = 0;
    let mut i: usize = from;
    proof {
        assert(t.take(0) =~= s@.subrange(from as int, from as int));
    }
    while i < n
        invariant
            from <= i <= n,
            n == s@.len(),
            t == s@.skip(from as int),
            forall|j: int| from <= j < i ==> is_digit(s@[j]),
            acc == dec_val(t.take(i - from)),
        decreases n - i,
    {
        let c = s.get_char(i);
        proof {
            assert(t[i - from] == s@[i as int]);
            assert(t.take(i - from + 1).drop_last() =~= t.take(i - from));
            assert(t.take(i - from + 1).last() == t[i - from]);
        }
        if c < '0' || c > '9' {
            assert(!is_dec_digits(t));
            return None;
        }
        let d: u64 = ((c as u8) - 48) as u64;
        assert(d == digit_val(c));
        let overflowed: bool = match acc.checked_mul(10) {
            Some(m) => m.checked_add(d).is_none(),
            None => true,
        };
        if overflowed {
            proof {
                assert(dec_val(t.take(i - from + 1)) > u64::MAX);
                if is_dec_digits(t) {
                    lemma_dec_val_extend(t, i - from + 1);
                }
            }
            return None;
        }
        acc = acc * 10 + d;
        i = i + 1;
    }
    proof {
        assert(t.take(n - from) =~= t);
        assert(is_dec_digits(t));
    }
    Some(acc)
}

// ---------------------------------------------------------------------------
// The conversion capability
// ---------------------------------------------------------------------------

/// A type that a raw query-string value can be converted to. The spec side
/// pins down exactly which strings convert and to what; the exec side
/// performs the conversion.
pub trait FromParam: Sized {
    /// Whether the text `s` converts to a value of this type.
    spec fn param_ok(s: Seq<char>) -> bool;

    /// The relation between the text `s` and the value it converts to.
    spec fn param_rel(s: Seq<char>, v: Self) -> bool;

    /// The name this type goes by in malformed-argument errors.
    spec fn dtype_name_spec() -> Seq<char>;

    /// Convert `s`, returning `None` exactly when `s` does not convert.
    fn from_param(s: &str) -> (r: Option<Self>)
        ensures
            r is Some <==> Self::param_ok(s@),
            r matches Some(v) ==> Self::param_rel(s@, v),
    ;

    /// The name this type goes by in malformed-argument errors.
    fn dtype_name() -> (r: String)
        ensures
            r@ == Self::dtype_name_spec(),
    ;
}

// ---------------------------------------------------------------------------
// Unsigned integers
// ---------------------------------------------------------------------------

/// The digit part of an unsigned numeral: a leading `+` is allowed.
pub open spec fn unsigned_digits_part(s: Seq<char>) -> Seq<char> {
    if s.len() > 0 && s[0] == '+' {
        s.drop_first()
    } else {
        s
    }
}

/// What parsing `s` as a `u64` yields: an optional `+`, then one or more
/// decimal digits denoting a value that fits.
pub open spec fn parse_u64_spec(s: Seq<char>) -> Option<u64> {
    let t = unsigned_digits_part(s);
    if is_dec_digits(t) && dec_val(t) <= u64::MAX {
        Some(dec_val(t) as u64)
    } else {
        None
    }
}

impl FromParam for u64 {
    open spec fn param_ok(s: Seq<char>) -> bool {
        parse_u64_spec(s) is Some
    }

    open spec fn param_rel(s: Seq<char>, v: Self) -> bool {
        parse_u64_spec(s) == Some(v)
    }

    open spec fn dtype_name_spec() -> Seq<char> {
        "u64"@
    }

    fn from_param(s: &str) -> (r: Option<Self>) {
        let start: usize = if s.unicode_len() > 0 && s.get_char(0) == '+' {
            1
        } else {
            0
        };
        proof {
            if start == 1 {
                assert(s@.skip(1) =~= s@.drop_first());
            } else {
                assert(s@.skip(0) =~= s@);
            }
        }
        parse_u64_digits(s, start)
    }

    fn dtype_name() -> (r: String) {
        "u64".to_owned()
    }
}

/// What parsing `s` as a `u32` yields.
pub open spec fn parse_u32_spec(s: Seq<char>) -> Option<u32> {
    let t = unsigned_digits_part(s);
    if is_dec_digits(t) && dec_val(t) <= u32::MAX {
        Some(dec_val(t) as u32)
    } else {
        None
    }
}

impl FromParam for u32 {
    open spec fn param_ok(s: Seq<char>) -> bool {
        parse_u32_spec(s) is Some
    }

    open spec fn param_rel(s: Seq<char>, v: Self) -> bool {
        parse_u32_spec(s) == Some(v)
    }

    open spec fn dtype_name_spec() -> Seq<char> {
        "u32"@
    }

    fn from_param(s: &str) -> (r: Option<Self>) {
        let start: usize = if s.unicode_len() > 0 && s.get_char(0) == '+' {
            1
        } else {
            0
        };
        proof {
            if start == 1 {
                assert(s@.skip(1) =~= s@.drop_first());
            } else {
                assert(s@.skip(0) =~= s@);
            }
        }
        match parse_u64_digits(s, start) {
            Some(v) => {
                if v <= u32::MAX as u64 {
                    Some(v as u32)
                } else {
                    None
                }
            },
            None => None,
        }
    }

    fn dtype_name() -> (r: String) {
        "u32".to_owned()
    }
}

// ---------------------------------------------------------------------------
// Signed integers
// ---------------------------------------------------------------------------

/// The digit part of a signed numeral: a leading `+` or `-` is allowed.
pub open spec fn signed_digits_part(s: Seq<char>) -> Seq<char> {
    if s.len() > 0 && (s[0] == '-' || s[0] == '+') {
        s.drop_first()
    } else {
        s
    }
}

/// The sign a signed numeral carries: -1 under a leading `-`, else 1.
pub open spec fn signed_sign(s: Seq<char>) -> int {
    if s.len() > 0 && s[0] == '-' {
        -1
    } else {
        1
    }
}

/// What parsing `s` as an `i64` yields: an optional sign, then one or more
/// decimal digits denoting a value in the `i64` range.
pub open spec fn parse_i64_spec(s: Seq<char>) -> Option<i64> {
    let t = signed_digits_part(s);
    let v = signed_sign(s) * dec_val(t);
    if is_dec_digits(t) && i64::MIN <= v <= i64::MAX {
        Some(v as i64)
    } else {
        None
    }
}

impl FromParam for i64 {
    open spec fn param_ok(s: Seq<char>) -> bool {
        parse_i64_spec(s) is Some
    }

    open spec fn param_rel(s: Seq<char>, v: Self) -> bool {
        parse_i64_spec(s) == Some(v)
    }

    open spec fn dtype_name_spec() -> Seq<char> {
        "i64"@
    }

    fn from_param(s: &str) -> (r: Option<Self>) {
        let negative: bool = s.unicode_len() > 0 && s.get_char(0) == '-';
        let start: usize = if s.unicode_len() > 0 && (s.get_char(0) == '-' || s.get_char(0)
            == '+') {
            1
        } else {
            0
        };
        proof {
            if start == 1 {
                assert(s@.skip(1) =~= s@.drop_first());
            } else {
                assert(s@.skip(0) =~= s@);
            }
        }
        match parse_u64_digits(s, start) {
            Some(m) => {
                if negative {
                    if m > 9223372036854775808u64 {
                        None
                    } else if m == 9223372036854775808u64 {
                        Some(i64::MIN)
                    } else {
                        Some(-(m as i64))
                    }
                } else {
                    if m <= i64::MAX as u64 {
                        Some(m as i64)
                    } else {
                        None
                    }
                }
            },
            None => None,
        }
    }

    fn dtype_name() -> (r: String) {
        "i64".to_owned()
    }
}

/// What parsing `s` as an `i32` yields.
pub open spec fn parse_i32_spec(s: Seq<char>) -> Option<i32> {
    let t = signed_digits_part(s);
    let v = signed_sign(s) * dec_val(t);
    if is_dec_digits(t) && i32::MIN <= v <= i32::MAX {
        Some(v as i32)
    } else {
        None
    }
}

impl FromParam for i32 {
    open spec fn param_ok(s: Seq<char>) -> bool {
        parse_i32_spec(s) is Some
    }

    open spec fn param_rel(s: Seq<char>, v: Self) -> bool {
        parse_i32_spec(s) == Some(v)
    }

    open spec fn dtype_name_spec() -> Seq<char> {
        "i32"@
    }

    fn from_param(s: &str) -> (r: Option<Self>) {
        let negative: bool = s.unicode_len() > 0 && s.get_char(0) == '-';
        let start: usize = if s.unicode_len() > 0 && (s.get_char(0) == '-' || s.get_char(0)
            == '+') {
            1
        } else {
            0
        };
        proof {
            if start == 1 {
                assert(s@.skip(1) =~= s@.drop_first());
            } else {
                assert(s@.skip(0) =~= s@);
            }
        }
        match parse_u64_digits(s, start) {
            Some(m) => {
                if negative {
                    if m > 2147483648u64 {
                        None
                    } else if m == 2147483648u64 {
                        Some(i32::MIN)
                    } else {
                        Some(-(m as i32))
                    }
                } else {
                    if m <= i32::MAX as u64 {
                        Some(m as i32)
                    } else {
                        None
                    }
                }
            },
            None => None,
        }
    }

    fn dtype_name() -> (r: String) {
        "i32".to_owned()
    }
}

// ---------------------------------------------------------------------------
// bool and String
// ---------------------------------------------------------------------------

impl FromParam for bool {
    open spec fn param_ok(s: Seq<char>) -> bool {
        s == "true"@ || s == "false"@
    }

    open spec fn param_rel(s: Seq<char>, v: Self) -> bool {
        v == (s == "true"@)
    }

    open spec fn dtype_name_spec() -> Seq<char> {
        "bool"@
    }

    fn from_param(s: &str) -> (r: Option<Self>) {
        if str_eq(s, "true") {
            Some(true)
        } else if str_eq(s, "false") {
            Some(false)
        } else {
            None
        }
    }

    fn dtype_name() -> (r: String) {
        "bool".to_owned()
    }
}

impl FromParam for String {
    open spec fn param_ok(s: Seq<char>) -> bool {
        true
    }

    open spec fn param_rel(s: Seq<char>, v: Self) -> bool {
        v@ == s
    }

    open spec fn dtype_name_spec() -> Seq<char> {
        "alloc::string::String"@
    }

    fn from_param(s: &str) -> (r: Option<Self>) {
        Some(s.to_owned())
    }

    fn dtype_name() -> (r: String) {
        "alloc::string::String".to_owned()
    }
}

} // verus!
