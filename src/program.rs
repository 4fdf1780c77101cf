use vstd::prelude::*;
use vstd::string::StringSliceAdditionalSpecFns;

verus! {

/// The shape of a program under the backend's minimal grammar: surrounding
/// ASCII whitespace is ignored; nothing left is the empty program; a run of
/// decimal digits whose value fits in `i32` is a literal; anything else is
/// lowered as the greeting program.
#[derive(Clone, Copy, PartialEq, Eq, Structural, Debug)]
pub enum Program {
    Empty,
    Literal(i32),
    Opaque,
}

pub open spec fn is_ws(b: u8) -> bool {
    b == 32 || b == 9 || b == 10 || b == 13
}

pub open spec fn is_digit(b: u8) -> bool {
    48 <= b <= 57
}

pub open spec fn trim_start(s: Seq<u8>) -> Seq<u8>
    decreases s.len(),
{
    if s.len() > 0 && is_ws(s[0]) {
        trim_start(s.drop_first())
    } else {
        s
    }
}

pub open spec fn trim_end(s: Seq<u8>) -> Seq<u8>
    decreases s.len(),
{
    if s.len() > 0 && is_ws(s.last()) {
        trim_end(s.drop_last())
    } else {
        s
    }
}

pub open spec fn trim(s: Seq<u8>) -> Seq<u8> {
    trim_end(trim_start(s))
}

pub open spec fn all_digits(s: Seq<u8>) -> bool {
    forall|i: int| 0 <= i < s.len() ==> is_digit(#[trigger] s[i])
}

/// The decimal value of a run of digits.
pub open spec fn digits_value(s: Seq<u8>) -> int
    decreases s.len(),
{
    if s.len() == 0 {
        0
    } else {
        digits_value(s.drop_last()) * 10 + (s.last() - 48)
    }
}

/// The shape of the program whose UTF-8 encoding is `s`.
pub open spec fn classify(s: Seq<u8>) -> Program {
    let t = trim(s);
    if t.len() == 0 {
        Program::Empty
    } else if all_digits(t) && digits_value(t) <= i32::MAX {
        Program::Literal(digits_value(t) as i32)
    } else {
        Program::Opaque
    }
}

/// Reads the shape of `program`.
pub fn parse_program(program: &str) -> (r: Program)
    ensures
        r == classify(program.spec_bytes()),
{
    let bytes = program.as_bytes();
    let ghost s = program.spec_bytes();
    let n = bytes.len();
    let mut i: usize = 0;
    assert(s.subrange(0, n as int) =~= s);
    while i < n && (bytes[i] == 32 || bytes[i] == 9 || bytes[i] == 10 || bytes[i] == 13)
        invariant
            bytes@ == s,
            n == s.len(),
            i <= n,
            trim_start(s.subrange(i as int, n as int)) == trim_start(s),
        decreases n - i,
    {
        assert(s.subrange(i as int, n as int).drop_first() =~= s.subrange(i + 1, n as int));
        i = i + 1;
    }
    assert(trim_start(s) == s.subrange(i as int, n as int));
    let ghost u = s.subrange(i as int, n as int);
    let mut j: usize = n;
    while j > i && (bytes[j - 1] == 32 || bytes[j - 1] == 9 || bytes[j - 1] == 10 || bytes[j
        - 1] == 13)
        invariant
            bytes@ == s,
            n == s.len(),
            i <= j <= n,
            u == s.subrange(i as int, n as int),
            trim_end(s.subrange(i as int, j as int)) == trim_end(u),
        decreases j,
    {
        assert(s.subrange(i as int, j as int).drop_last() =~= s.subrange(i as int, j - 1));
        j = j - 1;
    }
    let ghost t = s.subrange(i as int, j as int);
    assert(trim(s) == t);
    if i == j {
        return Program::Empty;
    }
    let mut v: u64 = 0;
    let mut big = false;
    let mut k: usize = i;
    while k < j
        invariant
            bytes@ == s,
            n == s.len(),
            i <= k <= j <= n,
            t == s.subrange(i as int, j as int),
            trim(s) == t,
            s == program.spec_bytes(),
            i < j,
            forall|m: int| i <= m < k ==> is_digit(#[trigger] s[m]),
            big ==> digits_value(s.subrange(i as int, k as int)) > i32::MAX,
            !big ==> v == digits_value(s.subrange(i as int, k as int)) && v <= i32::MAX,
        decreases j - k,
    {
        let c = bytes[k];
        if !(48 <= c && c <= 57) {
            assert(t[k - i] == s[k as int]);
            assert(!is_digit(t[k - i]));
            assert(!all_digits(t));

            return Program::Opaque;
        }
        assert(s.subrange(i as int, k + 1).drop_last() =~= s.subrange(i as int, k as int));
        assert(s.subrange(i as int, k + 1).last() == c);
        if !big {
            let w = v * 10 + (c - 48) as u64;
            if w > 2147483647 {
                big = true;
            } else {
                v = w;
            }
        }
        k = k + 1;
    }
    assert(s.subrange(i as int, k as int) == t);
    assert(all_digits(t)) by {
        assert forall|m: int| 0 <= m < t.len() implies is_digit(#[trigger] t[m]) by {
            assert(t[m] == s[i + m]);
        }
    }
    if big {
        Program::Opaque
    } else {
        Program::Literal(v as i32)
    }
}

} // verus!
