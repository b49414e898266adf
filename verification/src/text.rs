//! Text helpers: decimal numbers, prefixes, ASCII case-insensitive equality.
use vstd::prelude::*;
use vstd::string::{StrSliceExecFns, StringSliceAdditionalSpecFns};
use vstd::utf8::{encode_utf8_valid_utf8, is_char_boundary, is_char_boundary_start_end_of_seq};

verus! {

/// The character of a decimal digit.
pub open spec fn digit_char(d: nat) -> char {
    if d == 0 {
        '0'
    } else if d == 1 {
        '1'
    } else if d == 2 {
        '2'
    } else if d == 3 {
        '3'
    } else if d == 4 {
        '4'
    } else if d == 5 {
        '5'
    } else if d == 6 {
        '6'
    } else if d == 7 {
        '7'
    } else if d == 8 {
        '8'
    } else {
        '9'
    }
}

/// The decimal notation of a natural number, without leading zeros.
pub open spec fn decimal_spec(n: nat) -> Seq<char>
    decreases n,
{
    if n < 10 {
        seq![digit_char(n)]
    } else {
        decimal_spec(n / 10) + seq![digit_char(n % 10)]
    }
}

fn digit_str(d: u64) -> (r: &'static str)
    requires
        d < 10,
    ensures
        r@ == seq![digit_char(d as nat)],
{
    proof {
        reveal_strlit("0");
        reveal_strlit("1");
        reveal_strlit("2");
        reveal_strlit("3");
        reveal_strlit("4");
        reveal_strlit("5");
        reveal_strlit("6");
        reveal_strlit("7");
        reveal_strlit("8");
        reveal_strlit("9");
    }
    if d == 0 {
        "0"
    } else if d == 1 {
        "1"
    } else if d == 2 {
        "2"
    } else if d == 3 {
        "3"
    } else if d == 4 {
        "4"
    } else if d == 5 {
        "5"
    } else if d == 6 {
        "6"
    } else if d == 7 {
        "7"
    } else if d == 8 {
        "8"
    } else {
        "9"
    }
}

/// Appends the decimal notation of `n`.
pub fn push_decimal(s: &mut String, n: u64)
    ensures
        final(s)@ == old(s)@ + decimal_spec(n as nat),
    decreases n,
{
    if n >= 10 {
        push_decimal(s, n / 10);
    }
    s.append(digit_str(n % 10));
    proof {
        assert(old(s)@ + decimal_spec(n as nat) =~= if n >= 10 {
            old(s)@ + decimal_spec((n / 10) as nat) + seq![digit_char((n % 10) as nat)]
        } else {
            old(s)@ + seq![digit_char((n % 10) as nat)]
        });
    }
}

/// Whether `s` begins with `prefix`.
pub fn starts_with(s: &str, prefix: &str) -> (r: bool)
    ensures
        r == (prefix@.len() <= s@.len() && s@.subrange(0, prefix@.len() as int) == prefix@),
{
    let n = prefix.unicode_len();
    if s.unicode_len() < n {
        return false;
    }
    let mut i: usize = 0;
    while i < n
        invariant
            n == prefix@.len(),
            n <= s@.len(),
            i <= n,
            forall|j: int| 0 <= j < i ==> s@[j] == prefix@[j],
        decreases n - i,
    {
        if s.get_char(i) != prefix.get_char(i) {
            assert(s@.subrange(0, n as int)[i as int] != prefix@[i as int]);
            return false;
        }
        i += 1;
    }
    assert(s@.subrange(0, n as int) =~= prefix@);
    true
}

/// ASCII lower-casing of one character; other characters are unchanged.
pub open spec fn ascii_lower(c: char) -> char {
    if 'A' <= c && c <= 'Z' {
        ((c as u32) + 32) as char
    } else {
        c
    }
}

/// Equality up to ASCII case.
pub open spec fn eq_ignore_ascii_case_spec(a: Seq<char>, b: Seq<char>) -> bool {
    a.len() == b.len() && forall|i: int| 0 <= i < a.len() ==> ascii_lower(#[trigger] a[i]) == ascii_lower(b[i])
}

fn lower(c: char) -> (r: char)
    ensures
        r == ascii_lower(c),
{
    if 'A' <= c && c <= 'Z' {
        let v = (c as u8) + 32;
        v as char
    } else {
        c
    }
}

/// `str::eq_ignore_ascii_case`: equal lengths and equal characters once ASCII
/// letters are lower-cased.
pub fn eq_ignore_ascii_case(a: &str, b: &str) -> (r: bool)
    ensures
        r == eq_ignore_ascii_case_spec(a@, b@),
{
    let n = a.unicode_len();
    if b.unicode_len() != n {
        return false;
    }
    let mut i: usize = 0;
    while i < n
        invariant
            n == a@.len(),
            n == b@.len(),
            i <= n,
            forall|j: int| 0 <= j < i ==> ascii_lower(#[trigger] a@[j]) == ascii_lower(b@[j]),
        decreases n - i,
    {
        if lower(a.get_char(i)) != lower(b.get_char(i)) {
            return false;
        }
        i += 1;
    }
    true
}


/// Whether two texts are equal.
pub fn str_eq(a: &str, b: &str) -> (r: bool)
    ensures
        r == (a@ == b@),
{
    let n = a.unicode_len();
    if b.unicode_len() != n {
        return false;
    }
    let mut i: usize = 0;
    while i < n
        invariant
            n == a@.len(),
            n == b@.len(),
            i <= n,
            forall|j: int| 0 <= j < i ==> a@[j] == b@[j],
        decreases n - i,
    {
        if a.get_char(i) != b.get_char(i) {
            return false;
        }
        i += 1;
    }
    assert(a@ =~= b@);
    true
}


/// The number of bytes of `bytes` that fit in a zero-terminated buffer of
/// `capacity` bytes without splitting a character: the largest character
/// boundary at or below the room left before the terminator.
pub open spec fn fitting_prefix_len(bytes: Seq<u8>, capacity: nat, n: nat) -> bool {
    let room = if capacity > 0 { (capacity - 1) as nat } else { 0 };
    let bound = if bytes.len() < room { bytes.len() } else { room };
    &&& n <= bound
    &&& is_char_boundary(bytes, n as int)
    &&& forall|k: int| n < k <= bound ==> !is_char_boundary(bytes, k)
}

/// Copies as much of `value`'s UTF-8 text into `target` as fits while leaving
/// the last byte free for a terminator, cutting only between characters.
/// The bytes after the copied ones are left as they were.
pub fn copy_text(target: &mut [u8], value: &str)
    ensures
        final(target)@.len() == old(target)@.len(),
        exists|n: nat|
            fitting_prefix_len(value.spec_bytes(), old(target)@.len(), n)
                && #[trigger] final(target)@.subrange(0, n as int) == value.spec_bytes().subrange(0, n as int)
                && final(target)@.subrange(n as int, old(target)@.len() as int) == old(target)@.subrange(
                n as int,
                old(target)@.len() as int,
            ),
{
    let bytes = value.as_bytes();
    let room = if target.len() > 0 { target.len() - 1 } else { 0 };
    let mut len = if bytes.len() < room { bytes.len() } else { room };
    let ghost bound = len;
    proof {
        encode_utf8_valid_utf8(value@);
        is_char_boundary_start_end_of_seq(bytes@);
    }
    while !value.is_char_boundary(len)
        invariant
            bytes@ == value.spec_bytes(),
            vstd::utf8::valid_utf8(bytes@),
            is_char_boundary(bytes@, 0),
            len <= bound,
            bound <= bytes@.len(),
            forall|k: int| len < k <= bound ==> !is_char_boundary(bytes@, k),
        decreases len,
    {
        len -= 1;
    }
    let ghost original = target@;
    let mut i: usize = 0;
    while i < len
        invariant
            i <= len,
            len <= bytes@.len(),
            len <= room,
            target@.len() == original.len(),
            room < target@.len() || (room == 0 && target@.len() == 0),
            forall|j: int| 0 <= j < i ==> target@[j] == bytes@[j],
            forall|j: int| len <= j < target@.len() ==> target@[j] == original[j],
        decreases len - i,
    {
        target[i] = bytes[i];
        i += 1;
    }
    proof {
        assert(fitting_prefix_len(value.spec_bytes(), original.len(), len as nat));
        assert(target@.subrange(0, len as int) =~= value.spec_bytes().subrange(0, len as int));
        assert(target@.subrange(len as int, original.len() as int) =~= original.subrange(len as int, original.len() as int));
    }
}

} // verus!
