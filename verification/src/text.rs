//! Character-level string helpers with exact specifications.
use vstd::prelude::*;
use vstd::string::StringSliceAdditionalSpecFns;

verus! {

/// Appends one character to a `String` (std `String::push`).
#[verifier::external_body]
pub(crate) fn push_char(s: &mut String, c: char)
    ensures
        final(s)@ == old(s)@.push(c),
{
    s.push(c)
}

/// Removes the last character of a `String` and returns it (std `String::pop`).
#[verifier::external_body]
pub(crate) fn pop_char(s: &mut String) -> (r: Option<char>)
    ensures
        match r {
            Some(c) => old(s)@.len() > 0 && c == old(s)@.last() && final(s)@ == old(s)@.drop_last(),
            None => old(s)@.len() == 0 && final(s)@ == old(s)@,
        },
{
    s.pop()
}

/// The characters of `s`, in order.
pub fn chars_of(s: &str) -> (v: Vec<char>)
    ensures
        v@ == s@,
{
    let n = s.unicode_len();
    let mut v: Vec<char> = Vec::new();
    let mut i: usize = 0;
    while i < n
        invariant
            n == s@.len(),
            i <= n,
            v@ == s@.subrange(0, i as int),
        decreases n - i,
    {
        let c = s.get_char(i);
        v.push(c);
        i = i + 1;
    }
    assert(v@ == s@);
    v
}

/// A `String` holding exactly the characters `cs[from..to]`.
pub fn string_from_chars(cs: &Vec<char>, from: usize, to: usize) -> (r: String)
    requires
        from <= to <= cs@.len(),
    ensures
        r@ == cs@.subrange(from as int, to as int),
{
    let mut r = String::new();
    let mut i: usize = from;
    while i < to
        invariant
            from <= i <= to,
            to <= cs@.len(),
            r@ == cs@.subrange(from as int, i as int),
        decreases to - i,
    {
        push_char(&mut r, cs[i]);
        assert(cs@.subrange(from as int, i + 1) == cs@.subrange(from as int, i as int).push(cs@[i as int]));
        i = i + 1;
    }
    r
}

/// `s` with every trailing `c` removed (as `str::trim_end_matches` with a char).
pub open spec fn trim_end_char(s: Seq<char>, c: char) -> Seq<char>
    decreases s.len(),
{
    if s.len() > 0 && s.last() == c {
        trim_end_char(s.drop_last(), c)
    } else {
        s
    }
}

proof fn lemma_trim_end_prefix(s: Seq<char>, c: char, k: int)
    requires
        0 <= k <= s.len(),
        forall|j: int| k <= j < s.len() ==> s[j] == c,
    ensures
        trim_end_char(s, c) == trim_end_char(s.subrange(0, k), c),
    decreases s.len() - k,
{
    if k < s.len() {
        assert(s.drop_last() == s.subrange(0, s.len() - 1));
        assert(s.drop_last().subrange(0, k) == s.subrange(0, k));
        lemma_trim_end_prefix(s.drop_last(), c, k);
    } else {
        assert(s.subrange(0, k) == s);
    }
}

/// Removes all trailing `/` characters, as `trim_end_matches('/')` does.
pub fn trim_trailing_slashes(s: &str) -> (r: String)
    ensures
        r@ == trim_end_char(s@, '/'),
{
    let cs = chars_of(s);
    let mut end: usize = cs.len();
    while end > 0 && cs[end - 1] == '/'
        invariant
            end <= cs@.len(),
            cs@ == s@,
            forall|j: int| end <= j < cs@.len() ==> cs@[j] == '/',
        decreases end,
    {
        end = end - 1;
    }
    proof {
        lemma_trim_end_prefix(s@, '/', end as int);
        let p = s@.subrange(0, end as int);
        assert(!(p.len() > 0 && p.last() == '/'));
    }
    string_from_chars(&cs, 0, end)
}

/// Character-wise equality of two string slices.
pub fn str_eq(a: &str, b: &str) -> (r: bool)
    ensures
        r == (a@ == b@),
{
    let ca = chars_of(a);
    let cb = chars_of(b);
    if ca.len() != cb.len() {
        return false;
    }
    let mut i: usize = 0;
    while i < ca.len()
        invariant
            ca@ == a@,
            cb@ == b@,
            ca@.len() == cb@.len(),
            i <= ca@.len(),
            forall|j: int| 0 <= j < i ==> ca@[j] == cb@[j],
        decreases ca@.len() - i,
    {
        if ca[i] != cb[i] {
            return false;
        }
        i = i + 1;
    }
    assert(ca@ =~= cb@);
    true
}


/// Whether `c` is one of `0`..`9`.
pub open spec fn is_digit(c: char) -> bool {
    '0' <= c <= '9'
}

/// The value of an ASCII digit.
pub open spec fn digit_value(c: char) -> int {
    c as int - '0' as int
}

/// The character of a digit value below ten.
pub open spec fn digit_char(d: int) -> char {
    (d + '0' as int) as char
}

/// The number that a string of decimal digits denotes.
pub open spec fn digits_value(s: Seq<char>) -> int
    decreases s.len(),
{
    if s.len() == 0 {
        0
    } else {
        digits_value(s.drop_last()) * 10 + digit_value(s.last())
    }
}

/// The decimal representation of `n`, without leading zeros.
pub open spec fn decimal(n: nat) -> Seq<char>
    decreases n,
{
    if n < 10 {
        seq![digit_char(n as int)]
    } else {
        decimal(n / 10).push(digit_char((n % 10) as int))
    }
}

/// `s` without one leading `+`.
pub open spec fn unsigned_part(s: Seq<char>) -> Seq<char> {
    if s.len() > 0 && s[0] == '+' {
        s.drop_first()
    } else {
        s
    }
}

/// Every character of `d` is a decimal digit.
pub open spec fn all_digits(d: Seq<char>) -> bool {
    forall|i: int| 0 <= i < d.len() ==> is_digit(#[trigger] d[i])
}

/// What `str::parse::<u64>` gives: an optional `+` followed by at least one
/// decimal digit, with a value that fits in 64 bits.
pub open spec fn spec_parse_u64(s: Seq<char>) -> Option<u64> {
    let d = unsigned_part(s);
    if d.len() > 0 && all_digits(d) && digits_value(d) <= u64::MAX {
        Some(digits_value(d) as u64)
    } else {
        None
    }
}

proof fn lemma_digits_value_nonneg(s: Seq<char>)
    requires
        forall|i: int| 0 <= i < s.len() ==> is_digit(#[trigger] s[i]),
    ensures
        digits_value(s) >= 0,
    decreases s.len(),
{
    if s.len() > 0 {
        assert forall|i: int| 0 <= i < s.drop_last().len() implies is_digit(#[trigger] s.drop_last()[i]) by {
            assert(s.drop_last()[i] == s[i]);
        }
        lemma_digits_value_nonneg(s.drop_last());
    }
}

proof fn lemma_digits_value_prefix_le(s: Seq<char>, k: int)
    requires
        0 <= k <= s.len(),
        forall|i: int| 0 <= i < s.len() ==> is_digit(#[trigger] s[i]),
    ensures
        digits_value(s.subrange(0, k)) <= digits_value(s),
    decreases s.len() - k,
{
    if k < s.len() {
        let t = s.drop_last();
        assert(t.subrange(0, k) == s.subrange(0, k));
        assert forall|i: int| 0 <= i < t.len() implies is_digit(#[trigger] t[i]) by {
            assert(t[i] == s[i]);
        }
        lemma_digits_value_prefix_le(t, k);
        lemma_digits_value_nonneg(t);
        assert(s.subrange(0, s.len() as int) == s);
    } else {
        assert(s.subrange(0, k) == s);
    }
}

/// Parses a count as `str::parse::<u64>` does.
pub fn parse_u64(s: &str) -> (r: Option<u64>)
    ensures
        r == spec_parse_u64(s@),
{
    let cs = chars_of(s);
    let start: usize = if cs.len() > 0 && cs[0] == '+' { 1 } else { 0 };
    let ghost d = unsigned_part(s@);
    proof {
        assert(d =~= cs@.subrange(start as int, cs@.len() as int));
    }
    if start >= cs.len() {
        return None;
    }
    let mut v: u64 = 0;
    let mut i: usize = start;
    while i < cs.len()
        invariant
            cs@ == s@,
            start <= i <= cs@.len(),
            d == cs@.subrange(start as int, cs@.len() as int),
            d == unsigned_part(s@),
            forall|j: int| start <= j < i ==> is_digit(#[trigger] cs@[j]),
            v as int == digits_value(cs@.subrange(start as int, i as int)),
        decreases cs@.len() - i,
    {
        let c = cs[i];
        let ghost pre = cs@.subrange(start as int, i as int);
        let ghost next = cs@.subrange(start as int, i + 1);
        proof {
            assert(next.drop_last() =~= pre);
            assert(next.last() == c);
            assert(d[i - start] == c);
            assert(d.subrange(0, (i + 1 - start) as int) =~= next);
        }
        if !('0' <= c && c <= '9') {
            proof {
                assert(!is_digit(d[i - start]));
            }
            return None;
        }
        let dv: u64 = (c as u32 - '0' as u32) as u64;
        proof {
            assert(dv == digit_value(c));
            assert(digits_value(next) == v * 10 + dv);
        }
        let step = match v.checked_mul(10) {
            Some(m) => m.checked_add(dv),
            None => None,
        };
        match step {
            Some(n) => {
                v = n;
            },
            None => {
                proof {
                    assert(v * 10 + dv > u64::MAX);
                    if forall|j: int| 0 <= j < d.len() ==> is_digit(#[trigger] d[j]) {
                        lemma_digits_value_prefix_le(d, (i + 1 - start) as int);
                        assert(digits_value(d) > u64::MAX);
                    }
                }
                return None;
            },
        }
        i = i + 1;
    }
    proof {
        assert(cs@.subrange(start as int, i as int) =~= d);
        assert forall|j: int| 0 <= j < d.len() implies is_digit(#[trigger] d[j]) by {
            assert(d[j] == cs@[start + j]);
        }
    }
    Some(v)
}

proof fn lemma_digit_char(d: int)
    requires
        0 <= d < 10,
    ensures
        is_digit(digit_char(d)),
        digit_value(digit_char(d)) == d,
{
    assert(digit_char(d) as int == d + 48);
}

proof fn lemma_decimal_digits(n: nat)
    ensures
        decimal(n).len() > 0,
        forall|i: int| 0 <= i < decimal(n).len() ==> is_digit(#[trigger] decimal(n)[i]),
        digits_value(decimal(n)) == n,
    decreases n,
{
    if n >= 10 {
        lemma_decimal_digits(n / 10);
        lemma_digit_char((n % 10) as int);
        let p = decimal(n / 10);
        assert(decimal(n).drop_last() == p);
        assert(decimal(n).last() == digit_char((n % 10) as int));
        assert(digits_value(decimal(n)) == digits_value(p) * 10 + digit_value(decimal(n).last()));
        assert((n / 10) * 10 + n % 10 == n);
        assert forall|i: int| 0 <= i < decimal(n).len() implies is_digit(#[trigger] decimal(n)[i]) by {
            if i < p.len() {
                assert(decimal(n)[i] == p[i]);
            }
        }
    } else {
        lemma_digit_char(n as int);
        assert(decimal(n).drop_last() =~= Seq::<char>::empty());
        assert(digits_value(decimal(n)) == digits_value(decimal(n).drop_last()) * 10 + digit_value(decimal(n).last()));
    }
}

/// Reading back the decimal text of a number gives that number.
pub proof fn lemma_parse_decimal(n: u64)
    ensures
        spec_parse_u64(decimal(n as nat)) == Some(n),
{
    lemma_decimal_digits(n as nat);
}

/// The decimal text of `n`.
pub fn u64_to_string(n: u64) -> (r: String)
    ensures
        r@ == decimal(n as nat),
{
    let mut rev: Vec<char> = Vec::new();
    let mut m: u64 = n;
    let ghost mut suffix: Seq<char> = Seq::empty();
    loop
        invariant_except_break
            decimal(n as nat) == decimal(m as nat) + suffix,
            rev@.len() == suffix.len(),
            forall|j: int| 0 <= j < rev@.len() ==> rev@[j] == suffix[suffix.len() - 1 - j],
        ensures
            decimal(n as nat) == suffix,
            rev@.len() == suffix.len(),
            forall|j: int| 0 <= j < rev@.len() ==> rev@[j] == suffix[suffix.len() - 1 - j],
        decreases m,
    {
        let d = m % 10;
        let c: char = ((d as u8) + 48u8) as char;
        proof {
            assert(c == digit_char(d as int));
        }
        let ghost old_suffix = suffix;
        rev.push(c);
        proof {
            suffix = seq![c] + old_suffix;
        }
        if m < 10 {
            proof {
                assert(decimal(m as nat) == seq![c]);
            }
            break;
        }
        proof {
            assert(decimal(m as nat) == decimal((m / 10) as nat).push(c));
            assert(decimal((m / 10) as nat) + suffix =~= decimal(m as nat) + old_suffix);
        }
        m = m / 10;
    }
    let mut r = String::new();
    let mut i: usize = rev.len();
    while i > 0
        invariant
            i <= rev@.len(),
            rev@.len() == suffix.len(),
            forall|j: int| 0 <= j < rev@.len() ==> rev@[j] == suffix[suffix.len() - 1 - j],
            r@ == suffix.subrange(0, rev@.len() - i),
        decreases i,
    {
        i = i - 1;
        push_char(&mut r, rev[i]);
        proof {
            assert(suffix.subrange(0, rev@.len() - i) =~= suffix.subrange(0, rev@.len() - i - 1).push(rev@[i as int]));
        }
    }
    proof {
        assert(suffix.subrange(0, rev@.len() as int) == suffix);
    }
    r
}


/// The lowercase form of a string as `str::to_lowercase` gives it (full
/// Unicode case mapping).
pub uninterp spec fn spec_lowercase(s: Seq<char>) -> Seq<char>;

/// `str::to_lowercase`: its result is named by `spec_lowercase`.
#[verifier::external_body]
pub(crate) fn to_lowercase(s: &str) -> (r: String)
    ensures
        r@ == spec_lowercase(s@),
{
    s.to_lowercase()
}

/// `needle` occurs in `hay` at position `i`.
pub open spec fn occurs_at(hay: Seq<char>, needle: Seq<char>, i: int) -> bool {
    0 <= i && i + needle.len() <= hay.len() && hay.subrange(i, i + needle.len()) == needle
}

/// `needle` occurs somewhere in `hay` (an empty needle occurs everywhere).
pub open spec fn spec_contains(hay: Seq<char>, needle: Seq<char>) -> bool {
    exists|i: int| occurs_at(hay, needle, i)
}

/// `hay` begins with `prefix`.
pub open spec fn spec_starts_with(hay: Seq<char>, prefix: Seq<char>) -> bool {
    prefix.len() <= hay.len() && hay.subrange(0, prefix.len() as int) == prefix
}

fn chars_match_at(hay: &Vec<char>, needle: &Vec<char>, i: usize) -> (r: bool)
    requires
        i + needle@.len() <= hay@.len(),
    ensures
        r == (hay@.subrange(i as int, i + needle@.len()) == needle@),
{
    let mut j: usize = 0;
    let hl = hay.len();
    while j < needle.len()
        invariant
            hl == hay@.len(),
            i + needle@.len() <= hay@.len(),
            j <= needle@.len(),
            forall|k: int| 0 <= k < j ==> hay@[i + k] == needle@[k],
        decreases needle@.len() - j,
    {
        if hay[i + j] != needle[j] {
            proof {
                assert(hay@.subrange(i as int, i + needle@.len())[j as int] != needle@[j as int]);
            }
            return false;
        }
        j = j + 1;
    }
    proof {
        assert(hay@.subrange(i as int, i + needle@.len()) =~= needle@);
    }
    true
}

/// Whether `needle` occurs in `hay`, as `str::contains` with a string pattern.
pub fn contains(hay: &str, needle: &str) -> (r: bool)
    ensures
        r == spec_contains(hay@, needle@),
{
    let h = chars_of(hay);
    let n = chars_of(needle);
    if n.len() > h.len() {
        proof {
            assert forall|i: int| !occurs_at(hay@, needle@, i) by {}
        }
        return false;
    }
    let last: usize = h.len() - n.len();
    let mut i: usize = 0;
    loop
        invariant_except_break
            h@ == hay@,
            n@ == needle@,
            last == h@.len() - n@.len(),
            i <= last,
            forall|k: int| 0 <= k < i ==> !occurs_at(hay@, needle@, k),
        ensures
            forall|k: int| 0 <= k <= last ==> !occurs_at(hay@, needle@, k),
        decreases last - i,
    {
        if chars_match_at(&h, &n, i) {
            proof {
                assert(occurs_at(hay@, needle@, i as int));
            }
            return true;
        }
        if i == last {
            break;
        }
        i = i + 1;
    }
    false
}

/// Whether `hay` begins with `prefix`, as `str::starts_with` with a string pattern.
pub fn starts_with(hay: &str, prefix: &str) -> (r: bool)
    ensures
        r == spec_starts_with(hay@, prefix@),
{
    let h = chars_of(hay);
    let p = chars_of(prefix);
    if p.len() > h.len() {
        return false;
    }
    chars_match_at(&h, &p, 0)
}

/// Case-insensitive search as the views do it: the lowercase `query`
/// occurs in the lowercase `hay`.
pub open spec fn spec_matches_ci(hay: Seq<char>, query: Seq<char>) -> bool {
    spec_contains(spec_lowercase(hay), spec_lowercase(query))
}

/// Whether the lowercase `query` occurs in the lowercase `hay`.
pub fn contains_ci(hay: &str, query: &str) -> (r: bool)
    ensures
        r == spec_matches_ci(hay@, query@),
{
    let h = to_lowercase(hay);
    let q = to_lowercase(query);
    contains(h.as_str(), q.as_str())
}

/// The bytes of `s` in UTF-8.
pub open spec fn utf8_bytes(s: Seq<char>) -> Seq<u8> {
    vstd::utf8::encode_utf8(s)
}

/// Whether cutting `s` at byte `max - 1` is allowed when `s` is longer than
/// `max` bytes, as `truncate` needs.
pub open spec fn can_truncate(s: Seq<char>, max: usize) -> bool {
    utf8_bytes(s).len() > max ==> max >= 1 && vstd::utf8::is_char_boundary(utf8_bytes(s), max - 1)
}

/// What `truncate` gives: a text longer than `max` bytes keeps its first
/// `max - 1` bytes and gets an ellipsis; a shorter one is kept whole.
pub open spec fn spec_truncate(s: Seq<char>, max: usize) -> Seq<char> {
    if utf8_bytes(s).len() > max {
        vstd::utf8::decode_utf8(utf8_bytes(s).subrange(0, max - 1)) + "…"@
    } else {
        s
    }
}

/// Shortens `s` to fit `max` bytes, ending it with an ellipsis when cut.
pub fn truncate_text(s: &str, max: usize) -> (r: String)
    requires
        can_truncate(s@, max),
    ensures
        r@ == spec_truncate(s@, max),
{
    let byte_len = s.as_bytes().len();
    if byte_len > max {
        let (head, _tail) = s.split_at(max - 1);
        proof {
            vstd::utf8::encode_utf8_decode_utf8(head@);
            assert(head.spec_bytes() == utf8_bytes(s@).subrange(0, max - 1));
            assert(head@ == vstd::utf8::decode_utf8(utf8_bytes(s@).subrange(0, max - 1)));
        }
        let owned = head.to_owned();
        assert(owned@ == head@);
        let r = owned.concat("…");
        assert(r@ == head@ + "…"@);
        r
    } else {
        s.to_owned()
    }
}

/// UTF-8 encoding maps concatenation to concatenation.
proof fn lemma_encode_concat(a: Seq<char>, b: Seq<char>)
    ensures
        utf8_bytes(a + b) == utf8_bytes(a) + utf8_bytes(b),
    decreases a.len(),
{
    if a.len() > 0 {
        lemma_encode_concat(a.drop_first(), b);
        assert((a + b).drop_first() =~= a.drop_first() + b);
        assert((a + b)[0] == a[0]);
        assert(utf8_bytes(a + b) =~= utf8_bytes(a) + utf8_bytes(b));
    } else {
        assert(a + b =~= b);
        assert(utf8_bytes(a) + utf8_bytes(b) =~= utf8_bytes(b));
    }
}

/// Every character takes at least one byte.
proof fn lemma_chars_le_bytes(a: Seq<char>)
    ensures
        a.len() <= utf8_bytes(a).len(),
    decreases a.len(),
{
    if a.len() > 0 {
        lemma_chars_le_bytes(a.drop_first());
    }
}

/// The ellipsis takes three bytes, the first of which starts a character.
proof fn lemma_ellipsis_bytes()
    ensures
        utf8_bytes("…"@).len() == 3,
        !vstd::utf8::is_continuation_byte(utf8_bytes("…"@)[0]),
        vstd::utf8::valid_utf8(utf8_bytes("…"@)),
{
    reveal_strlit("…");
    let e = seq!['\u{2026}'];
    assert("…"@ =~= e);
    assert(('\u{2026}' as u32) == 0x2026u32);
    assert(vstd::utf8::leading_byte_width_3(0x2026u32) == 0xE2u8) by (bit_vector);
    assert(e.drop_first() =~= Seq::<char>::empty());
    assert(vstd::utf8::encode_utf8(e.drop_first()) =~= Seq::<u8>::empty());
    assert(vstd::utf8::encode_utf8(e) =~= vstd::utf8::encode_scalar(0x2026u32));
    vstd::utf8::encode_utf8_valid_utf8("…"@);
}

/// Truncating a text that can be truncated gives one that can be truncated
/// again, which changes nothing, and which has at most `max` characters.
pub proof fn lemma_truncate_idempotent(s: Seq<char>, max: usize)
    requires
        can_truncate(s, max),
    ensures
        can_truncate(spec_truncate(s, max), max),
        spec_truncate(spec_truncate(s, max), max) == spec_truncate(s, max),
        spec_truncate(s, max).len() <= max,
{
    let b = utf8_bytes(s);
    if b.len() > max {
        let p = b.subrange(0, max - 1);
        vstd::utf8::encode_utf8_valid_utf8(s);
        vstd::utf8::valid_utf8_split(b, max - 1);
        let d = vstd::utf8::decode_utf8(p);
        vstd::utf8::decode_utf8_encode_utf8(p);
        assert(utf8_bytes(d) == p);
        let e = "…"@;
        lemma_ellipsis_bytes();
        let r = d + e;
        lemma_encode_concat(d, e);
        let rb = utf8_bytes(r);
        assert(rb == p + utf8_bytes(e));
        assert(rb.len() == max + 2);
        vstd::utf8::encode_utf8_valid_utf8(r);
        assert(rb[max - 1] == utf8_bytes(e)[0]);
        vstd::utf8::is_char_boundary_iff_not_is_continuation_byte(rb, max - 1);
        assert(rb.subrange(0, max - 1) =~= p);
        lemma_chars_le_bytes(d);
        reveal_strlit("…");
    } else {
        lemma_chars_le_bytes(s);
    }
}

} // verus!
