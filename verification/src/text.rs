//! Verified helpers on strings: ASCII case-insensitive comparison, joining a
//! list of strings with a separator, decimal rendering of integers, and the
//! path fragments the validation parser reads.

use vstd::prelude::*;
use vstd::string::StringExecFns;

verus! {

/// The ASCII lower-case code point of a character: letters `A`..`Z` map to
/// `a`..`z`, every other character is unchanged.
pub open spec fn lower_code(c: char) -> int {
    if 'A' <= c && c <= 'Z' {
        c as int + 32
    } else {
        c as int
    }
}

/// Two character sequences are equal up to ASCII case.
pub open spec fn eq_ignore_case(a: Seq<char>, b: Seq<char>) -> bool {
    a.len() == b.len() && forall|i: int| 0 <= i < a.len() ==> lower_code(a[i]) == lower_code(b[i])
}

/// Whether two strings are equal up to ASCII case.
pub fn eq_ignore_ascii_case(a: &str, b: &str) -> (r: bool)
    ensures
        r == eq_ignore_case(a@, b@),
{
    let alen = a.unicode_len();
    let blen = b.unicode_len();
    if alen != blen {
        return false;
    }
    let mut i: usize = 0;
    while i < alen
        invariant
            alen == a@.len(),
            blen == b@.len(),
            alen == blen,
            0 <= i <= alen,
            forall|j: int| 0 <= j < i ==> lower_code(a@[j]) == lower_code(b@[j]),
        decreases alen - i,
    {
        let ca = a.get_char(i);
        let cb = b.get_char(i);
        let la: u32 = if 'A' <= ca && ca <= 'Z' {
            ca as u32 + 32
        } else {
            ca as u32
        };
        let lb: u32 = if 'A' <= cb && cb <= 'Z' {
            cb as u32 + 32
        } else {
            cb as u32
        };
        if la != lb {
            return false;
        }
        i = i + 1;
    }
    true
}

/// Equality up to ASCII case is symmetric.
pub proof fn lemma_eq_ignore_case_symmetric(a: Seq<char>, b: Seq<char>)
    ensures
        eq_ignore_case(a, b) == eq_ignore_case(b, a),
{
}

// ---------------------------------------------------------------------------
// Joining.
// ---------------------------------------------------------------------------

/// The given parts joined with the separator between consecutive parts.
pub open spec fn spec_join(parts: Seq<Seq<char>>, sep: Seq<char>) -> Seq<char>
    decreases parts.len(),
{
    if parts.len() == 0 {
        Seq::empty()
    } else if parts.len() == 1 {
        parts[0]
    } else {
        spec_join(parts.drop_last(), sep) + sep + parts.last()
    }
}

/// Joins the strings with the separator between consecutive entries.
pub fn join_strings(parts: &Vec<String>, sep: &str) -> (r: String)
    ensures
        r@ == spec_join(parts.deep_view(), sep@),
{
    let ghost ps: Seq<Seq<char>> = parts.deep_view();
    let mut out = String::new();
    let mut i: usize = 0;
    while i < parts.len()
        invariant
            0 <= i <= parts.len(),
            ps == parts.deep_view(),
            ps.len() == parts.len(),
            out@ == spec_join(ps.take(i as int), sep@),
        decreases parts.len() - i,
    {
        proof {
            assert(ps[i as int] == parts[i as int]@);
        }
        if i > 0 {
            out.append(sep);
        }
        out.append(parts[i].as_str());
        proof {
            let taken = ps.take(i as int + 1);
            assert(taken.drop_last() =~= ps.take(i as int));
            assert(taken.last() == ps[i as int]);
        }
        i = i + 1;
    }
    proof {
        assert(ps.take(ps.len() as int) =~= ps);
    }
    out
}

/// Joins the string slices with the separator between consecutive entries.
pub fn join_str_refs(parts: &Vec<&str>, sep: &str) -> (r: String)
    ensures
        r@ == spec_join(parts.deep_view(), sep@),
{
    let ghost ps: Seq<Seq<char>> = parts.deep_view();
    let mut out = String::new();
    let mut i: usize = 0;
    while i < parts.len()
        invariant
            0 <= i <= parts.len(),
            ps == parts.deep_view(),
            ps.len() == parts.len(),
            out@ == spec_join(ps.take(i as int), sep@),
        decreases parts.len() - i,
    {
        proof {
            assert(ps[i as int] == parts[i as int]@);
        }
        if i > 0 {
            out.append(sep);
        }
        out.append(parts[i]);
        proof {
            let taken = ps.take(i as int + 1);
            assert(taken.drop_last() =~= ps.take(i as int));
            assert(taken.last() == ps[i as int]);
        }
        i = i + 1;
    }
    proof {
        assert(ps.take(ps.len() as int) =~= ps);
    }
    out
}

// ---------------------------------------------------------------------------
// Decimal rendering.
// ---------------------------------------------------------------------------

/// The decimal digit character of a value between 0 and 9.
pub open spec fn digit_char(d: int) -> char {
    (48 + d) as char
}

/// The decimal digits of a non-negative value, most significant first.
pub open spec fn dec_digits(n: int) -> Seq<char>
    decreases n,
{
    if n < 0 {
        Seq::empty()
    } else if n < 10 {
        seq![digit_char(n)]
    } else {
        dec_digits(n / 10).push(digit_char(n % 10))
    }
}

/// The decimal rendering of an integer: a minus sign before the digits of
/// its magnitude when it is negative.
pub open spec fn dec_str(n: int) -> Seq<char> {
    if n < 0 {
        seq!['-'] + dec_digits(-n)
    } else {
        dec_digits(n)
    }
}

/// Reversing after appending one element puts that element first.
proof fn lemma_reverse_push(s: Seq<char>, x: char)
    ensures
        s.push(x).reverse() =~= seq![x] + s.reverse(),
{
}

/// Renders an integer in decimal, with a leading minus sign when negative.
pub fn i32_to_string(n: i32) -> (r: String)
    ensures
        r@ == dec_str(n as int),
{
    let mut magnitude: u64 = if n < 0 {
        (-(n as i64)) as u64
    } else {
        n as u64
    };
    let ghost m0: int = magnitude as int;
    proof {
        assert(m0 == if n < 0 { -(n as int) } else { n as int });
    }

    let mut reversed: Vec<u8> = Vec::new();
    if magnitude == 0 {
        reversed.push(48);
        proof {
            assert(ascii_str_of(reversed@).reverse() =~= dec_digits(m0));
        }
    } else {
        while magnitude > 0
            invariant
                0 <= magnitude,
                magnitude > 0 ==> dec_digits(m0) =~= dec_digits(magnitude as int) + ascii_str_of(
                    reversed@,
                ).reverse(),
                magnitude == 0 ==> dec_digits(m0) =~= ascii_str_of(reversed@).reverse(),
                forall|i: int| 0 <= i < reversed@.len() ==> 48 <= #[trigger] reversed@[i] < 58,
            decreases magnitude,
        {
            let d: u8 = (magnitude % 10) as u8 + 48;
            let ghost before: Seq<char> = ascii_str_of(reversed@);
            reversed.push(d);
            proof {
                assert(d as char == digit_char(magnitude as int % 10));
                assert(ascii_str_of(reversed@) =~= before.push(d as char));
                lemma_reverse_push(before, d as char);
                if magnitude >= 10 {
                    assert(dec_digits(magnitude as int) == dec_digits(magnitude as int / 10).push(
                        digit_char(magnitude as int % 10),
                    ));
                    assert(dec_digits(m0) =~= dec_digits(magnitude as int / 10) + ascii_str_of(
                        reversed@,
                    ).reverse());
                } else {
                    assert(dec_digits(magnitude as int) =~= seq![
                        digit_char(magnitude as int % 10),
                    ]);
                    assert(dec_digits(m0) =~= ascii_str_of(reversed@).reverse());
                }
            }
            magnitude = magnitude / 10;
        }
    }

    let mut bytes: Vec<u8> = Vec::new();
    if n < 0 {
        bytes.push(45);
        proof {
            assert(ascii_str_of(bytes@) =~= seq!['-']);
        }
    }
    let ghost sign: Seq<char> = if n < 0 {
        seq!['-']
    } else {
        Seq::empty()
    };
    let ghost digits: Seq<char> = ascii_str_of(reversed@).reverse();
    let mut j: usize = reversed.len();
    while j > 0
        invariant
            0 <= j <= reversed@.len(),
            digits == ascii_str_of(reversed@).reverse(),
            digits.len() == reversed@.len(),
            forall|i: int| 0 <= i < reversed@.len() ==> 48 <= #[trigger] reversed@[i] < 58,
            forall|i: int| 0 <= i < bytes@.len() ==> #[trigger] bytes@[i] < 128,
            ascii_str_of(bytes@) =~= sign + digits.take(reversed@.len() - j),
        decreases j,
    {
        let ghost before: Seq<char> = ascii_str_of(bytes@);
        bytes.push(reversed[j - 1]);
        proof {
            assert(reversed@[j - 1] as char == digits[reversed@.len() - j]);
            assert(ascii_str_of(bytes@) =~= before.push(digits[reversed@.len() - j]));
            assert(digits.take(reversed@.len() - (j - 1)) =~= digits.take(
                reversed@.len() - j,
            ).push(digits[reversed@.len() - j]));
        }
        j = j - 1;
    }
    proof {
        assert(digits.take(reversed@.len() as int) =~= digits);
        assert(ascii_str_of(bytes@) =~= dec_str(n as int));
    }
    let rendered = string_from_utf8(bytes);
    proof {
        assert(rendered is Some);
    }
    rendered.unwrap()
}

// ---------------------------------------------------------------------------
// Bytes to text.
// ---------------------------------------------------------------------------

/// The characters of a sequence of ASCII bytes.
pub open spec fn ascii_str_of(bytes: Seq<u8>) -> Seq<char> {
    bytes.map_values(|b: u8| b as char)
}

/// Relies on std's `String::from_utf8`: ASCII bytes are valid UTF-8 and
/// decode to their own characters. Nothing is claimed of other inputs.
#[verifier::external_body]
pub(crate) fn string_from_utf8(bytes: Vec<u8>) -> (r: Option<String>)
    ensures
        (forall|i: int| 0 <= i < bytes@.len() ==> bytes@[i] < 128) ==> (r is Some && r->0@
            == ascii_str_of(bytes@)),
{
    String::from_utf8(bytes).ok()
}

// ---------------------------------------------------------------------------
// Path fragments.
// ---------------------------------------------------------------------------

/// The suffix after the last slash; the whole sequence when it holds none.
pub open spec fn after_last_slash(s: Seq<char>) -> Seq<char>
    decreases s.len(),
{
    if s.len() == 0 {
        s
    } else if s.last() == '/' {
        Seq::empty()
    } else {
        after_last_slash(s.drop_last()).push(s.last())
    }
}

/// The prefix before the first dot; the whole sequence when it holds none.
pub open spec fn before_first_dot(s: Seq<char>) -> Seq<char>
    decreases s.len(),
{
    if s.len() == 0 {
        s
    } else if s.first() == '.' {
        Seq::empty()
    } else {
        seq![s.first()] + before_first_dot(s.drop_first())
    }
}

/// A suffix holding no slash, whose start either is the whole string or
/// follows a slash, is the suffix after the last slash.
proof fn lemma_after_last_slash(s: Seq<char>, k: int)
    requires
        0 <= k <= s.len(),
        k == 0 || s[k - 1] == '/',
        forall|j: int| k <= j < s.len() ==> s[j] != '/',
    ensures
        after_last_slash(s) == s.subrange(k, s.len() as int),
    decreases s.len(),
{
    if s.len() == 0 {
        assert(after_last_slash(s) =~= s.subrange(0, 0));
    } else if k == s.len() {
        assert(s.last() == '/');
        assert(after_last_slash(s) =~= s.subrange(k, s.len() as int));
    } else {
        assert(s.last() != '/');
        let pre = s.drop_last();
        lemma_after_last_slash(pre, k);
        assert(pre.subrange(k, pre.len() as int) =~= s.subrange(k, s.len() as int).drop_last());
        assert(after_last_slash(s) =~= s.subrange(k, s.len() as int));
    }
}

/// A prefix holding no dot, whose end either is the whole string or stands
/// before a dot, is the prefix before the first dot.
proof fn lemma_before_first_dot(s: Seq<char>, k: int)
    requires
        0 <= k <= s.len(),
        k == s.len() || s[k] == '.',
        forall|j: int| 0 <= j < k ==> s[j] != '.',
    ensures
        before_first_dot(s) == s.subrange(0, k),
    decreases s.len(),
{
    if s.len() == 0 {
        assert(before_first_dot(s) =~= s.subrange(0, 0));
    } else if k == 0 {
        assert(s.first() == '.');
        assert(before_first_dot(s) =~= s.subrange(0, 0));
    } else {
        assert(s.first() != '.');
        let tail = s.drop_first();
        lemma_before_first_dot(tail, k - 1);
        assert(tail.subrange(0, k - 1) =~= s.subrange(0, k).drop_first());
        assert(before_first_dot(s) =~= s.subrange(0, k));
    }
}

/// The fragment after the last slash and before the first dot of what
/// follows it: the identifier embedded in a validation URL's file name.
pub open spec fn url_file_stem(s: Seq<char>) -> Seq<char> {
    before_first_dot(after_last_slash(s))
}

/// Extracts the fragment after the last slash and before the first dot of
/// what follows it.
pub fn extract_url_file_stem(s: &str) -> (r: String)
    ensures
        r@ == url_file_stem(s@),
{
    let n = s.unicode_len();
    let mut start: usize = 0;
    let mut j: usize = 0;
    while j < n
        invariant
            0 <= start <= j <= n,
            n == s@.len(),
            start == 0 || s@[start - 1] == '/',
            forall|m: int| start <= m < j ==> s@[m] != '/',
        decreases n - j,
    {
        if s.get_char(j) == '/' {
            start = j + 1;
        }
        j = j + 1;
    }
    proof {
        lemma_after_last_slash(s@, start as int);
    }
    let tail = s.substring_char(start, n);
    let tn = tail.unicode_len();
    let mut end: usize = 0;
    while end < tn && tail.get_char(end) != '.'
        invariant
            0 <= end <= tn,
            tn == tail@.len(),
            forall|m: int| 0 <= m < end ==> tail@[m] != '.',
        decreases tn - end,
    {
        end = end + 1;
    }
    proof {
        lemma_before_first_dot(tail@, end as int);
    }
    let stem = tail.substring_char(0, end);
    stem.to_owned()
}

} // verus!
