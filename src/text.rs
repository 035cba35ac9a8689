//! Character-level helpers on `str` shared by the other modules.

use vstd::prelude::*;
use vstd::string::*;

verus! {

/// The text of an optional string.
pub open spec fn opt_string_view(o: Option<String>) -> Option<Seq<char>> {
    match o {
        Some(s) => Some(s@),
        None => None,
    }
}

/// The text of an optional string slice.
pub open spec fn opt_str_view(o: Option<&str>) -> Option<Seq<char>> {
    match o {
        Some(s) => Some(s@),
        None => None,
    }
}

/// `h` ends with a dot followed by `suffix`.
pub open spec fn has_dot_suffix_spec(h: Seq<char>, suffix: Seq<char>) -> bool {
    &&& h.len() > suffix.len()
    &&& h[h.len() - suffix.len() - 1] == '.'
    &&& h.subrange(h.len() - suffix.len(), h.len() as int) == suffix
}

/// Whether two texts hold the same characters.
pub fn same_text(a: &str, b: &str) -> (r: bool)
    ensures
        r == (a@ == b@),
{
    let n = a.unicode_len();
    if n != b.unicode_len() {
        return false;
    }
    let mut i: usize = 0;
    while i < n
        invariant
            n == a@.len(),
            n == b@.len(),
            i <= n,
            forall|j: int| 0 <= j < i ==> a@[j] == b@[j],
        decreases n - i,
    {
        if a.get_char(i) != b.get_char(i) {
            assert(a@[i as int] != b@[i as int]);
            return false;
        }
        i += 1;
    }
    assert(a@ =~= b@);
    true
}

/// Whether `h` ends with `.` followed by `suffix`.
pub fn has_dot_suffix(h: &str, suffix: &str) -> (r: bool)
    ensures
        r == has_dot_suffix_spec(h@, suffix@),
{
    let hn = h.unicode_len();
    let sn = suffix.unicode_len();
    if hn <= sn {
        return false;
    }
    let off = hn - sn;
    if h.get_char(off - 1) != '.' {
        return false;
    }
    let mut i: usize = 0;
    while i < sn
        invariant
            hn == h@.len(),
            sn == suffix@.len(),
            off == hn - sn,
            i <= sn,
            forall|j: int| 0 <= j < i ==> h@[off + j] == suffix@[j],
        decreases sn - i,
    {
        if h.get_char(off + i) != suffix.get_char(i) {
            assert(h@.subrange(off as int, hn as int)[i as int] != suffix@[i as int]);
            return false;
        }
        i += 1;
    }
    assert(h@.subrange(off as int, hn as int) =~= suffix@);
    true
}

} // verus!

verus! {

/// What `str::to_lowercase` returns for a text.
pub uninterp spec fn lower_of(s: Seq<char>) -> Seq<char>;

/// The characters with Unicode's White_Space property, which
/// `char::is_whitespace` tests.
pub open spec fn is_white_space(c: char) -> bool {
    let u = c as u32;
    (9 <= u <= 13) || u == 32 || u == 0x85 || u == 0xa0 || u == 0x1680 || (0x2000 <= u <= 0x200a)
        || u == 0x2028 || u == 0x2029 || u == 0x202f || u == 0x205f || u == 0x3000
}

/// `s` without its leading white space.
pub open spec fn strip_leading(s: Seq<char>) -> Seq<char>
    decreases s.len(),
{
    if s.len() > 0 && is_white_space(s[0]) {
        strip_leading(s.drop_first())
    } else {
        s
    }
}

/// `s` without its trailing white space.
pub open spec fn strip_trailing(s: Seq<char>) -> Seq<char>
    decreases s.len(),
{
    if s.len() > 0 && is_white_space(s.last()) {
        strip_trailing(s.drop_last())
    } else {
        s
    }
}

/// `s` without its leading and trailing white space.
pub open spec fn trim_of(s: Seq<char>) -> Seq<char> {
    strip_trailing(strip_leading(s))
}

/// Relies on `str::to_lowercase`: the result depends on the characters alone.
#[verifier::external_body]
pub fn lowercase(s: &str) -> (r: String)
    ensures
        r@ == lower_of(s@),
{
    s.to_lowercase()
}

/// Relies on `str::trim`, documented to remove leading and trailing white
/// space as Unicode's White_Space property defines it.
#[verifier::external_body]
pub fn trimmed(s: &str) -> (r: &str)
    ensures
        r@ == trim_of(s@),
{
    s.trim()
}

pub open spec fn digit_char(d: nat) -> char {
    "0123456789"@[d as int]
}

/// The decimal digits of `n`, most significant first.
pub open spec fn decimal(n: nat) -> Seq<char>
    decreases n,
{
    if n < 10 {
        seq![digit_char(n)]
    } else {
        decimal(n / 10).push(digit_char(n % 10))
    }
}

/// `n` written in decimal.
pub fn decimal_text(n: u64) -> (r: String)
    ensures
        r@ == decimal(n as nat),
    decreases n,
{
    let digits = "0123456789";
    proof {
        reveal_strlit("0123456789");
    }
    let d = (n % 10) as usize;
    let digit = digits.substring_char(d, d + 1);
    assert(digit@ =~= seq![digit_char(d as nat)]);
    if n < 10 {
        String::from_str(digit)
    } else {
        let r = decimal_text(n / 10).concat(digit);
        r
    }
}

/// The first `n` characters of `s`, or all of `s` where it is shorter.
pub open spec fn prefix_of(s: Seq<char>, n: nat) -> Seq<char> {
    if s.len() <= n {
        s
    } else {
        s.take(n as int)
    }
}

/// At most the first `n` characters of `s`.
pub fn take_chars(s: &str, n: usize) -> (r: String)
    ensures
        r@ == prefix_of(s@, n as nat),
{
    let len = s.unicode_len();
    if len <= n {
        String::from_str(s)
    } else {
        String::from_str(s.substring_char(0, n))
    }
}

/// `s` with every trailing `/` removed.
pub open spec fn without_trailing_slashes(s: Seq<char>) -> Seq<char>
    decreases s.len(),
{
    if s.len() > 0 && s.last() == '/' {
        without_trailing_slashes(s.drop_last())
    } else {
        s
    }
}

/// `s` without its trailing slashes.
pub fn trim_trailing_slashes(s: &str) -> (r: &str)
    ensures
        r@ == without_trailing_slashes(s@),
{
    let mut end = s.unicode_len();
    assert(s@.take(end as int) =~= s@);
    while end > 0 && s.get_char(end - 1) == '/'
        invariant
            end <= s@.len(),
            without_trailing_slashes(s@.take(end as int)) == without_trailing_slashes(s@),
        decreases end,
    {
        assert(s@.take(end as int).drop_last() =~= s@.take(end - 1));
        end -= 1;
    }
    assert(s@.subrange(0, end as int) =~= s@.take(end as int));
    s.substring_char(0, end)
}

/// `s` with each space written as `%20`.
pub open spec fn spaces_encoded(s: Seq<char>) -> Seq<char>
    decreases s.len(),
{
    if s.len() == 0 {
        Seq::empty()
    } else if s.last() == ' ' {
        spaces_encoded(s.drop_last()) + "%20"@
    } else {
        spaces_encoded(s.drop_last()).push(s.last())
    }
}

/// Writes each space of `s` as `%20`.
pub fn encode_spaces(s: &str) -> (r: String)
    ensures
        r@ == spaces_encoded(s@),
{
    let n = s.unicode_len();
    let mut out = String::new();
    let mut i: usize = 0;
    while i < n
        invariant
            n == s@.len(),
            i <= n,
            out@ == spaces_encoded(s@.take(i as int)),
        decreases n - i,
    {
        assert(s@.take(i + 1).drop_last() =~= s@.take(i as int));
        if s.get_char(i) == ' ' {
            out = out.concat("%20");
        } else {
            let c = s.substring_char(i, i + 1);
            assert(c@ =~= seq![s@[i as int]]);
            out = out.concat(c);
        }
        i += 1;
    }
    assert(s@.take(n as int) =~= s@);
    out
}

/// An amount of cents written as currency units with two decimals.
pub open spec fn money(cents: nat) -> Seq<char> {
    decimal(cents / 100) + seq!['.', digit_char((cents % 100) / 10), digit_char(cents % 10)]
}

fn digit_text(d: u64) -> (r: String)
    requires
        d < 10,
    ensures
        r@ == seq![digit_char(d as nat)],
{
    let digits = "0123456789";
    proof {
        reveal_strlit("0123456789");
    }
    let i = d as usize;
    let digit = digits.substring_char(i, i + 1);
    assert(digit@ =~= seq![digit_char(d as nat)]);
    String::from_str(digit)
}

/// `cents` written as units with two decimals, as in `12.05`.
pub fn money_text(cents: u64) -> (r: String)
    ensures
        r@ == money(cents as nat),
{
    let r = decimal_text(cents / 100).concat(".").concat(digit_text((cents % 100) / 10).as_str()).concat(
        digit_text(cents % 10).as_str(),
    );
    proof {
        reveal_strlit(".");
        assert(r@ =~= money(cents as nat));
    }
    r
}

} // verus!
