//! Verified text helpers shared across the crate: character-level views of
//! strings, prefix and substring tests, and decimal rendering and parsing.

use vstd::prelude::*;
use vstd::string::StrSliceExecFns;
use vstd::string::StringExecFns;

verus! {

/// Relies on `String::push`: appends one character.
#[verifier::external_body]
pub fn push_char(s: &mut String, c: char)
    ensures
        final(s)@ == old(s)@.push(c),
{
    s.push(c);
}

/// The characters of `s` as a vector, in order.
pub fn str_to_chars(s: &str) -> (r: Vec<char>)
    ensures
        r@ == s@,
{
    let n = s.unicode_len();
    let mut r: Vec<char> = Vec::new();
    let mut i: usize = 0;
    while i < n
        invariant
            n == s@.len(),
            i <= n,
            r@ == s@.subrange(0, i as int),
        decreases n - i,
    {
        r.push(s.get_char(i));
        i = i + 1;
    }
    assert(r@ =~= s@);
    r
}

/// A string holding exactly the characters of `v`, in order.
pub fn chars_to_string(v: &Vec<char>) -> (r: String)
    ensures
        r@ == v@,
{
    let mut r = String::new();
    let mut i: usize = 0;
    while i < v.len()
        invariant
            i <= v@.len(),
            r@ == v@.subrange(0, i as int),
        decreases v@.len() - i,
    {
        push_char(&mut r, v[i]);
        i = i + 1;
    }
    assert(r@ =~= v@);
    r
}

/// `p` is an initial segment of `s`.
pub open spec fn has_prefix(s: Seq<char>, p: Seq<char>) -> bool {
    p.len() <= s.len() && s.subrange(0, p.len() as int) == p
}

/// Whether the string starts with the given prefix.
pub fn starts_with(s: &str, p: &str) -> (b: bool)
    ensures
        b == has_prefix(s@, p@),
{
    let sv = str_to_chars(s);
    let pv = str_to_chars(p);
    if pv.len() > sv.len() {
        assert(!has_prefix(s@, p@));
        return false;
    }
    let mut i: usize = 0;
    while i < pv.len()
        invariant
            pv@.len() <= sv@.len(),
            sv@ == s@,
            pv@ == p@,
            i <= pv@.len(),
            forall|j: int| 0 <= j < i ==> sv@[j] == pv@[j],
        decreases pv@.len() - i,
    {
        if sv[i] != pv[i] {
            assert(s@.subrange(0, p@.len() as int)[i as int] != p@[i as int]);
            return false;
        }
        i = i + 1;
    }
    assert(s@.subrange(0, p@.len() as int) =~= p@);
    true
}

/// `sub` occurs in `s` starting at position `i`.
pub open spec fn has_substring_at(s: Seq<char>, sub: Seq<char>, i: int) -> bool {
    0 <= i && i + sub.len() <= s.len() && s.subrange(i, i + sub.len() as int) == sub
}

/// `sub` occurs somewhere in `s`.
pub open spec fn has_substring(s: Seq<char>, sub: Seq<char>) -> bool {
    exists|i: int| has_substring_at(s, sub, i)
}

fn match_at(sv: &Vec<char>, subv: &Vec<char>, i: usize) -> (b: bool)
    requires
        i + subv@.len() <= sv@.len(),
    ensures
        b == has_substring_at(sv@, subv@, i as int),
{
    let n = sv.len();
    let m = subv.len();
    let mut j: usize = 0;
    while j < m
        invariant
            n == sv@.len(),
            m == subv@.len(),
            i + m <= n,
            j <= m,
            forall|k: int| 0 <= k < j ==> sv@[i + k] == subv@[k],
        decreases m - j,
    {
        if sv[i + j] != subv[j] {
            assert(sv@.subrange(i as int, i + subv@.len() as int)[j as int] != subv@[j as int]);
            return false;
        }
        j = j + 1;
    }
    assert(sv@.subrange(i as int, i + subv@.len() as int) =~= subv@);
    true
}

/// Whether `sub` occurs as a contiguous substring of `s`.
pub fn contains_substring(s: &str, sub: &str) -> (b: bool)
    ensures
        b == has_substring(s@, sub@),
{
    let sv = str_to_chars(s);
    let subv = str_to_chars(sub);
    if subv.len() == 0 {
        assert(s@.subrange(0, 0) =~= sub@);
        assert(has_substring_at(s@, sub@, 0));
        return true;
    }
    if subv.len() > sv.len() {
        assert(forall|i: int| !has_substring_at(s@, sub@, i));
        return false;
    }
    let n = sv.len();
    let last = n - subv.len();
    let mut i: usize = 0;
    while i <= last
        invariant
            sv@ == s@,
            subv@ == sub@,
            subv@.len() >= 1,
            n == sv@.len(),
            last == sv@.len() - subv@.len(),
            last < n,
            i <= last + 1,
            forall|k: int| 0 <= k < i ==> !has_substring_at(sv@, subv@, k),
        decreases last + 1 - i,
    {
        if match_at(&sv, &subv, i) {
            return true;
        }
        i = i + 1;
    }
    assert forall|k: int| !has_substring_at(s@, sub@, k) by {
        if 0 <= k <= last {
            assert(!has_substring_at(sv@, subv@, k));
        }
    }
    false
}

/// The first position at or after `i` where `sub` occurs in `s`.
pub open spec fn spec_find_at(s: Seq<char>, sub: Seq<char>, i: int) -> Option<int>
    decreases s.len() - i when 0 <= i
{
    if i < 0 || i + sub.len() > s.len() {
        Option::None
    } else if sub.len() == 0 || s.subrange(i, i + sub.len() as int) == sub {
        Option::Some(i)
    } else {
        spec_find_at(s, sub, i + 1)
    }
}

/// The first occurrence of `sub` in `s`.
pub open spec fn spec_find(s: Seq<char>, sub: Seq<char>) -> Option<int> {
    spec_find_at(s, sub, 0)
}

/// A found occurrence lies within the string.
pub proof fn lemma_find_at_bounds(s: Seq<char>, sub: Seq<char>, i: int)
    requires
        0 <= i,
    ensures
        (spec_find_at(s, sub, i) matches Some(j) ==> i <= j && j + sub.len() <= s.len()),
    decreases s.len() - i,
{
    if i + sub.len() <= s.len() && !(sub.len() == 0 || s.subrange(i, i + sub.len() as int) == sub) {
        lemma_find_at_bounds(s, sub, i + 1);
    }
}

/// The position of the first occurrence of `sub` in `s`, if any.
pub fn find_substring(s: &str, sub: &str) -> (r: Option<usize>)
    ensures
        (match spec_find(s@, sub@) {
            Option::None => r is None,
            Option::Some(i) => r matches Some(j) && j as int == i,
        }),
{
    let sv = str_to_chars(s);
    let subv = str_to_chars(sub);
    if subv.len() > sv.len() {
        return None;
    }
    if subv.len() == 0 {
        assert(s@.subrange(0, 0) =~= sub@);
        return Some(0);
    }
    let n = sv.len();
    let m = subv.len();
    let mut i: usize = 0;
    while i <= n - m
        invariant
            sv@ == s@,
            subv@ == sub@,
            n == sv@.len(),
            m == subv@.len(),
            1 <= m <= n,
            0 <= i <= n - m + 1,
            spec_find_at(sv@, subv@, 0) == spec_find_at(sv@, subv@, i as int),
        decreases n - i,
    {
        if match_at(&sv, &subv, i) {
            assert(spec_find_at(sv@, subv@, i as int) == Option::Some(i as int));
            return Some(i);
        }
        i = i + 1;
    }
    assert(spec_find_at(sv@, subv@, i as int) is None);
    None
}

/// The decimal digit character for `d`.
pub open spec fn spec_digit(d: int) -> char
    recommends
        0 <= d < 10,
{
    seq!['0', '1', '2', '3', '4', '5', '6', '7', '8', '9'][d]
}

/// The decimal rendering of `n`, most significant digit first.
pub open spec fn spec_dec(n: nat) -> Seq<char>
    decreases n,
{
    if n < 10 {
        seq![spec_digit(n as int)]
    } else {
        spec_dec(n / 10).push(spec_digit((n % 10) as int))
    }
}

fn digit_char(d: u64) -> (c: char)
    requires
        d < 10,
    ensures
        c == spec_digit(d as int),
{
    if d == 0 { '0' }
    else if d == 1 { '1' }
    else if d == 2 { '2' }
    else if d == 3 { '3' }
    else if d == 4 { '4' }
    else if d == 5 { '5' }
    else if d == 6 { '6' }
    else if d == 7 { '7' }
    else if d == 8 { '8' }
    else { '9' }
}

fn dec_u64_chars(n: u64) -> (r: Vec<char>)
    ensures
        r@ == spec_dec(n as nat),
    decreases n,
{
    if n < 10 {
        let mut r: Vec<char> = Vec::new();
        r.push(digit_char(n));
        assert(r@ =~= spec_dec(n as nat));
        r
    } else {
        let mut r = dec_u64_chars(n / 10);
        r.push(digit_char(n % 10));
        assert(r@ =~= spec_dec(n as nat));
        r
    }
}

/// The decimal rendering of `n`.
pub fn u64_to_dec(n: u64) -> (r: String)
    ensures
        r@ == spec_dec(n as nat),
{
    let v = dec_u64_chars(n);
    chars_to_string(&v)
}

/// The decimal rendering of `n`, with a leading `-` when negative.
pub open spec fn spec_dec_i64(n: int) -> Seq<char> {
    if n >= 0 {
        spec_dec(n as nat)
    } else {
        seq!['-'] + spec_dec((-n) as nat)
    }
}

/// The decimal rendering of a signed value.
pub fn i64_to_dec(n: i64) -> (r: String)
    ensures
        r@ == spec_dec_i64(n as int),
{
    if n >= 0 {
        u64_to_dec(n as u64)
    } else {
        let m: u64 = ((-(n + 1)) as u64) + 1;
        assert(m as nat == (-(n as int)) as nat);
        let d = dec_u64_chars(m);
        let mut v: Vec<char> = Vec::new();
        v.push('-');
        let mut i: usize = 0;
        while i < d.len()
            invariant
                d@ == spec_dec((-(n as int)) as nat),
                i <= d@.len(),
                v@ == seq!['-'] + d@.subrange(0, i as int),
            decreases d@.len() - i,
        {
            v.push(d[i]);
            assert(v@ =~= seq!['-'] + d@.subrange(0, i + 1 as int));
            i = i + 1;
        }
        assert(v@ =~= spec_dec_i64(n as int));
        chars_to_string(&v)
    }
}

/// Every character of a decimal rendering is a digit.
pub proof fn lemma_dec_digits_only(n: nat)
    ensures
        forall|i: int|
            0 <= i < spec_dec(n).len() ==> '0' <= #[trigger] spec_dec(n)[i] <= '9',
        spec_dec(n).len() >= 1,
    decreases n,
{
    if n >= 10 {
        lemma_dec_digits_only(n / 10);
    }
}

/// The numeric value of a sequence of decimal digit characters.
pub open spec fn spec_dec_value(s: Seq<char>) -> int
    decreases s.len(),
{
    if s.len() == 0 {
        0
    } else {
        spec_dec_value(s.drop_last()) * 10 + (s.last() as int - '0' as int)
    }
}

/// The value of a digit character is the digit.
pub proof fn lemma_digit_value(d: int)
    requires
        0 <= d < 10,
    ensures
        spec_digit(d) as int - '0' as int == d,
        '0' <= spec_digit(d) <= '9',
{
    if d == 0 {
    } else if d == 1 {
    } else if d == 2 {
    } else if d == 3 {
    } else if d == 4 {
    } else if d == 5 {
    } else if d == 6 {
    } else if d == 7 {
    } else if d == 8 {
    } else {
        assert(spec_digit(9) == '9');
    }
}

/// Reading back a decimal rendering yields the original value.
pub proof fn lemma_dec_round_trip(n: nat)
    ensures
        spec_dec_value(spec_dec(n)) == n,
    decreases n,
{
    if n < 10 {
        lemma_digit_value(n as int);
        assert(spec_dec(n).drop_last() =~= Seq::<char>::empty());
        assert(spec_dec(n).last() == spec_digit(n as int));
        assert(spec_dec_value(spec_dec(n)) == spec_dec_value(Seq::<char>::empty()) * 10 + (
        spec_digit(n as int) as int - '0' as int));
    } else {
        lemma_dec_round_trip(n / 10);
        lemma_digit_value((n % 10) as int);
        assert(spec_dec(n).drop_last() =~= spec_dec(n / 10));
        assert(spec_dec(n).last() == spec_digit((n % 10) as int));
        assert(spec_dec_value(spec_dec(n)) == spec_dec_value(spec_dec(n / 10)) * 10 + (spec_digit(
        (n % 10) as int,
        ) as int - '0' as int));
        assert(n == 10 * (n / 10) + n % 10) by {
            vstd::arithmetic::div_mod::lemma_fundamental_div_mod(n as int, 10);
        };
    }
}

/// Whether two character vectors hold the same characters.
pub fn chars_equal(a: &Vec<char>, b: &Vec<char>) -> (r: bool)
    ensures
        r == (a@ == b@),
{
    if a.len() != b.len() {
        return false;
    }
    let mut i: usize = 0;
    while i < a.len()
        invariant
            a@.len() == b@.len(),
            i <= a@.len(),
            forall|k: int| 0 <= k < i ==> a@[k] == b@[k],
        decreases a@.len() - i,
    {
        if a[i] != b[i] {
            return false;
        }
        i = i + 1;
    }
    assert(a@ =~= b@);
    true
}

/// Whether two strings hold the same characters.
pub fn str_eq(a: &str, b: &str) -> (r: bool)
    ensures
        r == (a@ == b@),
{
    let av = str_to_chars(a);
    let bv = str_to_chars(b);
    chars_equal(&av, &bv)
}

/// The lowercase folding of a string, as the standard library computes it.
pub uninterp spec fn spec_lower(s: Seq<char>) -> Seq<char>;

/// Relies on `str::to_lowercase`: the Unicode lowercase mapping, a function
/// of the characters alone; an empty string stays empty.
#[verifier::external_body]
pub fn to_lowercase(s: &str) -> (r: String)
    ensures
        r@ == spec_lower(s@),
        s@.len() == 0 ==> r@.len() == 0,
{
    s.to_lowercase()
}

/// Whether the character is Unicode-alphanumeric.
pub uninterp spec fn spec_is_alphanumeric(c: char) -> bool;

/// Relies on `char::is_alphanumeric`: the Unicode `Alphabetic` property or a
/// numeric general category. ASCII letters and digits have it; ASCII
/// punctuation and the space do not.
#[verifier::external_body]
pub fn char_is_alphanumeric(c: char) -> (r: bool)
    ensures
        r == spec_is_alphanumeric(c),
        ('a' <= c && c <= 'z') || ('A' <= c && c <= 'Z') || ('0' <= c && c <= '9') ==> r,
        c == '-' || c == '_' || c == '/' || c == '.' || c == ' ' || c == ':' ==> !r,
{
    c.is_alphanumeric()
}

/// Whether the character has the Unicode `White_Space` property.
pub uninterp spec fn spec_is_whitespace(c: char) -> bool;

/// Relies on `char::is_whitespace`: the Unicode `White_Space` property. The
/// ASCII space, tab, line feed and carriage return have it; printable ASCII
/// characters other than the space do not.
#[verifier::external_body]
pub fn char_is_whitespace(c: char) -> (r: bool)
    ensures
        r == spec_is_whitespace(c),
        c == ' ' || c == '\t' || c == '\n' || c == '\r' ==> r,
        ' ' < c && c <= '~' ==> !r,
{
    c.is_whitespace()
}

/// Every character of `s` is whitespace (true of the empty string).
pub open spec fn spec_is_blank(s: Seq<char>) -> bool {
    forall|i: int| 0 <= i < s.len() ==> spec_is_whitespace(#[trigger] s[i])
}

/// Whether the string is empty or all whitespace.
pub fn is_blank(s: &str) -> (r: bool)
    ensures
        r == spec_is_blank(s@),
{
    let v = str_to_chars(s);
    let mut i: usize = 0;
    while i < v.len()
        invariant
            v@ == s@,
            i <= v@.len(),
            forall|k: int| 0 <= k < i ==> spec_is_whitespace(#[trigger] v@[k]),
        decreases v@.len() - i,
    {
        if !char_is_whitespace(v[i]) {
            return false;
        }
        i = i + 1;
    }
    true
}

/// The first position at or after `i` holding a non-whitespace character.
pub open spec fn spec_first_non_ws(s: Seq<char>, i: int) -> int
    decreases s.len() - i when 0 <= i <= s.len()
{
    if i < 0 || i >= s.len() {
        i
    } else if spec_is_whitespace(s[i]) {
        spec_first_non_ws(s, i + 1)
    } else {
        i
    }
}

/// The position after the last non-whitespace character at or after `a`,
/// scanning down from `j`.
pub open spec fn spec_last_non_ws(s: Seq<char>, a: int, j: int) -> int
    decreases j - a when a <= j <= s.len()
{
    if j <= a || j > s.len() {
        j
    } else if spec_is_whitespace(s[j - 1]) {
        spec_last_non_ws(s, a, j - 1)
    } else {
        j
    }
}

/// `s` with leading whitespace removed.
pub open spec fn spec_trim_start(s: Seq<char>) -> Seq<char> {
    s.subrange(spec_first_non_ws(s, 0), s.len() as int)
}

/// The index of the first non-whitespace character of `v` (its length when
/// all of it is whitespace).
pub fn first_non_ws_index(v: &Vec<char>) -> (a: usize)
    ensures
        a as int == spec_first_non_ws(v@, 0),
        a <= v@.len(),
{
    let n = v.len();
    let mut a: usize = 0;
    let mut stop = false;
    while a < n && !stop
        invariant
            n == v@.len(),
            0 <= a <= n,
            spec_first_non_ws(v@, 0) == spec_first_non_ws(v@, a as int),
            stop ==> a < n && !spec_is_whitespace(v@[a as int]),
        decreases n - a, 1int - (if stop { 1int } else { 0int }),
    {
        if !char_is_whitespace(v[a]) {
            stop = true;
            continue;
        }
        a = a + 1;
    }
    assert(spec_first_non_ws(v@, a as int) == a as int);
    a
}

/// The string with leading whitespace removed.
pub fn trim_start_str(s: &str) -> (r: String)
    ensures
        r@ == spec_trim_start(s@),
{
    let v = str_to_chars(s);
    let a = first_non_ws_index(&v);
    let tail = subvec_chars(&v, a, v.len());
    chars_to_string(&tail)
}

/// `s` with leading and trailing whitespace removed.
pub open spec fn spec_trim(s: Seq<char>) -> Seq<char> {
    let a = spec_first_non_ws(s, 0);
    let b = spec_last_non_ws(s, a, s.len() as int);
    s.subrange(a, b)
}

/// What the forward whitespace scan finds: everything before it is
/// whitespace, and it stops at the end or at a non-whitespace character.
pub proof fn lemma_first_non_ws_props(s: Seq<char>, i: int)
    requires
        0 <= i <= s.len(),
    ensures
        i <= spec_first_non_ws(s, i) <= s.len(),
        forall|k: int| i <= k < spec_first_non_ws(s, i) ==> spec_is_whitespace(#[trigger] s[k]),
        spec_first_non_ws(s, i) < s.len() ==> !spec_is_whitespace(s[spec_first_non_ws(s, i)]),
    decreases s.len() - i,
{
    if i < s.len() && spec_is_whitespace(s[i]) {
        lemma_first_non_ws_props(s, i + 1);
    }
}

/// The backward whitespace scan stays above a non-whitespace character.
pub proof fn lemma_last_non_ws_pos(s: Seq<char>, a: int, j: int)
    requires
        0 <= a < j <= s.len(),
        !spec_is_whitespace(s[a]),
    ensures
        a < spec_last_non_ws(s, a, j) <= j,
    decreases j - a,
{
    if spec_is_whitespace(s[j - 1]) && j - 1 > a {
        lemma_last_non_ws_pos(s, a, j - 1);
    }
}

/// A string is blank exactly when its trim is empty.
pub proof fn lemma_blank_trim(s: Seq<char>)
    ensures
        spec_is_blank(s) <==> spec_trim(s).len() == 0,
{
    lemma_first_non_ws_props(s, 0);
    let a = spec_first_non_ws(s, 0);
    if spec_is_blank(s) {
        assert(a == s.len());
        assert(spec_last_non_ws(s, a, s.len() as int) == s.len());
    } else {
        assert(a < s.len());
        lemma_last_non_ws_pos(s, a, s.len() as int);
    }
}

/// The string with leading and trailing whitespace removed.
pub fn trim_str(s: &str) -> (r: String)
    ensures
        r@ == spec_trim(s@),
{
    let v = str_to_chars(s);
    let n = v.len();
    let mut a: usize = 0;
    let mut stop_front = false;
    while a < n && !stop_front
        invariant
            n == v@.len(),
            v@ == s@,
            0 <= a <= n,
            spec_first_non_ws(v@, 0) == spec_first_non_ws(v@, a as int),
            stop_front ==> a < n && !spec_is_whitespace(v@[a as int]),
        decreases n - a, 1int - (if stop_front { 1int } else { 0int }),
    {
        if !char_is_whitespace(v[a]) {
            stop_front = true;
            continue;
        }
        a = a + 1;
    }
    assert(a as int == spec_first_non_ws(v@, 0)) by {
        assert(spec_first_non_ws(v@, a as int) == a as int);
    }
    let mut b: usize = n;
    let mut stop_back = false;
    while b > a && !stop_back
        invariant
            n == v@.len(),
            v@ == s@,
            a <= b <= n,
            a as int == spec_first_non_ws(v@, 0),
            spec_last_non_ws(v@, a as int, n as int) == spec_last_non_ws(v@, a as int, b as int),
            stop_back ==> b > a && !spec_is_whitespace(v@[b - 1]),
        decreases b, 1int - (if stop_back { 1int } else { 0int }),
    {
        if !char_is_whitespace(v[b - 1]) {
            stop_back = true;
            continue;
        }
        b = b - 1;
    }
    assert(spec_last_non_ws(v@, a as int, n as int) == b as int) by {
        assert(spec_last_non_ws(v@, a as int, b as int) == b as int);
    }
    let mid = subvec_chars(&v, a, b);
    chars_to_string(&mid)
}

/// The characters of `v` from `a` (inclusive) to `b` (exclusive).
pub fn subvec_chars(v: &Vec<char>, a: usize, b: usize) -> (r: Vec<char>)
    requires
        a <= b <= v@.len(),
    ensures
        r@ == v@.subrange(a as int, b as int),
{
    let mut r: Vec<char> = Vec::new();
    let mut i: usize = a;
    while i < b
        invariant
            a <= i <= b <= v@.len(),
            r@ == v@.subrange(a as int, i as int),
        decreases b - i,
    {
        r.push(v[i]);
        assert(r@ =~= v@.subrange(a as int, i + 1 as int));
        i = i + 1;
    }
    r
}

/// `s` cut to at most `max` characters, with `...` appended when cut.
pub open spec fn spec_clip(s: Seq<char>, max: int) -> Seq<char> {
    if s.len() <= max {
        s
    } else {
        s.subrange(0, max) + "..."@
    }
}

/// Clip a message to at most `max` characters, appending `...` when clipped.
pub fn clip_message(msg: &str, max: usize) -> (r: String)
    ensures
        r@ == spec_clip(msg@, max as int),
{
    let v = str_to_chars(msg);
    if v.len() <= max {
        return chars_to_string(&v);
    }
    let mut out: Vec<char> = Vec::new();
    let mut i: usize = 0;
    while i < max
        invariant
            max < v@.len(),
            v@ == msg@,
            i <= max,
            out@ == v@.subrange(0, i as int),
        decreases max - i,
    {
        out.push(v[i]);
        i = i + 1;
    }
    let mut s = chars_to_string(&out);
    s.append("...");
    assert(s@ =~= msg@.subrange(0, max as int) + "..."@);
    s
}

/// Captured stdout and stderr as one text: the two parts joined by a newline
/// when both are non-empty.
pub open spec fn spec_combined(a: Seq<char>, b: Seq<char>) -> Seq<char> {
    if a.len() == 0 {
        b
    } else if b.len() == 0 {
        a
    } else {
        a + "\n"@ + b
    }
}

/// Combine captured stdout and stderr into one tool output.
pub fn combine_output(stdout: &str, stderr: &str) -> (r: String)
    ensures
        r@ == spec_combined(stdout@, stderr@),
{
    let sv = str_to_chars(stdout);
    let ev = str_to_chars(stderr);
    if sv.len() == 0 {
        return chars_to_string(&ev);
    }
    if ev.len() == 0 {
        return chars_to_string(&sv);
    }
    let mut s = chars_to_string(&sv);
    s.append("\n");
    let e = chars_to_string(&ev);
    s.append(e.as_str());
    s
}

} // verus!
