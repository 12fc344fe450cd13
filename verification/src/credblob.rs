//! The serialized form of a credential record.
//!
//! Secure storage holds one opaque text blob per credential. The blob is a
//! sequence of five length-prefixed fields (access token, refresh token,
//! account id, email, display name) followed by the optional expiry:
//! each field is written as `<decimal length>:<contents>`, and the expiry as
//! `N` when absent or `E<decimal seconds>` when present. Encoding and
//! parsing are verified to round-trip exactly.

use vstd::prelude::*;
use vstd::string::StrSliceExecFns;
use vstd::string::StringExecFns;
use crate::textutil::chars_to_string;
use crate::textutil::i64_to_dec;
use crate::textutil::lemma_dec_digits_only;
use crate::textutil::lemma_dec_round_trip;
use crate::textutil::spec_dec;
use crate::textutil::spec_dec_i64;
use crate::textutil::spec_dec_value;
use crate::textutil::str_to_chars;
use crate::textutil::subvec_chars;
use crate::textutil::u64_to_dec;

verus! {

/// One stored credential record.
pub struct Credential {
    pub access_token: String,
    pub refresh_token: String,
    pub account_id: String,
    pub email: String,
    pub name: String,
    /// Absolute expiry in epoch seconds; `None` for tokens without a known
    /// expiry (manually entered API keys).
    pub expires_at: Option<i64>,
}

/// `c` is a decimal digit.
pub open spec fn is_digit(c: char) -> bool {
    '0' <= c && c <= '9'
}

/// The encoding of one field: its length in decimal, a colon, its contents.
pub open spec fn spec_seg(x: Seq<char>) -> Seq<char> {
    spec_dec(x.len()) + seq![':'] + x
}

/// The concatenated encodings of a list of fields.
pub open spec fn spec_encode_fields(xs: Seq<Seq<char>>) -> Seq<char>
    decreases xs.len(),
{
    if xs.len() == 0 {
        Seq::empty()
    } else {
        spec_seg(xs[0]) + spec_encode_fields(xs.drop_first())
    }
}

/// The encoding of the optional expiry.
pub open spec fn spec_encode_expiry(e: Option<int>) -> Seq<char> {
    match e {
        Option::None => seq!['N'],
        Option::Some(t) => seq!['E'] + spec_dec_i64(t),
    }
}

/// The five textual fields of a credential, in blob order.
pub open spec fn spec_fields_of(c: Credential) -> Seq<Seq<char>> {
    seq![c.access_token@, c.refresh_token@, c.account_id@, c.email@, c.name@]
}

/// The expiry of a credential as a mathematical integer.
pub open spec fn spec_expiry_of(c: Credential) -> Option<int> {
    match c.expires_at {
        Option::None => Option::None,
        Option::Some(t) => Option::Some(t as int),
    }
}

/// The full blob for a credential.
pub open spec fn spec_encode_credential(c: Credential) -> Seq<char> {
    spec_encode_fields(spec_fields_of(c)) + spec_encode_expiry(spec_expiry_of(c))
}

/// The end of the run of digits starting at `i`.
pub open spec fn scan_digits(s: Seq<char>, i: int) -> int
    decreases s.len() - i when i <= s.len()
{
    if i < 0 || i >= s.len() {
        i
    } else if is_digit(s[i]) {
        scan_digits(s, i + 1)
    } else {
        i
    }
}

/// Parse `<decimal length>:` at `i`: the length and the position after the
/// colon.
pub open spec fn parse_len(s: Seq<char>, i: int) -> Option<(int, int)> {
    let j = scan_digits(s, i);
    if j == i || j >= s.len() || s[j] != ':' {
        Option::None
    } else {
        Option::Some((spec_dec_value(s.subrange(i, j)), j + 1))
    }
}

/// Parse one length-prefixed field at `i`: its contents and the position
/// after it.
pub open spec fn parse_seg(s: Seq<char>, i: int) -> Option<(Seq<char>, int)> {
    match parse_len(s, i) {
        Option::None => Option::None,
        Option::Some((n, k)) => if k + n <= s.len() {
            Option::Some((s.subrange(k, k + n), k + n))
        } else {
            Option::None
        },
    }
}

/// Parse `count` consecutive fields at `i`.
pub open spec fn parse_fields(s: Seq<char>, i: int, count: nat) -> Option<(Seq<Seq<char>>, int)>
    decreases count,
{
    if count == 0 {
        Option::Some((Seq::empty(), i))
    } else {
        match parse_seg(s, i) {
            Option::None => Option::None,
            Option::Some((x, j)) => match parse_fields(s, j, (count - 1) as nat) {
                Option::None => Option::None,
                Option::Some((xs, k)) => Option::Some((seq![x] + xs, k)),
            },
        }
    }
}

/// Parse a whole string as an unsigned decimal number.
pub open spec fn parse_all_digits(s: Seq<char>) -> Option<int> {
    if s.len() >= 1 && scan_digits(s, 0) == s.len() {
        Option::Some(spec_dec_value(s))
    } else {
        Option::None
    }
}

/// Parse a whole string as a signed decimal number within `i64` range.
pub open spec fn parse_signed(s: Seq<char>) -> Option<int> {
    if s.len() >= 1 && s[0] == '-' {
        match parse_all_digits(s.subrange(1, s.len() as int)) {
            Option::None => Option::None,
            Option::Some(v) => if -v >= i64::MIN as int {
                Option::Some(-v)
            } else {
                Option::None
            },
        }
    } else {
        match parse_all_digits(s) {
            Option::None => Option::None,
            Option::Some(v) => if v <= i64::MAX as int {
                Option::Some(v)
            } else {
                Option::None
            },
        }
    }
}

/// Parse the expiry marker that ends the blob at `i`.
pub open spec fn parse_expiry(s: Seq<char>, i: int) -> Option<Option<int>> {
    if 0 <= i < s.len() && s[i] == 'N' && i + 1 == s.len() {
        Option::Some(Option::None)
    } else if 0 <= i < s.len() && s[i] == 'E' {
        match parse_signed(s.subrange(i + 1, s.len() as int)) {
            Option::None => Option::None,
            Option::Some(v) => Option::Some(Option::Some(v)),
        }
    } else {
        Option::None
    }
}

/// Parse a whole blob: five fields, then the expiry.
pub open spec fn spec_parse_credential(s: Seq<char>) -> Option<(Seq<Seq<char>>, Option<int>)> {
    match parse_fields(s, 0, 5) {
        Option::None => Option::None,
        Option::Some((xs, i)) => match parse_expiry(s, i) {
            Option::None => Option::None,
            Option::Some(e) => Option::Some((xs, e)),
        },
    }
}

/// `c` carries exactly the parsed fields and expiry.
pub open spec fn credential_matches(c: Credential, fs: Seq<Seq<char>>, e: Option<int>) -> bool {
    &&& fs.len() == 5
    &&& c.access_token@ == fs[0]
    &&& c.refresh_token@ == fs[1]
    &&& c.account_id@ == fs[2]
    &&& c.email@ == fs[3]
    &&& c.name@ == fs[4]
    &&& spec_expiry_of(c) == e
}

/// A run known to consist of digits, ended by a non-digit or the end of the
/// string, is exactly what `scan_digits` finds.
proof fn lemma_scan_digits_run(s: Seq<char>, i: int, j: int)
    requires
        0 <= i <= j <= s.len(),
        forall|k: int| i <= k < j ==> is_digit(#[trigger] s[k]),
        j == s.len() || !is_digit(s[j]),
    ensures
        scan_digits(s, i) == j,
    decreases j - i,
{
    if i < j {
        lemma_scan_digits_run(s, i + 1, j);
    }
}

/// Parsing a region that holds the encoding of field `x` yields `x` and
/// stops right after it.
proof fn lemma_parse_seg_of_encoding(s: Seq<char>, i: int, x: Seq<char>)
    requires
        0 <= i,
        i + spec_seg(x).len() <= s.len(),
        s.subrange(i, i + spec_seg(x).len() as int) == spec_seg(x),
    ensures
        parse_seg(s, i) == Option::Some((x, i + spec_seg(x).len() as int)),
{
    lemma_dec_digits_only(x.len());
    let d = spec_dec(x.len()).len() as int;
    let region = s.subrange(i, i + spec_seg(x).len() as int);
    assert forall|k: int| i <= k < i + d implies is_digit(#[trigger] s[k]) by {
        assert(s[k] == region[k - i]);
        assert(region[k - i] == spec_dec(x.len())[k - i]);
    }
    assert(s[i + d] == region[d]);
    assert(region[d] == ':');
    lemma_scan_digits_run(s, i, i + d);
    assert(s.subrange(i, i + d) =~= spec_dec(x.len()));
    lemma_dec_round_trip(x.len());
    let k = i + d + 1;
    assert(parse_len(s, i) == Option::Some((x.len() as int, k)));
    assert(s.subrange(k, k + x.len() as int) =~= x) by {
        assert forall|m: int| 0 <= m < x.len() implies s.subrange(k, k + x.len() as int)[m] == x[m]
        by {
            assert(s[k + m] == region[d + 1 + m]);
            assert(region[d + 1 + m] == x[m]);
        }
    }
}

/// Parsing a region that holds the encodings of the fields `xs` yields `xs`
/// and stops right after them.
proof fn lemma_parse_fields_of_encoding(s: Seq<char>, i: int, xs: Seq<Seq<char>>)
    requires
        0 <= i,
        i + spec_encode_fields(xs).len() <= s.len(),
        s.subrange(i, i + spec_encode_fields(xs).len() as int) == spec_encode_fields(xs),
    ensures
        parse_fields(s, i, xs.len()) == Option::Some(
            (xs, i + spec_encode_fields(xs).len() as int),
        ),
    decreases xs.len(),
{
    if xs.len() == 0 {
        assert(parse_fields(s, i, 0) == Option::Some((Seq::<Seq<char>>::empty(), i)));
        assert(xs =~= Seq::<Seq<char>>::empty());
    } else {
        let x = xs[0];
        let rest = xs.drop_first();
        let total = spec_encode_fields(xs).len() as int;
        let seglen = spec_seg(x).len() as int;
        let restlen = spec_encode_fields(rest).len() as int;
        assert(spec_encode_fields(xs) == spec_seg(x) + spec_encode_fields(rest));
        assert(total == seglen + restlen);
        assert(s.subrange(i, i + seglen) =~= spec_seg(x)) by {
            assert forall|m: int| 0 <= m < seglen implies s.subrange(i, i + seglen)[m] == spec_seg(
                x,
            )[m] by {
                assert(s[i + m] == s.subrange(i, i + total)[m]);
                assert(spec_encode_fields(xs)[m] == (spec_seg(x) + spec_encode_fields(rest))[m]);
            }
        }
        lemma_parse_seg_of_encoding(s, i, x);
        let j = i + seglen;
        assert(s.subrange(j, j + restlen) =~= spec_encode_fields(rest)) by {
            assert forall|m: int| 0 <= m < restlen implies s.subrange(j, j + restlen)[m]
                == spec_encode_fields(rest)[m] by {
                assert(s[j + m] == s.subrange(i, i + total)[seglen + m]);
                assert(spec_encode_fields(xs)[seglen + m] == (spec_seg(x) + spec_encode_fields(
                    rest,
                ))[seglen + m]);
            }
        }
        lemma_parse_fields_of_encoding(s, j, rest);
        assert(xs =~= seq![x] + rest);
    }
}

/// Parsing the tail that holds the encoding of expiry `e` yields `e`.
proof fn lemma_parse_expiry_of_encoding(s: Seq<char>, i: int, e: Option<int>)
    requires
        0 <= i,
        i + spec_encode_expiry(e).len() == s.len(),
        s.subrange(i, s.len() as int) == spec_encode_expiry(e),
        (e matches Some(t) ==> i64::MIN <= t <= i64::MAX),
    ensures
        parse_expiry(s, i) == Option::Some(e),
{
    let region = s.subrange(i, s.len() as int);
    match e {
        Option::None => {
            assert(s[i] == region[0]);
        },
        Option::Some(t) => {
            assert(s[i] == region[0]);
            assert(s[i] == 'E');
            let rest = s.subrange(i + 1, s.len() as int);
            assert(rest =~= spec_dec_i64(t)) by {
                assert forall|m: int| 0 <= m < rest.len() implies rest[m] == spec_dec_i64(t)[m] by {
                    assert(rest[m] == region[1 + m]);
                    assert(region[1 + m] == (seq!['E'] + spec_dec_i64(t))[1 + m]);
                }
            }
            if t >= 0 {
                lemma_dec_digits_only(t as nat);
                lemma_scan_digits_run(rest, 0, rest.len() as int);
                lemma_dec_round_trip(t as nat);
                assert(rest[0] != '-');
                assert(parse_all_digits(rest) == Option::Some(t));
            } else {
                lemma_dec_digits_only((-t) as nat);
                assert(rest[0] == '-');
                let digits = rest.subrange(1, rest.len() as int);
                assert(digits =~= spec_dec((-t) as nat));
                lemma_scan_digits_run(digits, 0, digits.len() as int);
                lemma_dec_round_trip((-t) as nat);
                assert(parse_all_digits(digits) == Option::Some(-t as int));
            }
        },
    }
}

/// Law: parsing the encoding of any credential yields exactly its fields and
/// expiry — the blob round-trips.
pub proof fn lemma_credential_round_trip(c: Credential)
    ensures
        spec_parse_credential(spec_encode_credential(c)) matches Some((fs, e))
            && credential_matches(c, fs, e),
{
    let s = spec_encode_credential(c);
    let xs = spec_fields_of(c);
    let e = spec_expiry_of(c);
    let flen = spec_encode_fields(xs).len() as int;
    assert(s.subrange(0, flen) =~= spec_encode_fields(xs));
    lemma_parse_fields_of_encoding(s, 0, xs);
    assert(s.subrange(flen, s.len() as int) =~= spec_encode_expiry(e));
    lemma_parse_expiry_of_encoding(s, flen, e);
}

/// Scan the run of digits starting at `i`, accumulating its value exactly up
/// to `cap`; a result of `None` means the value exceeds `cap`.
fn scan_digits_capped(v: &Vec<char>, i: usize, cap: u128) -> (r: (usize, Option<u128>))
    requires
        i <= v@.len(),
        cap <= u64::MAX as u128,
    ensures
        r.0 as int == scan_digits(v@, i as int),
        i <= r.0 <= v@.len(),
        (match r.1 {
            Option::Some(n) => n as int == spec_dec_value(v@.subrange(i as int, r.0 as int)) && n
                <= cap,
            Option::None => spec_dec_value(v@.subrange(i as int, r.0 as int)) > cap,
        }),
{
    let n = v.len();
    let mut j: usize = i;
    let mut acc: u128 = 0;
    let mut over = false;
    let mut stop = false;
    assert(v@.subrange(i as int, i as int) =~= Seq::<char>::empty());
    while j < n && !stop
        invariant
            i <= j <= n,
            n == v@.len(),
            cap <= u64::MAX as u128,
            forall|k: int| i <= k < j ==> is_digit(#[trigger] v@[k]),
            stop ==> j < n && !is_digit(v@[j as int]),
            !over ==> acc as int == spec_dec_value(v@.subrange(i as int, j as int)) && acc <= cap,
            over ==> spec_dec_value(v@.subrange(i as int, j as int)) > cap,
        decreases n - j, 1int - (if stop { 1int } else { 0int }),
    {
        let c = v[j];
        if !(c >= '0' && c <= '9') {
            stop = true;
            continue;
        }
        let d: u128 = (c as u32 - '0' as u32) as u128;
        proof {
            assert(v@.subrange(i as int, j + 1 as int).drop_last() =~= v@.subrange(
                i as int,
                j as int,
            ));
            assert(v@.subrange(i as int, j + 1 as int).last() == v@[j as int]);
        }
        if over {
            proof {
                let sv = spec_dec_value(v@.subrange(i as int, j as int));
                assert(sv * 10 + d >= sv) by (nonlinear_arith)
                    requires
                        sv > 0,
                        d >= 0,
                ;
            }
        } else {
            let next = acc * 10 + d;
            if next > cap {
                over = true;
            } else {
                acc = next;
            }
        }
        j = j + 1;
    }
    proof {
        lemma_scan_digits_run(v@, i as int, j as int);
    }
    (j, if over {
        Option::None
    } else {
        Option::Some(acc)
    })
}

/// Parse one length-prefixed field at `i`, exactly as the specification
/// parser does.
fn parse_seg_exec(v: &Vec<char>, i: usize) -> (r: Option<(String, usize)>)
    requires
        i <= v@.len(),
    ensures
        (match parse_seg(v@, i as int) {
            Option::None => r is None,
            Option::Some((x, j)) => (r matches Some((s, jj)) && s@ == x && jj as int == j && i <= jj
                <= v@.len()),
        }),
{
    let n = v.len();
    let (j, val) = scan_digits_capped(v, i, usize::MAX as u128);
    if j == i {
        return None;
    }
    if j >= n {
        return None;
    }
    if v[j] != ':' {
        return None;
    }
    let k = j + 1;
    match val {
        Option::None => {
            // The length exceeds the length of any real string, so the
            // contents cannot fit.
            assert(spec_dec_value(v@.subrange(i as int, j as int)) > v@.len());
            None
        },
        Option::Some(len128) => {
            let len = len128 as usize;
            if len > n - k {
                return None;
            }
            let content = subvec_chars(v, k, k + len);
            let s = chars_to_string(&content);
            Some((s, k + len))
        },
    }
}

/// Parse the trailing expiry marker at `i`, exactly as the specification
/// parser does.
fn parse_expiry_exec(v: &Vec<char>, i: usize) -> (r: Option<Option<i64>>)
    requires
        i <= v@.len(),
    ensures
        (match parse_expiry(v@, i as int) {
            Option::None => r is None,
            Option::Some(e) => (r matches Some(re) && (match (re, e) {
                (Option::None, Option::None) => true,
                (Option::Some(t), Option::Some(x)) => t as int == x,
                _ => false,
            })),
        }),
{
    let n = v.len();
    if i >= n {
        return None;
    }
    let c = v[i];
    if c == 'N' {
        if i + 1 == n {
            return Some(None);
        }
        return None;
    }
    if c != 'E' {
        return None;
    }
    let rest = subvec_chars(v, i + 1, n);
    match parse_i64_text(&rest) {
        Option::Some(t) => Some(Some(t)),
        Option::None => None,
    }
}

/// Parse a whole character sequence as a signed decimal number within `i64`
/// range, exactly as the specification parser does.
pub fn parse_i64_text(rest: &Vec<char>) -> (r: Option<i64>)
    ensures
        (match parse_signed(rest@) {
            Option::None => r is None,
            Option::Some(x) => r matches Some(t) && t as int == x,
        }),
{
    let m = rest.len();
    if m == 0 {
        return None;
    }
    if rest[0] == '-' {
        let digits = subvec_chars(&rest, 1, m);
        proof {
            assert(digits@ == rest@.subrange(1, rest@.len() as int));
        }
        let (j, val) = scan_digits_capped(&digits, 0, 9223372036854775808u128);
        if digits.len() == 0 || j != digits.len() {
            assert(parse_all_digits(digits@) is None);
            return None;
        }
        assert(digits@.subrange(0, digits@.len() as int) =~= digits@);
        assert(parse_all_digits(digits@) == Option::Some(spec_dec_value(digits@)));
        match val {
            Option::None => {
                assert(spec_dec_value(digits@) > 9223372036854775808int);
                assert(-spec_dec_value(digits@) < i64::MIN as int);
                assert(parse_signed(rest@) is None);
                None
            },
            Option::Some(mag) => {
                assert(mag as int == spec_dec_value(digits@));
                let t: i64 = if mag == 9223372036854775808u128 {
                    i64::MIN
                } else {
                    assert(mag < 9223372036854775808u128);
                    -((mag as u64) as i64)
                };
                assert(t as int == -spec_dec_value(digits@));
                assert(parse_signed(rest@) == Option::Some(t as int));
                Some(t)
            },
        }
    } else {
        let (j, val) = scan_digits_capped(&rest, 0, i64::MAX as u128);
        if j != m {
            assert(parse_all_digits(rest@) is None);
            return None;
        }
        assert(rest@.subrange(0, rest@.len() as int) =~= rest@);
        assert(parse_all_digits(rest@) == Option::Some(spec_dec_value(rest@)));
        match val {
            Option::None => None,
            Option::Some(x) => {
                assert(x as int == spec_dec_value(rest@));
                Some((x as u64) as i64)
            },
        }
    }
}

/// Deserialize a storage blob back into a credential; `None` for text the
/// encoder cannot have produced.
pub fn parse_credential(blob: &str) -> (r: Option<Credential>)
    ensures
        (match spec_parse_credential(blob@) {
            Option::None => r is None,
            Option::Some((fs, e)) => r matches Some(c) && credential_matches(c, fs, e),
        }),
{
    let v = str_to_chars(blob);
    let Some((access_token, i1)) = parse_seg_exec(&v, 0) else { return None };
    let Some((refresh_token, i2)) = parse_seg_exec(&v, i1) else {
        assert(parse_fields(v@, 0, 5) is None);
        return None
    };
    let Some((account_id, i3)) = parse_seg_exec(&v, i2) else {
        assert(parse_fields(v@, 0, 5) is None);
        return None
    };
    let Some((email, i4)) = parse_seg_exec(&v, i3) else {
        assert(parse_fields(v@, 0, 5) is None);
        return None
    };
    let Some((name, i5)) = parse_seg_exec(&v, i4) else {
        assert(parse_fields(v@, 0, 5) is None);
        return None
    };
    proof {
        let x0 = parse_seg(v@, 0).unwrap().0;
        let x1 = parse_seg(v@, i1 as int).unwrap().0;
        let x2 = parse_seg(v@, i2 as int).unwrap().0;
        let x3 = parse_seg(v@, i3 as int).unwrap().0;
        let x4 = parse_seg(v@, i4 as int).unwrap().0;
        assert(parse_fields(v@, i5 as int, 0) == Option::Some(
            (Seq::<Seq<char>>::empty(), i5 as int),
        ));
        assert(parse_fields(v@, i4 as int, 1) matches Some((xs, k)) && xs =~= seq![x4] && k == (
        i5 as int));
        assert(parse_fields(v@, i3 as int, 2) matches Some((xs, k)) && xs =~= seq![x3, x4]);
        assert(parse_fields(v@, i2 as int, 3) matches Some((xs, k)) && xs =~= seq![x2, x3, x4]);
        assert(parse_fields(v@, i1 as int, 4) matches Some((xs, k)) && xs =~= (seq![
            x1,
            x2,
            x3,
            x4,
        ]));
        assert(parse_fields(v@, 0, 5) matches Some((xs, k)) && xs =~= seq![x0, x1, x2, x3, x4]
            && k == i5 as int);
    }
    let expires = parse_expiry_exec(&v, i5);
    match expires {
        Option::None => None,
        Option::Some(e) => Some(
            Credential {
                access_token,
                refresh_token,
                account_id,
                email,
                name,
                expires_at: e,
            },
        ),
    }
}

fn encode_seg(out: &mut String, x: &str)
    ensures
        final(out)@ == old(out)@ + spec_seg(x@),
{
    let n = x.unicode_len();
    let d = u64_to_dec(n as u64);
    out.append(d.as_str());
    out.append(":");
    out.append(x);
    proof {
        reveal_strlit(":");
        assert(out@ =~= old(out)@ + spec_seg(x@));
    }
}

/// Serialize a credential to its storage blob.
#[verifier::rlimit(50)]
pub fn encode_credential(c: &Credential) -> (r: String)
    ensures
        r@ == spec_encode_credential(*c),
{
    let mut out = String::new();
    encode_seg(&mut out, c.access_token.as_str());
    encode_seg(&mut out, c.refresh_token.as_str());
    encode_seg(&mut out, c.account_id.as_str());
    encode_seg(&mut out, c.email.as_str());
    encode_seg(&mut out, c.name.as_str());
    match &c.expires_at {
        Option::None => {
            out.append("N");
            proof {
                reveal_strlit("N");
            }
        },
        Option::Some(t) => {
            out.append("E");
            let d = i64_to_dec(*t);
            out.append(d.as_str());
            proof {
                reveal_strlit("E");
            }
        },
    }
    proof {
        reveal_strlit("N");
        reveal_strlit("E");
        let xs = spec_fields_of(*c);
        let r1 = xs.drop_first();
        let r2 = r1.drop_first();
        let r3 = r2.drop_first();
        let r4 = r3.drop_first();
        let r5 = r4.drop_first();
        assert(r1 =~= seq![c.refresh_token@, c.account_id@, c.email@, c.name@]);
        assert(r2 =~= seq![c.account_id@, c.email@, c.name@]);
        assert(r3 =~= seq![c.email@, c.name@]);
        assert(r4 =~= seq![c.name@]);
        assert(r5 =~= Seq::<Seq<char>>::empty());
        assert(spec_encode_fields(r5) == Seq::<char>::empty());
        assert(spec_encode_fields(r4) == spec_seg(c.name@) + spec_encode_fields(r5));
        assert(spec_encode_fields(r3) == spec_seg(c.email@) + spec_encode_fields(r4));
        assert(spec_encode_fields(r2) == spec_seg(c.account_id@) + spec_encode_fields(r3));
        assert(spec_encode_fields(r1) == spec_seg(c.refresh_token@) + spec_encode_fields(r2));
        assert(spec_encode_fields(xs) == spec_seg(c.access_token@) + spec_encode_fields(r1));
        assert(out@ =~= spec_encode_credential(*c));
    }
    out
}

} // verus!
