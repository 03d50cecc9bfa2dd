//! The rules a sign-up form must meet.
//!
//! The username and the email are trimmed of surrounding white space first.
//! The username must not be blank, must be at most 20 bytes long, must
//! consist of ASCII letters and digits, and must not be taken. The email
//! must not be blank, must have the shape `x@y.z` with no white space, and
//! must not be taken. The password, as it is given, must be 8 to 72 bytes
//! long. Every broken rule adds one message, in that order.
use vstd::prelude::*;
use vstd::string::*;
use vstd::utf8::{encode_utf8, has_width_1_encoding, has_width_2_encoding, has_width_3_encoding};
use super::SignupUser;
use crate::error::{Error, ErrorKind};

verus! {

/// Whether `c` has the Unicode property White_Space.
pub open spec fn is_white_space(c: char) -> bool {
    let u = c as u32;
    ||| 0x09 <= u <= 0x0D
    ||| u == 0x20
    ||| u == 0x85
    ||| u == 0xA0
    ||| u == 0x1680
    ||| 0x2000 <= u <= 0x200A
    ||| u == 0x2028
    ||| u == 0x2029
    ||| u == 0x202F
    ||| u == 0x205F
    ||| u == 0x3000
}

/// The first index at or after `i` that does not hold white space.
pub open spec fn skip_white_space(s: Seq<char>, i: int) -> int
    decreases s.len() - i,
{
    if 0 <= i < s.len() && is_white_space(s[i]) {
        skip_white_space(s, i + 1)
    } else {
        i
    }
}

/// The end of `s.subrange(lo, j)` once trailing white space is dropped.
pub open spec fn drop_white_space_back(s: Seq<char>, lo: int, j: int) -> int
    decreases j - lo,
{
    if lo < j && j <= s.len() && is_white_space(s[j - 1]) {
        drop_white_space_back(s, lo, j - 1)
    } else {
        j
    }
}

/// `s` without its leading and trailing white space.
pub open spec fn trimmed(s: Seq<char>) -> Seq<char> {
    let lo = skip_white_space(s, 0);
    s.subrange(lo, drop_white_space_back(s, lo, s.len() as int))
}

proof fn lemma_skip_white_space(s: Seq<char>, i: int)
    requires
        0 <= i <= s.len(),
    ensures
        i <= skip_white_space(s, i) <= s.len(),
        skip_white_space(s, i) < s.len() ==> !is_white_space(s[skip_white_space(s, i)]),
    decreases s.len() - i,
{
    if i < s.len() && is_white_space(s[i]) {
        lemma_skip_white_space(s, i + 1);
    }
}

proof fn lemma_drop_white_space_back(s: Seq<char>, lo: int, j: int)
    requires
        0 <= lo <= j <= s.len(),
    ensures
        lo <= drop_white_space_back(s, lo, j) <= j,
        drop_white_space_back(s, lo, j) > lo ==> !is_white_space(s[drop_white_space_back(s, lo, j) - 1]),
    decreases j - lo,
{
    if lo < j && is_white_space(s[j - 1]) {
        lemma_drop_white_space_back(s, lo, j - 1);
    }
}

/// Trimming twice is trimming once: a trimmed text neither starts nor ends
/// with white space, so the username and email that are checked are the
/// ones that are looked up.
pub proof fn trimmed_is_idempotent(s: Seq<char>)
    ensures
        trimmed(trimmed(s)) == trimmed(s),
        trimmed(s).len() > 0 ==> !is_white_space(trimmed(s)[0]) && !is_white_space(trimmed(s).last()),
{
    let lo = skip_white_space(s, 0);
    lemma_skip_white_space(s, 0);
    let hi = drop_white_space_back(s, lo, s.len() as int);
    lemma_drop_white_space_back(s, lo, s.len() as int);
    let t = trimmed(s);
    assert(t == s.subrange(lo, hi));
    if t.len() > 0 {
        assert(t[0] == s[lo]);
        assert(t.last() == s[hi - 1]);
        assert(skip_white_space(t, 0) == 0);
        assert(drop_white_space_back(t, 0, t.len() as int) == t.len());
        assert(t.subrange(0, t.len() as int) =~= t);
    } else {
        assert(skip_white_space(t, 0) == 0);
        assert(drop_white_space_back(t, 0, 0) == 0);
        assert(t.subrange(0, 0) =~= t);
    }
}

/// Whether every character of `s` is white space.
pub open spec fn all_white_space(s: Seq<char>) -> bool {
    forall|i: int| 0 <= i < s.len() ==> #[trigger] is_white_space(s[i])
}

proof fn lemma_skip_over_white_space(x: Seq<char>, i: int, j: int)
    requires
        0 <= i <= j <= x.len(),
        forall|k: int| i <= k < j ==> #[trigger] is_white_space(x[k]),
    ensures
        skip_white_space(x, i) == skip_white_space(x, j),
    decreases j - i,
{
    if i < j {
        lemma_skip_over_white_space(x, i + 1, j);
    }
}

proof fn lemma_skip_shifted(a: Seq<char>, s: Seq<char>, b: Seq<char>, k: int)
    requires
        0 <= k <= s.len(),
        skip_white_space(s, k) < s.len(),
    ensures
        skip_white_space(a + s + b, a.len() + k) == a.len() + skip_white_space(s, k),
    decreases s.len() - k,
{
    let t = a + s + b;
    assert(t[a.len() + k] == s[k]);
    if is_white_space(s[k]) {
        lemma_skip_shifted(a, s, b, k + 1);
    }
}

proof fn lemma_drop_over_white_space(x: Seq<char>, lo: int, m: int, j: int)
    requires
        0 <= lo <= m <= j <= x.len(),
        forall|k: int| m <= k < j ==> #[trigger] is_white_space(x[k]),
    ensures
        drop_white_space_back(x, lo, j) == drop_white_space_back(x, lo, m),
    decreases j - m,
{
    if m < j {
        lemma_drop_over_white_space(x, lo, m, j - 1);
    }
}

proof fn lemma_drop_shifted(a: Seq<char>, s: Seq<char>, b: Seq<char>, lo: int, j: int)
    requires
        0 <= lo <= j <= s.len(),
    ensures
        drop_white_space_back(a + s + b, a.len() + lo, a.len() + j) == a.len() + drop_white_space_back(s, lo, j),
    decreases j - lo,
{
    let t = a + s + b;
    if lo < j {
        assert(t[a.len() + j - 1] == s[j - 1]);
        if is_white_space(s[j - 1]) {
            lemma_drop_shifted(a, s, b, lo, j - 1);
        }
    }
}

/// White space around a text is trimmed away: with `a` and `b` made of white
/// space only, `a + s + b` trims to what `s` trims to. So white space around
/// the username and the email of a sign-up form changes neither the answer
/// of `validate_signup` nor the username and email that are looked up.
pub proof fn trimmed_ignores_surrounding_white_space(a: Seq<char>, s: Seq<char>, b: Seq<char>)
    requires
        all_white_space(a),
        all_white_space(b),
    ensures
        trimmed(a + s + b) == trimmed(s),
{
    let t = a + s + b;
    let n = t.len() as int;
    let sa = a.len() as int;
    let ss = s.len() as int;
    lemma_skip_white_space(s, 0);
    assert forall|k: int| 0 <= k < sa implies #[trigger] is_white_space(t[k]) by {
        assert(t[k] == a[k]);
    }
    lemma_skip_over_white_space(t, 0, sa);
    assert forall|k: int| sa + ss <= k < n implies #[trigger] is_white_space(t[k]) by {
        assert(t[k] == b[k - sa - ss]);
    }
    let lo = skip_white_space(s, 0);
    if lo < ss {
        lemma_skip_shifted(a, s, b, 0);
        assert(skip_white_space(t, 0) == sa + lo);
        lemma_drop_over_white_space(t, sa + lo, sa + ss, n);
        lemma_drop_shifted(a, s, b, lo, ss);
        let hi = drop_white_space_back(s, lo, ss);
        lemma_drop_white_space_back(s, lo, ss);
        assert(t.subrange(sa + lo, sa + hi) =~= s.subrange(lo, hi));
    } else {
        assert forall|k: int| 0 <= k < ss implies #[trigger] is_white_space(s[k]) by {
            lemma_skip_over_white_space_bound(s, 0, k);
        }
        assert forall|k: int| sa <= k < sa + ss implies #[trigger] is_white_space(t[k]) by {
            assert(t[k] == s[k - sa]);
        }
        lemma_skip_over_white_space(t, sa, sa + ss);
        lemma_skip_over_white_space(t, sa + ss, n);
        assert(skip_white_space(t, n) == n);
        assert(t.subrange(n, n) =~= s.subrange(ss, ss));
    }
}

proof fn lemma_skip_over_white_space_bound(s: Seq<char>, i: int, k: int)
    requires
        0 <= i <= k < s.len(),
        skip_white_space(s, i) == s.len(),
    ensures
        is_white_space(s[k]),
    decreases k - i,
{
    if i < k {
        assert(is_white_space(s[i]));
        lemma_skip_over_white_space_bound(s, i + 1, k);
    }
}

/// Whether `c` is an ASCII letter or an ASCII digit.
pub open spec fn is_username_char(c: char) -> bool {
    ('a' <= c <= 'z') || ('A' <= c <= 'Z') || ('0' <= c <= '9')
}

/// Whether `t` is one or more ASCII letters and digits.
pub open spec fn username_format_ok(t: Seq<char>) -> bool {
    t.len() > 0 && forall|i: int| 0 <= i < t.len() ==> is_username_char(#[trigger] t[i])
}

/// Whether `t` holds no white space and has the shape `a@b.c` with `a`, `b`
/// and `c` not empty.
pub open spec fn email_format_ok(t: Seq<char>) -> bool {
    &&& forall|i: int| 0 <= i < t.len() ==> !is_white_space(#[trigger] t[i])
    &&& exists|p: int, q: int|
        1 <= p && p + 2 <= q && q + 2 <= t.len() && #[trigger] t[p] == '@' && #[trigger] t[q] == '.'
}

/// Whether the pattern is a regular expression the outside crate accepts.
pub uninterp spec fn regex_compiles(pattern: Seq<char>) -> bool;

/// Whether the pattern, once compiled, matches somewhere in the text.
pub uninterp spec fn regex_finds(pattern: Seq<char>, text: Seq<char>) -> bool;

/// Compiles `pattern` with `regex::Regex::new` and tests the text with
/// `Regex::is_match`; `None` when the pattern does not compile.
/// Claimed of the crate, as its syntax documentation gives it: `^` and `$`
/// anchor at the ends of the text, a class in brackets matches the listed
/// ASCII ranges, `+` repeats one or more times, `\S` is any character without
/// the Unicode property White_Space and `\.` is a dot. So the username
/// pattern matches exactly the texts of ASCII letters and digits, and the
/// email pattern exactly the texts `a@b.c` without white space.
#[verifier::external_body]
fn regex_is_match(pattern: &str, text: &str) -> (r: Option<bool>)
    ensures
        r is Some <==> regex_compiles(pattern@),
        r matches Some(b) ==> b == regex_finds(pattern@, text@),
        pattern@ == "^[a-zA-Z0-9]+$"@ ==> r == Some(username_format_ok(text@)),
        pattern@ == "^\\S+@\\S+\\.\\S+$"@ ==> r == Some(email_format_ok(text@)),
{
    match regex::Regex::new(pattern) {
        Ok(re) => Some(re.is_match(text)),
        Err(_) => None,
    }
}

/// Whether `c` has the Unicode property White_Space.
pub fn is_white_space_char(c: char) -> (b: bool)
    ensures
        b == is_white_space(c),
{
    let u = c as u32;
    (0x09 <= u && u <= 0x0D) || u == 0x20 || u == 0x85 || u == 0xA0 || u == 0x1680
        || (0x2000 <= u && u <= 0x200A) || u == 0x2028 || u == 0x2029 || u == 0x202F
        || u == 0x205F || u == 0x3000
}

/// `s` without its leading and trailing white space, as `str::trim` gives it.
pub fn trim(s: &str) -> (r: &str)
    ensures
        r@ == trimmed(s@),
{
    let n = s.unicode_len();
    let mut lo: usize = 0;
    while lo < n && is_white_space_char(s.get_char(lo))
        invariant
            n == s@.len(),
            lo <= n,
            skip_white_space(s@, lo as int) == skip_white_space(s@, 0),
        decreases n - lo,
    {
        lo = lo + 1;
    }
    assert(skip_white_space(s@, lo as int) == lo);
    let mut hi: usize = n;
    while hi > lo && is_white_space_char(s.get_char(hi - 1))
        invariant
            n == s@.len(),
            lo <= hi <= n,
            lo == skip_white_space(s@, 0),
            drop_white_space_back(s@, lo as int, hi as int) == drop_white_space_back(s@, lo as int, n as int),
        decreases hi - lo,
    {
        hi = hi - 1;
    }
    assert(drop_white_space_back(s@, lo as int, hi as int) == hi);
    s.substring_char(lo, hi)
}

/// How many bytes the UTF-8 encoding of `c` takes.
pub open spec fn utf8_width(c: char) -> nat {
    let u = c as u32;
    if has_width_1_encoding(u) {
        1
    } else if has_width_2_encoding(u) {
        2
    } else if has_width_3_encoding(u) {
        3
    } else {
        4
    }
}

proof fn lemma_encode_utf8_len_concat(a: Seq<char>, b: Seq<char>)
    ensures
        encode_utf8(a + b).len() == encode_utf8(a).len() + encode_utf8(b).len(),
    decreases a.len(),
{
    if a.len() == 0 {
        assert(a + b =~= b);
    } else {
        assert((a + b).drop_first() =~= a.drop_first() + b);
        assert((a + b)[0] == a[0]);
        lemma_encode_utf8_len_concat(a.drop_first(), b);
    }
}

proof fn lemma_encode_utf8_len_single(c: char)
    ensures
        encode_utf8(seq![c]).len() == utf8_width(c),
{
    assert(seq![c].drop_first() =~= Seq::<char>::empty());
    assert(encode_utf8(Seq::<char>::empty()).len() == 0);
}

/// Whether the UTF-8 encoding of `s` is longer than `limit` bytes.
pub fn utf8_len_exceeds(s: &str, limit: usize) -> (b: bool)
    requires
        limit <= usize::MAX - 4,
    ensures
        b == (encode_utf8(s@).len() > limit),
{
    let n = s.unicode_len();
    let mut acc: usize = 0;
    let mut i: usize = 0;
    assert(s@.subrange(0, 0) =~= Seq::<char>::empty());
    while i < n
        invariant
            n == s@.len(),
            i <= n,
            limit <= usize::MAX - 4,
            acc <= limit,
            acc == encode_utf8(s@.subrange(0, i as int)).len(),
        decreases n - i,
    {
        let c = s.get_char(i);
        let u = c as u32;
        let w: usize = if u <= 0x7F {
            1
        } else if 0x80 <= u && u <= 0x7FF {
            2
        } else if 0x800 <= u && u <= 0xFFFF && !(0xD800 <= u && u <= 0xDFFF) {
            3
        } else {
            4
        };
        proof {
            assert(s@.subrange(0, i + 1) =~= s@.subrange(0, i as int) + seq![c]);
            lemma_encode_utf8_len_concat(s@.subrange(0, i as int), seq![c]);
            lemma_encode_utf8_len_single(c);
            assert(w == utf8_width(c));
        }
        acc = acc + w;
        i = i + 1;
        if acc > limit {
            proof {
                assert(s@ =~= s@.subrange(0, i as int) + s@.subrange(i as int, n as int));
                lemma_encode_utf8_len_concat(s@.subrange(0, i as int), s@.subrange(i as int, n as int));
            }
            return true;
        }
    }
    assert(s@.subrange(0, n as int) =~= s@);
    false
}

/// The messages for the broken sign-up rules, in the order they are checked,
/// for a trimmed username and email and whether each is already taken.
pub open spec fn signup_errors(
    name: Seq<char>,
    email: Seq<char>,
    username_taken: bool,
    email_taken: bool,
    password: Seq<char>,
) -> Seq<Seq<char>> {
    (if name.len() == 0 { seq!["username can't be blank"@] } else { seq![] })
    + (if encode_utf8(name).len() > 20 { seq!["username is too long (max 20 character)"@] } else { seq![] })
    + (if !username_format_ok(name) { seq!["username is invalid format"@] } else { seq![] })
    + (if username_taken { seq!["username "@ + name + " already exists"@] } else { seq![] })
    + (if email.len() == 0 { seq!["email can't be blank"@] } else { seq![] })
    + (if !email_format_ok(email) { seq!["email is invalid format"@] } else { seq![] })
    + (if email_taken { seq!["email "@ + email + " already exists"@] } else { seq![] })
    + password_errors(password)
}

/// The message for a password whose UTF-8 encoding is not 8 to 72 bytes long.
pub open spec fn password_errors(password: Seq<char>) -> Seq<Seq<char>> {
    if encode_utf8(password).len() < 8 {
        seq!["password is too short (min 8 character)"@]
    } else if encode_utf8(password).len() > 72 {
        seq!["password is too long (max 72 character)"@]
    } else {
        seq![]
    }
}

proof fn lemma_contains_add(a: Seq<Seq<char>>, b: Seq<Seq<char>>, x: Seq<char>)
    ensures
        (a + b).contains(x) <==> (a.contains(x) || b.contains(x)),
{
    if (a + b).contains(x) {
        let i = choose|i: int| 0 <= i < (a + b).len() && (a + b)[i] == x;
        if i < a.len() {
            assert(a[i] == x);
        } else {
            assert(b[i - a.len()] == x);
        }
    }
    if a.contains(x) {
        let i = choose|i: int| 0 <= i < a.len() && a[i] == x;
        assert((a + b)[i] == x);
    }
    if b.contains(x) {
        let i = choose|i: int| 0 <= i < b.len() && b[i] == x;
        assert((a + b)[a.len() + i] == x);
    }
}

proof fn lemma_contains_part(c: bool, m: Seq<char>, x: Seq<char>)
    ensures
        (if c { seq![m] } else { Seq::<Seq<char>>::empty() }).contains(x) <==> (c && m == x),
{
    if c {
        assert(seq![m][0] == m);
    }
}

/// A taken username, and a taken email, are each reported by their own
/// message, and only when taken: the messages contain "username <name>
/// already exists" exactly when a stored user has the username, and "email
/// <email> already exists" exactly when a stored user has the email,
/// whatever else is wrong with the form.
pub proof fn taken_names_are_reported(
    name: Seq<char>,
    email: Seq<char>,
    username_taken: bool,
    email_taken: bool,
    password: Seq<char>,
)
    ensures
        signup_errors(name, email, username_taken, email_taken, password).contains(
            "username "@ + name + " already exists"@,
        ) <==> username_taken,
        signup_errors(name, email, username_taken, email_taken, password).contains(
            "email "@ + email + " already exists"@,
        ) <==> email_taken,
{
    reveal_strlit("username can't be blank");
    reveal_strlit("username is too long (max 20 character)");
    reveal_strlit("username is invalid format");
    reveal_strlit("username ");
    reveal_strlit(" already exists");
    reveal_strlit("email can't be blank");
    reveal_strlit("email is invalid format");
    reveal_strlit("email ");
    reveal_strlit("password is too short (min 8 character)");
    reveal_strlit("password is too long (max 72 character)");
    let u = "username "@ + name + " already exists"@;
    let e = "email "@ + email + " already exists"@;
    assert(u[0] == 'u');
    assert(u[u.len() - 1] == 's');
    assert(e[0] == 'e');
    assert(e[e.len() - 1] == 's');
    let m1 = "username can't be blank"@;
    let m2 = "username is too long (max 20 character)"@;
    let m3 = "username is invalid format"@;
    let m5 = "email can't be blank"@;
    let m6 = "email is invalid format"@;
    let m8 = "password is too short (min 8 character)"@;
    let m9 = "password is too long (max 72 character)"@;
    assert(m1[m1.len() - 1] == 'k' && m2[m2.len() - 1] == ')' && m3[m3.len() - 1] == 't');
    assert(m5[m5.len() - 1] == 'k' && m6[m6.len() - 1] == 't');
    assert(m1[0] == 'u' && m2[0] == 'u' && m3[0] == 'u' && m5[0] == 'e' && m6[0] == 'e');
    assert(m8[0] == 'p' && m9[0] == 'p');
    assert(u != m1 && u != m2 && u != m3 && u != m5 && u != m6 && u != m8 && u != m9 && u != e);
    assert(e != m1 && e != m2 && e != m3 && e != m5 && e != m6 && e != m8 && e != m9);
    let p1 = if name.len() == 0 { seq![m1] } else { Seq::<Seq<char>>::empty() };
    let p2 = if encode_utf8(name).len() > 20 { seq![m2] } else { Seq::<Seq<char>>::empty() };
    let p3 = if !username_format_ok(name) { seq![m3] } else { Seq::<Seq<char>>::empty() };
    let p4 = if username_taken { seq![u] } else { Seq::<Seq<char>>::empty() };
    let p5 = if email.len() == 0 { seq![m5] } else { Seq::<Seq<char>>::empty() };
    let p6 = if !email_format_ok(email) { seq![m6] } else { Seq::<Seq<char>>::empty() };
    let p7 = if email_taken { seq![e] } else { Seq::<Seq<char>>::empty() };
    let p8 = password_errors(password);
    assert(signup_errors(name, email, username_taken, email_taken, password)
        == p1 + p2 + p3 + p4 + p5 + p6 + p7 + p8);
    let q8 = if encode_utf8(password).len() < 8 {
        seq![m8]
    } else if encode_utf8(password).len() > 72 {
        seq![m9]
    } else {
        Seq::<Seq<char>>::empty()
    };
    assert(p8 == q8);
    lemma_contains_part(encode_utf8(password).len() < 8, m8, u);
    lemma_contains_part(encode_utf8(password).len() < 8, m8, e);
    lemma_contains_part(encode_utf8(password).len() > 72, m9, u);
    lemma_contains_part(encode_utf8(password).len() > 72, m9, e);
    assert(!p8.contains(u) && !p8.contains(e));
    lemma_contains_part(name.len() == 0, m1, u);
    lemma_contains_part(name.len() == 0, m1, e);
    lemma_contains_part(encode_utf8(name).len() > 20, m2, u);
    lemma_contains_part(encode_utf8(name).len() > 20, m2, e);
    lemma_contains_part(!username_format_ok(name), m3, u);
    lemma_contains_part(!username_format_ok(name), m3, e);
    lemma_contains_part(username_taken, u, u);
    lemma_contains_part(username_taken, u, e);
    lemma_contains_part(email.len() == 0, m5, u);
    lemma_contains_part(email.len() == 0, m5, e);
    lemma_contains_part(!email_format_ok(email), m6, u);
    lemma_contains_part(!email_format_ok(email), m6, e);
    lemma_contains_part(email_taken, e, u);
    lemma_contains_part(email_taken, e, e);
    lemma_contains_add(p1, p2, u);
    lemma_contains_add(p1 + p2, p3, u);
    lemma_contains_add(p1 + p2 + p3, p4, u);
    lemma_contains_add(p1 + p2 + p3 + p4, p5, u);
    lemma_contains_add(p1 + p2 + p3 + p4 + p5, p6, u);
    lemma_contains_add(p1 + p2 + p3 + p4 + p5 + p6, p7, u);
    lemma_contains_add(p1 + p2 + p3 + p4 + p5 + p6 + p7, p8, u);
    lemma_contains_add(p1, p2, e);
    lemma_contains_add(p1 + p2, p3, e);
    lemma_contains_add(p1 + p2 + p3, p4, e);
    lemma_contains_add(p1 + p2 + p3 + p4, p5, e);
    lemma_contains_add(p1 + p2 + p3 + p4 + p5, p6, e);
    lemma_contains_add(p1 + p2 + p3 + p4 + p5 + p6, p7, e);
    lemma_contains_add(p1 + p2 + p3 + p4 + p5 + p6 + p7, p8, e);
}

/// The views of a list of strings.
pub open spec fn views(v: Seq<String>) -> Seq<Seq<char>> {
    v.map_values(|s: String| s@)
}

fn push_message(errs: &mut Vec<String>, msg: String)
    ensures
        views(final(errs)@) == views(old(errs)@) + seq![msg@],
{
    errs.push(msg);
    proof {
        assert(views(errs@) =~= views(old(errs)@) + seq![msg@]);
    }
}

/// Checks a sign-up form, the password's length included. `username_taken`
/// and `email_taken` tell whether a user with the trimmed username, or the
/// trimmed email, is already stored.
/// The answer is `Ok` when no rule is broken, and otherwise a validation
/// error that lists the message of every broken rule.
pub fn validate_signup(form: &SignupUser, username_taken: bool, email_taken: bool) -> (res: Result<(), Error>)
    ensures
        ({
            let errs = signup_errors(trimmed(form.username@), trimmed(form.email@), username_taken, email_taken, form.password@);
            &&& res is Ok <==> errs.len() == 0
            &&& res matches Err(e) ==> (e.kind matches ErrorKind::Validation(msgs) && views(msgs@) == errs)
        }),
{
    let mut errs: Vec<String> = Vec::new();
    let ghost e0 = views(errs@);
    assert(e0 =~= seq![]);

    // Username
    let name = trim(form.username.as_str());
    if name.unicode_len() == 0 {
        push_message(&mut errs, "username can't be blank".to_owned());
    }
    let ghost e1 = views(errs@);
    if utf8_len_exceeds(name, 20) {
        push_message(&mut errs, "username is too long (max 20 character)".to_owned());
    }
    let ghost e2 = views(errs@);
    let name_ok = regex_is_match("^[a-zA-Z0-9]+$", name);
    if name_ok != Some(true) {
        push_message(&mut errs, "username is invalid format".to_owned());
    }
    let ghost e3 = views(errs@);
    if username_taken {
        let mut msg = "username ".to_owned();
        msg.append(name);
        msg.append(" already exists");
        push_message(&mut errs, msg);
    }
    let ghost e4 = views(errs@);

    // Email
    let email = trim(form.email.as_str());
    if email.unicode_len() == 0 {
        push_message(&mut errs, "email can't be blank".to_owned());
    }
    let ghost e5 = views(errs@);
    let email_ok = regex_is_match("^\\S+@\\S+\\.\\S+$", email);
    if email_ok != Some(true) {
        push_message(&mut errs, "email is invalid format".to_owned());
    }
    let ghost e6 = views(errs@);
    if email_taken {
        let mut msg = "email ".to_owned();
        msg.append(email);
        msg.append(" already exists");
        push_message(&mut errs, msg);
    }
    let ghost e7 = views(errs@);

    // Password
    let pass = form.password.as_str();
    if !utf8_len_exceeds(pass, 7) {
        push_message(&mut errs, "password is too short (min 8 character)".to_owned());
    } else if utf8_len_exceeds(pass, 72) {
        push_message(&mut errs, "password is too long (max 72 character)".to_owned());
    }
    proof {
        let n = trimmed(form.username@);
        let m = trimmed(form.email@);
        assert(e1 =~= e0 + (if n.len() == 0 { seq!["username can't be blank"@] } else { seq![] }));
        assert(e2 =~= e1 + (if encode_utf8(n).len() > 20 { seq!["username is too long (max 20 character)"@] } else { seq![] }));
        assert(e3 =~= e2 + (if !username_format_ok(n) { seq!["username is invalid format"@] } else { seq![] }));
        assert(e4 =~= e3 + (if username_taken { seq!["username "@ + n + " already exists"@] } else { seq![] }));
        assert(e5 =~= e4 + (if m.len() == 0 { seq!["email can't be blank"@] } else { seq![] }));
        assert(e6 =~= e5 + (if !email_format_ok(m) { seq!["email is invalid format"@] } else { seq![] }));
        assert(e7 =~= e6 + (if email_taken { seq!["email "@ + m + " already exists"@] } else { seq![] }));
        assert(views(errs@) =~= e7 + password_errors(form.password@));
        assert(views(errs@) =~= signup_errors(n, m, username_taken, email_taken, form.password@));
    }
    if errs.len() == 0 {
        Ok(())
    } else {
        proof {
            assert(views(errs@).len() == errs@.len());
        }
        Err(Error { kind: ErrorKind::Validation(errs) })
    }
}

} // verus!
