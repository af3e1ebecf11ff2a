//! Syntactic validation of client-supplied fields.
//!
//! A username is 3 to 15 characters drawn from a restricted charset
//! (lowercase letters, the digits 1 through 9, underscore, dot, dash).
//! A mail address is checked against a conventional syntactic shape:
//! a local part, an `@`, then dot-separated domain labels of at most
//! 63 characters each, beginning and ending alphanumerically.

use vstd::prelude::*;
use vstd::string::StrSliceExecFns;

verus! {

/// Characters a username may contain: `1`-`9`, `a`-`z`, `_`, `.`, `-`.
pub open spec fn valid_username_char(c: char) -> bool {
    ('1' as u32 <= c as u32 && c as u32 <= '9' as u32)
        || ('a' as u32 <= c as u32 && c as u32 <= 'z' as u32)
        || c == '_' || c == '.' || c == '-'
}

/// The charset/length rule for usernames: 3 to 15 characters, all from
/// the restricted charset.
pub open spec fn valid_username(s: Seq<char>) -> bool {
    3 <= s.len() <= 15 && forall|i: int| 0 <= i < s.len() ==> valid_username_char(#[trigger] s[i])
}

/// Decides the username charset/length rule.
pub fn validate_username(username: &str) -> (b: bool)
    ensures
        b == valid_username(username@),
{
    let n = username.unicode_len();
    if n < 3 || n > 15 {
        return false;
    }
    let mut i: usize = 0;
    while i < n
        invariant
            n == username@.len(),
            3 <= n <= 15,
            i <= n,
            forall|j: int| 0 <= j < i ==> valid_username_char(#[trigger] username@[j]),
        decreases n - i,
    {
        let c = username.get_char(i);
        let x = c as u32;
        let ok = ('1' as u32 <= x && x <= '9' as u32)
            || ('a' as u32 <= x && x <= 'z' as u32)
            || c == '_' || c == '.' || c == '-';
        if !ok {
            return false;
        }
        i += 1;
    }
    true
}

/// An ASCII letter or digit.
pub open spec fn alnum_char(c: char) -> bool {
    ('0' as u32 <= c as u32 && c as u32 <= '9' as u32)
        || ('A' as u32 <= c as u32 && c as u32 <= 'Z' as u32)
        || ('a' as u32 <= c as u32 && c as u32 <= 'z' as u32)
}

/// Characters allowed inside a domain label: alphanumeric or `-`.
pub open spec fn label_char(c: char) -> bool {
    alnum_char(c) || c == '-'
}

/// Characters allowed in the local part of a mail address.
pub open spec fn local_char(c: char) -> bool {
    alnum_char(c) || c == '.' || c == '!' || c == '#' || c == '$' || c == '%' || c == '&'
        || c == '\'' || c == '*' || c == '+' || c == '/' || c == '=' || c == '?' || c == '^'
        || c == '_' || c == '`' || c == '{' || c == '|' || c == '}' || c == '~' || c == '-'
}

/// Length of the dot-free character run that ends at index `i` (inclusive).
pub open spec fn run_ending_at(s: Seq<char>, i: int) -> int
    decreases i + 1,
{
    if i < 0 {
        0
    } else if s[i] == '.' {
        0
    } else {
        1 + run_ending_at(s, i - 1)
    }
}

proof fn lemma_run_nonneg(s: Seq<char>, i: int)
    ensures
        run_ending_at(s, i) >= 0,
    decreases i + 1,
{
    if i >= 0 && s[i] != '.' {
        lemma_run_nonneg(s, i - 1);
    }
}

/// A domain: dot-separated labels, each 1 to 63 characters of
/// alphanumerics and dashes, beginning and ending alphanumerically.
pub open spec fn valid_domain(s: Seq<char>) -> bool {
    &&& s.len() >= 1
    &&& forall|i: int| 0 <= i < s.len() ==> label_char(#[trigger] s[i]) || s[i] == '.'
    &&& alnum_char(s[0])
    &&& alnum_char(s[s.len() - 1])
    &&& forall|i: int|
        0 <= i < s.len() && (#[trigger] s[i]) == '.' ==> 0 < i < s.len() - 1 && alnum_char(
            s[i - 1],
        ) && alnum_char(s[i + 1])
    &&& forall|i: int| 0 <= i < s.len() ==> #[trigger] run_ending_at(s, i) <= 63
}

/// A local part: one or more characters from the local charset.
pub open spec fn valid_local(s: Seq<char>) -> bool {
    s.len() >= 1 && forall|i: int| 0 <= i < s.len() ==> local_char(#[trigger] s[i])
}

/// The syntactic mail rule: 5 to 100 characters, shaped `local@domain`.
pub open spec fn valid_mail(s: Seq<char>) -> bool {
    &&& 5 <= s.len() <= 100
    &&& exists|a: int|
        0 <= a < s.len() && (#[trigger] s[a]) == '@' && valid_local(s.subrange(0, a))
            && valid_domain(s.subrange(a + 1, s.len() as int))
}

fn is_alnum(c: char) -> (b: bool)
    ensures
        b == alnum_char(c),
{
    let x = c as u32;
    ('0' as u32 <= x && x <= '9' as u32) || ('A' as u32 <= x && x <= 'Z' as u32) || ('a' as u32
        <= x && x <= 'z' as u32)
}

fn is_label_char(c: char) -> (b: bool)
    ensures
        b == label_char(c),
{
    is_alnum(c) || c == '-'
}

fn is_local_char(c: char) -> (b: bool)
    ensures
        b == local_char(c),
{
    is_alnum(c) || c == '.' || c == '!' || c == '#' || c == '$' || c == '%' || c == '&'
        || c == '\'' || c == '*' || c == '+' || c == '/' || c == '=' || c == '?' || c == '^'
        || c == '_' || c == '`' || c == '{' || c == '|' || c == '}' || c == '~' || c == '-'
}

/// Decides `valid_domain` on the character range `[from, n)` of `s`.
fn check_domain(s: &str, from: usize, n: usize) -> (b: bool)
    requires
        from <= n,
        n == s@.len(),
    ensures
        b == valid_domain(s@.subrange(from as int, n as int)),
{
    let ghost d = s@.subrange(from as int, n as int);
    let mut j: usize = from;
    let mut run: usize = 0;
    let mut last_alnum: bool = false;
    while j < n
        invariant
            from <= j <= n,
            n == s@.len(),
            d == s@.subrange(from as int, n as int),
            forall|i: int| 0 <= i < j - from ==> label_char(#[trigger] d[i]) || d[i] == '.',
            j > from ==> alnum_char(d[0]),
            forall|i: int|
                0 <= i < j - from && (#[trigger] d[i]) == '.' ==> 0 < i && alnum_char(d[i - 1]) && (
                i + 1 < j - from ==> alnum_char(d[i + 1])),
            run == run_ending_at(d, j - from - 1),
            run <= 63,
            forall|i: int| 0 <= i < j - from ==> #[trigger] run_ending_at(d, i) <= 63,
            last_alnum == (j > from && alnum_char(d[j - from - 1])),
        decreases n - j,
    {
        let ghost m = j - from;
        let c = s.get_char(j);
        proof {
            assert(d[m as int] == s@[j as int]);
        }
        if c == '.' {
            if run == 0 {
                proof {
                    if m == 0 {
                        assert(d[0] == '.');
                        assert(!valid_domain(d));
                    } else {
                        lemma_run_nonneg(d, m - 2);
                        assert(d[m - 1] == '.');
                        assert(!valid_domain(d));
                    }
                }
                return false;
            }
            if !last_alnum {
                proof {
                    assert(!alnum_char(d[m - 1]));
                    assert(!valid_domain(d));
                }
                return false;
            }
            run = 0;
            last_alnum = false;
        } else {
            if !is_label_char(c) {
                proof {
                    assert(!(label_char(d[m as int]) || d[m as int] == '.'));
                    assert(!valid_domain(d));
                }
                return false;
            }
            let ca = is_alnum(c);
            if run == 0 {
                if !ca {
                    proof {
                        if m == 0 {
                            assert(!valid_domain(d));
                        } else {
                            lemma_run_nonneg(d, m - 2);
                            assert(d[m - 1] == '.');
                            assert(!alnum_char(d[m - 1 + 1]));
                            assert(!valid_domain(d));
                        }
                    }
                    return false;
                }
            }
            if run == 63 {
                proof {
                    assert(run_ending_at(d, m as int) == 64);
                    assert(!valid_domain(d));
                }
                return false;
            }
            run = run + 1;
            last_alnum = ca;
        }
        j = j + 1;
    }
    if run == 0 {
        proof {
            if n == from {
                assert(d.len() == 0);
                assert(!valid_domain(d));
            } else {
                lemma_run_nonneg(d, d.len() - 2);
                assert(d[d.len() - 1] == '.');
                assert(!valid_domain(d));
            }
        }
        return false;
    }
    if !last_alnum {
        proof {
            assert(!alnum_char(d[d.len() - 1]));
            assert(!valid_domain(d));
        }
        return false;
    }
    proof {
        assert forall|i: int|
            0 <= i < d.len() && (#[trigger] d[i]) == '.' implies 0 < i < d.len() - 1 && alnum_char(
            d[i - 1],
        ) && alnum_char(d[i + 1]) by {
            assert(run_ending_at(d, d.len() - 1) == run);
            if i == d.len() - 1 {
                assert(run_ending_at(d, i) == 0);
            }
        }
        assert(valid_domain(d));
    }
    true
}

/// Which split any witness of `valid_mail` must use: the first `@`.
proof fn lemma_mail_witness(s: Seq<char>, a: int)
    requires
        0 <= a < s.len(),
        s[a] == '@',
        forall|j: int| 0 <= j < a ==> (#[trigger] s[j]) != '@',
    ensures
        valid_mail(s) <==> (5 <= s.len() <= 100 && valid_local(s.subrange(0, a)) && valid_domain(
            s.subrange(a + 1, s.len() as int),
        )),
{
    assert(!local_char('@'));
    if valid_mail(s) {
        let w = choose|w: int|
            0 <= w < s.len() && (#[trigger] s[w]) == '@' && valid_local(s.subrange(0, w))
                && valid_domain(s.subrange(w + 1, s.len() as int));
        if w > a {
            assert(local_char(s.subrange(0, w)[a]));
            assert(false);
        }
        assert(w == a);
    }
}

/// Decides the syntactic mail rule.
pub fn validate_mail(mail: &str) -> (b: bool)
    ensures
        b == valid_mail(mail@),
{
    let n = mail.unicode_len();
    if n < 5 || n > 100 {
        return false;
    }
    let mut i: usize = 0;
    let mut found = false;
    while i < n && !found
        invariant
            0 <= i <= n,
            n == mail@.len(),
            forall|j: int| 0 <= j < i ==> (#[trigger] mail@[j]) != '@' && local_char(mail@[j]),
            found ==> i < n && mail@[i as int] == '@',
        decreases n - i + (if found { 0int } else { 1int }),
    {
        let c = mail.get_char(i);
        if c == '@' {
            found = true;
        } else if !is_local_char(c) {
            proof {
                assert forall|w: int|
                    !(0 <= w < mail@.len() && (#[trigger] mail@[w]) == '@' && valid_local(
                        mail@.subrange(0, w),
                    ) && valid_domain(mail@.subrange(w + 1, mail@.len() as int))) by {
                    if 0 <= w < mail@.len() && mail@[w] == '@' {
                        assert(w > i);
                        assert(mail@.subrange(0, w)[i as int] == mail@[i as int]);
                    }
                }
            }
            return false;
        } else {
            i += 1;
        }
    }
    if !found {
        return false;
    }
    let a = i;
    proof {
        lemma_mail_witness(mail@, a as int);
    }
    if a == 0 {
        assert(!valid_local(mail@.subrange(0, 0)));
        return false;
    }
    let ok = check_domain(mail, a + 1, n);
    proof {
        assert(valid_local(mail@.subrange(0, a as int)));
    }
    ok
}

} // verus!
