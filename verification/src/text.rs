//! Verified string building: decimal rendering, markup escaping, and
//! placeholder substitution.

use vstd::prelude::*;
use vstd::string::StrSliceExecFns;
use vstd::string::StringExecFns;

verus! {

/// Relies on String::push: appends the given character to the end of the
/// string.
#[verifier::external_body]
pub(crate) fn push_char(s: &mut String, c: char)
    ensures
        final(s)@ == old(s)@.push(c),
{
    s.push(c);
}

/// The decimal digit character for `d`.
pub open spec fn dec_digit(d: nat) -> char {
    if d == 0 {
        '0'
    } else if d == 1 {
        '1'
    } else if d == 2 {
        '2'
    } else if d == 3 {
        '3'
    } else if d == 4 {
        '4'
    } else if d == 5 {
        '5'
    } else if d == 6 {
        '6'
    } else if d == 7 {
        '7'
    } else if d == 8 {
        '8'
    } else {
        '9'
    }
}

/// The decimal rendering of `n`, most significant digit first, without
/// leading zeros (except for `n == 0` itself).
pub open spec fn dec_str(n: nat) -> Seq<char>
    decreases n,
{
    if n < 10 {
        seq![dec_digit(n)]
    } else {
        dec_str(n / 10) + seq![dec_digit(n % 10)]
    }
}

fn digit_str(d: u32) -> (r: &'static str)
    requires
        d < 10,
    ensures
        r@ == seq![dec_digit(d as nat)],
{
    let r: &'static str = match d {
        0u32 => "0",
        1u32 => "1",
        2u32 => "2",
        3u32 => "3",
        4u32 => "4",
        5u32 => "5",
        6u32 => "6",
        7u32 => "7",
        8u32 => "8",
        _ => "9",
    };
    proof {
        reveal_strlit("0");
        reveal_strlit("1");
        reveal_strlit("2");
        reveal_strlit("3");
        reveal_strlit("4");
        reveal_strlit("5");
        reveal_strlit("6");
        reveal_strlit("7");
        reveal_strlit("8");
        reveal_strlit("9");
        assert(r@ =~= seq![dec_digit(d as nat)]);
    }
    r
}

pub fn u32_to_string(n: u32) -> (r: String)
    ensures
        r@ == dec_str(n as nat),
    decreases n,
{
    if n < 10 {
        String::from_str(digit_str(n))
    } else {
        let q: u32 = n / 10;
        assert(q < n) by {
            assert(n / 10 < n) by (nonlinear_arith)
                requires
                    n >= 10,
            ;
        };
        let mut s = u32_to_string(q);
        s.append(digit_str(n % 10));
        s
    }
}

/// What a character becomes under markup escaping: the five characters
/// significant to the markup language turn into entities, everything else
/// stands as it is.
pub open spec fn escape_char(c: char) -> Seq<char> {
    if c == '&' {
        "&amp;"@
    } else if c == '<' {
        "&lt;"@
    } else if c == '>' {
        "&gt;"@
    } else if c == '\'' {
        "&#39;"@
    } else if c == '"' {
        "&quot;"@
    } else {
        seq![c]
    }
}

/// The markup-escaped form of a text: each character escaped in place.
pub open spec fn escape_text(s: Seq<char>) -> Seq<char>
    decreases s.len(),
{
    if s.len() == 0 {
        Seq::empty()
    } else {
        escape_text(s.drop_last()) + escape_char(s.last())
    }
}

/// Escapes text for inclusion in a markup label, so that names and outputs
/// that come from the compositor cannot inject markup.
pub fn escape_markup(s: &str) -> (r: String)
    ensures
        r@ == escape_text(s@),
{
    let len = s.unicode_len();
    let mut r = String::new();
    let mut i: usize = 0;
    while i < len
        invariant
            i <= len,
            len == s@.len(),
            r@ == escape_text(s@.take(i as int)),
        decreases len - i,
    {
        let c = s.get_char(i);
        if c == '&' {
            r.append("&amp;");
        } else if c == '<' {
            r.append("&lt;");
        } else if c == '>' {
            r.append("&gt;");
        } else if c == '\'' {
            r.append("&#39;");
        } else if c == '"' {
            r.append("&quot;");
        } else {
            push_char(&mut r, c);
        }
        proof {
            assert(s@.take(i + 1).drop_last() =~= s@.take(i as int));
            assert(s@.take(i + 1).last() == s@[i as int]);
            assert(r@ =~= escape_text(s@.take(i as int)) + escape_char(s@[i as int]));
        }
        i = i + 1;
    }
    proof {
        assert(s@.take(s@.len() as int) =~= s@);
    }
    r
}

/// The text with every non-overlapping occurrence of `pat`, found left to
/// right, replaced by `rep`.
pub open spec fn replace_text(s: Seq<char>, pat: Seq<char>, rep: Seq<char>) -> Seq<char>
    decreases s.len(),
    when pat.len() >= 1
{
    if s.len() < pat.len() {
        s
    } else if s.take(pat.len() as int) == pat {
        rep + replace_text(s.skip(pat.len() as int), pat, rep)
    } else {
        seq![s[0]] + replace_text(s.skip(1), pat, rep)
    }
}

/// Whether the pattern stands in `s` at character position `i`.
fn matches_at(s: &str, pat: &str, i: usize) -> (r: bool)
    requires
        i + pat@.len() <= s@.len(),
    ensures
        r == (s@.subrange(i as int, i + pat@.len()) == pat@),
{
    let slen = s.unicode_len();
    let plen = pat.unicode_len();
    let mut matched = true;
    let mut j: usize = 0;
    while j < plen && matched
        invariant
            j <= plen,
            plen == pat@.len(),
            slen == s@.len(),
            i + plen <= s@.len(),
            matched ==> forall|k: int| 0 <= k < j ==> s@[i + k] == pat@[k],
            !matched ==> j < plen && s@[i + j] != pat@[j as int],
        decreases plen - j, (if matched { 1int } else { 0int }),
    {
        if s.get_char(i + j) != pat.get_char(j) {
            matched = false;
        } else {
            j = j + 1;
        }
    }
    proof {
        if matched {
            assert(s@.subrange(i as int, i + pat@.len()) =~= pat@);
        } else {
            assert(s@.subrange(i as int, i + pat@.len())[j as int] != pat@[j as int]);
        }
    }
    matched
}

/// Substitutes every occurrence of a placeholder, as the label template
/// calls for.
pub fn replace_all(s: &str, pat: &str, rep: &str) -> (r: String)
    requires
        pat@.len() >= 1,
    ensures
        r@ == replace_text(s@, pat@, rep@),
{
    let len = s.unicode_len();
    let plen = pat.unicode_len();
    let mut r = String::new();
    let mut i: usize = 0;
    proof {
        assert(s@.skip(0) =~= s@);
    }
    while i < len
        invariant
            i <= len,
            len == s@.len(),
            plen == pat@.len(),
            plen >= 1,
            replace_text(s@, pat@, rep@) == r@ + replace_text(s@.skip(i as int), pat@, rep@),
        decreases len - i,
    {
        let ghost prev = r@;
        if plen <= len - i && matches_at(s, pat, i) {
            proof {
                assert(s@.skip(i as int).take(plen as int) =~= s@.subrange(
                    i as int,
                    i + plen,
                ));
                assert(s@.skip(i as int).skip(plen as int) =~= s@.skip(i + plen));
            }
            r.append(rep);
            proof {
                assert(replace_text(s@.skip(i as int), pat@, rep@) == rep@ + replace_text(
                    s@.skip(i + plen),
                    pat@,
                    rep@,
                ));
                assert(prev + (rep@ + replace_text(s@.skip(i + plen), pat@, rep@)) =~= r@
                    + replace_text(s@.skip(i + plen), pat@, rep@));
            }
            i = i + plen;
        } else {
            proof {
                if plen <= len - i {
                    assert(s@.skip(i as int).take(plen as int) =~= s@.subrange(
                        i as int,
                        i + plen,
                    ));
                    assert(s@.skip(i as int).take(plen as int) != pat@);
                } else {
                    assert(s@.skip(i as int).len() < pat@.len());
                    assert(s@.skip(i + 1).len() < pat@.len());
                    assert(s@.skip(i as int) =~= seq![s@[i as int]] + s@.skip(i + 1));
                }
                assert(s@.skip(i as int).skip(1) =~= s@.skip(i + 1));
                assert(s@.skip(i as int)[0] == s@[i as int]);
            }
            let c = s.get_char(i);
            push_char(&mut r, c);
            proof {
                assert(replace_text(s@.skip(i as int), pat@, rep@) == seq![s@[i as int]]
                    + replace_text(s@.skip(i + 1), pat@, rep@));
                assert(prev + (seq![s@[i as int]] + replace_text(s@.skip(i + 1), pat@, rep@))
                    =~= r@ + replace_text(s@.skip(i + 1), pat@, rep@));
            }
            i = i + 1;
        }
    }
    proof {
        assert(s@.skip(s@.len() as int) =~= Seq::<char>::empty());
        assert(r@ + Seq::<char>::empty() =~= r@);
    }
    r
}

} // verus!
