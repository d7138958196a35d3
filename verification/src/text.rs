//! Text building blocks for page composition: HTML escaping of interpolated
//! values, decimal rendering of counters, and appending to owned strings.

use vstd::prelude::*;
use vstd::std_specs::iter::IteratorSpec;

verus! {

/// The text that stands for one character after HTML escaping: the four
/// markup-significant characters become entities, every other character
/// stands for itself.
pub open spec fn escaped_char(c: char) -> Seq<char> {
    if c == '&' {
        seq!['&', 'a', 'm', 'p', ';']
    } else if c == '<' {
        seq!['&', 'l', 't', ';']
    } else if c == '>' {
        seq!['&', 'g', 't', ';']
    } else if c == '"' {
        seq!['&', 'q', 'u', 'o', 't', ';']
    } else {
        seq![c]
    }
}

/// HTML escaping of a whole text: the concatenation of each character's
/// escaped form, in order.
pub open spec fn escaped(s: Seq<char>) -> Seq<char>
    decreases s.len(),
{
    if s.len() == 0 {
        Seq::empty()
    } else {
        escaped(s.drop_last()) + escaped_char(s.last())
    }
}

/// Escaped text never holds a raw `<` or `>`: whatever a value holds, it can
/// open no tag once escaped.
pub proof fn lemma_escaped_no_raw_tags(s: Seq<char>)
    ensures
        forall|i: int| 0 <= i < escaped(s).len() ==> escaped(s)[i] != '<' && escaped(s)[i] != '>',
    decreases s.len(),
{
    if s.len() > 0 {
        lemma_escaped_no_raw_tags(s.drop_last());
        let a = escaped(s.drop_last());
        let b = escaped_char(s.last());
        assert forall|i: int| 0 <= i < escaped(s).len() implies escaped(s)[i] != '<' && escaped(
            s,
        )[i] != '>' by {
            assert(escaped(s) == a + b);
            if i < a.len() {
                assert(escaped(s)[i] == a[i]);
            } else {
                assert(escaped(s)[i] == b[i - a.len()]);
            }
        }
    }
}

/// Relies on std's `String::push_str`: appends the given slice to the end of
/// the string.
#[verifier::external_body]
pub(crate) fn append_str(out: &mut String, s: &str)
    ensures
        final(out)@ == old(out)@ + s@,
{
    out.push_str(s);
}

/// Relies on std's `String::push`: appends the given character to the end of
/// the string.
#[verifier::external_body]
pub(crate) fn append_char(out: &mut String, c: char)
    ensures
        final(out)@ == old(out)@.push(c),
{
    out.push(c);
}

/// The characters of a string slice, in order, as a vector.
pub fn chars_of(s: &str) -> (r: Vec<char>)
    ensures
        r@ == s@,
{
    proof {
        vstd::string::axiom_spec_iter(s);
    }
    let mut it = s.chars();
    let mut out: Vec<char> = Vec::new();
    proof {
        assert(out@ + it.remaining() =~= s@);
    }
    loop
        invariant
            it.obeys_prophetic_iter_laws(),
            it.decrease() is Some,
            out@ + it.remaining() == s@,
        ensures
            out@ == s@,
        decreases it.decrease()->0,
    {
        match it.next() {
            Some(c) => {
                out.push(c);
                proof {
                    assert(out@ + it.remaining() =~= s@);
                }
            },
            None => {
                proof {
                    assert(out@ =~= s@);
                }
                break ;
            },
        }
    }
    out
}

/// HTML-escapes a text: the result is exactly the escaped form of the input.
pub fn html_escape(s: &str) -> (r: String)
    ensures
        r@ == escaped(s@),
{
    let cs = chars_of(s);
    let mut out = String::new();
    let mut i: usize = 0;
    while i < cs.len()
        invariant
            i <= cs.len(),
            cs@ == s@,
            out@ == escaped(s@.take(i as int)),
        decreases cs.len() - i,
    {
        let c = cs[i];
        if c == '&' {
            append_str(&mut out, "&amp;");
            proof {
                reveal_strlit("&amp;");
                assert("&amp;"@ =~= escaped_char(c));
            }
        } else if c == '<' {
            append_str(&mut out, "&lt;");
            proof {
                reveal_strlit("&lt;");
                assert("&lt;"@ =~= escaped_char(c));
            }
        } else if c == '>' {
            append_str(&mut out, "&gt;");
            proof {
                reveal_strlit("&gt;");
                assert("&gt;"@ =~= escaped_char(c));
            }
        } else if c == '"' {
            append_str(&mut out, "&quot;");
            proof {
                reveal_strlit("&quot;");
                assert("&quot;"@ =~= escaped_char(c));
            }
        } else {
            append_char(&mut out, c);
            proof {
                assert(out@ =~= escaped(s@.take(i as int)) + escaped_char(c));
            }
        }
        proof {
            assert(s@.take(i + 1).drop_last() =~= s@.take(i as int));
            assert(s@.take(i + 1).last() == s@[i as int]);
        }
        i += 1;
    }
    proof {
        assert(s@.take(cs@.len() as int) =~= s@);
    }
    out
}

/// The digit character for one decimal digit.
pub open spec fn digit_char(d: int) -> char {
    if d == 0 {
        '0'
    } else if d == 1 {
        '1'
    } else if d == 2 {
        '2'
    } else if d == 3 {
        '3'
    } else if d == 4 {
        '4'
    } else if d == 5 {
        '5'
    } else if d == 6 {
        '6'
    } else if d == 7 {
        '7'
    } else if d == 8 {
        '8'
    } else {
        '9'
    }
}

/// The decimal rendering of a non-negative integer, most significant digit
/// first, with no leading zeros (zero itself renders as one digit).
pub open spec fn dec_str(n: int) -> Seq<char>
    recommends
        n >= 0,
    decreases n,
{
    if n < 10 {
        seq![digit_char(n)]
    } else {
        dec_str(n / 10).push(digit_char(n % 10))
    }
}

fn digit_char_exec(d: u64) -> (c: char)
    requires
        d < 10,
    ensures
        c == digit_char(d as int),
{
    if d == 0 {
        '0'
    } else if d == 1 {
        '1'
    } else if d == 2 {
        '2'
    } else if d == 3 {
        '3'
    } else if d == 4 {
        '4'
    } else if d == 5 {
        '5'
    } else if d == 6 {
        '6'
    } else if d == 7 {
        '7'
    } else if d == 8 {
        '8'
    } else {
        '9'
    }
}

/// Renders a counter in decimal: the result is exactly `dec_str` of the value.
pub fn u64_to_string(n: u64) -> (r: String)
    ensures
        r@ == dec_str(n as int),
{
    let mut digits: Vec<char> = Vec::new();
    let mut m: u64 = n;
    if m == 0 {
        let mut out = String::new();
        append_char(&mut out, '0');
        proof {
            assert(Seq::<char>::empty().push('0') =~= seq!['0']);
        }
        return out;
    }
    while m > 0
        invariant
            m > 0 ==> dec_str(n as int) == dec_str(m as int) + digits@,
            m == 0 ==> dec_str(n as int) == digits@,
        decreases m,
    {
        let ghost prev_digits: Seq<char> = digits@;
        let ghost prev_m: int = m as int;
        let d = m % 10;
        let c = digit_char_exec(d);
        digits.insert(0, c);
        m = m / 10;
        proof {
            assert(digits@ =~= seq![digit_char(prev_m % 10)] + prev_digits);
            if prev_m < 10 {
                assert(dec_str(prev_m) =~= seq![digit_char(prev_m)]);
                assert(prev_m % 10 == prev_m);
                assert(dec_str(n as int) =~= digits@);
            } else {
                assert(dec_str(prev_m) =~= dec_str(prev_m / 10) + seq![digit_char(prev_m % 10)]);
                assert(dec_str(prev_m) + prev_digits =~= dec_str(prev_m / 10) + digits@);
                assert(m as int == prev_m / 10);
                assert(m > 0) by {
                    assert(prev_m / 10 >= 1);
                }
            }
        }
    }
    let mut out = String::new();
    let mut i: usize = 0;
    while i < digits.len()
        invariant
            i <= digits.len(),
            dec_str(n as int) == digits@,
            out@ == digits@.take(i as int),
        decreases digits.len() - i,
    {
        append_char(&mut out, digits[i]);
        proof {
            assert(out@ =~= digits@.take(i + 1));
        }
        i += 1;
    }
    proof {
        assert(digits@.take(digits@.len() as int) =~= digits@);
    }
    out
}

} // verus!
