//! Building blocks for the text renderer: joining, padding and decimal
//! formatting, each with an exact character-level specification.

use vstd::prelude::*;
use vstd::string::StringExecFns;
use vstd::string::StrSliceExecFns;

verus! {

/// The sequence of `n` space characters.
pub open spec fn spaces(n: nat) -> Seq<char> {
    Seq::new(n, |i: int| ' ')
}

/// `parts` joined by `sep`, with no leading or trailing separator.
pub open spec fn join_sep(parts: Seq<Seq<char>>, sep: Seq<char>) -> Seq<char>
    decreases parts.len(),
{
    if parts.len() == 0 {
        Seq::empty()
    } else if parts.len() == 1 {
        parts[0]
    } else {
        parts[0] + sep + join_sep(parts.drop_first(), sep)
    }
}

/// Appending one more part to a join appends a separator (unless the join was
/// empty) and then the part.
pub proof fn lemma_join_push(parts: Seq<Seq<char>>, sep: Seq<char>, x: Seq<char>)
    ensures
        join_sep(parts.push(x), sep) == if parts.len() == 0 {
            x
        } else {
            join_sep(parts, sep) + sep + x
        },
    decreases parts.len(),
{
    if parts.len() == 0 {
        assert(parts.push(x).len() == 1);
        assert(parts.push(x)[0] == x);
    } else {
        let p = parts.push(x);
        assert(p.len() >= 2);
        assert(p.drop_first() =~= parts.drop_first().push(x));
        lemma_join_push(parts.drop_first(), sep, x);
        if parts.len() == 1 {
            assert(join_sep(p, sep) == parts[0] + sep + x);
            assert(join_sep(parts, sep) == parts[0]);
        } else {
            assert(join_sep(p, sep) == parts[0] + sep + (join_sep(parts.drop_first(), sep) + sep
                + x));
            assert(parts[0] + sep + (join_sep(parts.drop_first(), sep) + sep + x) =~= (parts[0]
                + sep + join_sep(parts.drop_first(), sep)) + sep + x);
        }
    }
}

/// `s` extended on the right with spaces up to width `w` (left-justified).
pub open spec fn pad_right(s: Seq<char>, w: nat) -> Seq<char> {
    if s.len() >= w {
        s
    } else {
        s + spaces((w - s.len()) as nat)
    }
}

/// `s` extended on the left with spaces up to width `w` (right-justified).
pub open spec fn pad_left(s: Seq<char>, w: nat) -> Seq<char> {
    if s.len() >= w {
        s
    } else {
        spaces((w - s.len()) as nat) + s
    }
}

/// The decimal digits of `n`, most significant first, no sign and no leading
/// zero (except for `n == 0` itself).
pub open spec fn dec_digits(n: nat) -> Seq<char>
    decreases n,
{
    if n < 10 {
        dec_digit(n)
    } else {
        dec_digits(n / 10) + dec_digit(n % 10)
    }
}

/// The single decimal digit `d` as a one-character sequence.
pub open spec fn dec_digit(d: nat) -> Seq<char> {
    if d == 0 {
        "0"@
    } else if d == 1 {
        "1"@
    } else if d == 2 {
        "2"@
    } else if d == 3 {
        "3"@
    } else if d == 4 {
        "4"@
    } else if d == 5 {
        "5"@
    } else if d == 6 {
        "6"@
    } else if d == 7 {
        "7"@
    } else if d == 8 {
        "8"@
    } else {
        "9"@
    }
}

/// The widest entry of `names`, counted in characters.
pub open spec fn max_width(names: Seq<Seq<char>>) -> nat
    decreases names.len(),
{
    if names.len() == 0 {
        0
    } else {
        let rest = max_width(names.drop_first());
        if names[0].len() > rest {
            names[0].len()
        } else {
            rest
        }
    }
}

fn digit_str(d: u64) -> (r: &'static str)
    requires
        d < 10,
    ensures
        r@ == dec_digit(d as nat),
{
    if d == 0 {
        "0"
    } else if d == 1 {
        "1"
    } else if d == 2 {
        "2"
    } else if d == 3 {
        "3"
    } else if d == 4 {
        "4"
    } else if d == 5 {
        "5"
    } else if d == 6 {
        "6"
    } else if d == 7 {
        "7"
    } else if d == 8 {
        "8"
    } else {
        "9"
    }
}

/// `n` written in decimal.
pub fn u64_to_dec(n: u64) -> (r: String)
    ensures
        r@ == dec_digits(n as nat),
    decreases n,
{
    if n < 10 {
        String::from_str(digit_str(n))
    } else {
        let mut r = u64_to_dec(n / 10);
        r.append(digit_str(n % 10));
        r
    }
}

/// The entries of `parts` joined by `sep`.
pub fn join_strings(parts: &Vec<String>, sep: &str) -> (r: String)
    ensures
        r@ == join_sep(parts.deep_view(), sep@),
{
    let mut r = String::new();
    let n = parts.len();
    let mut i: usize = 0;
    while i < n
        invariant
            i <= n,
            n == parts.len(),
            r@ == join_sep(parts.deep_view().take(i as int), sep@),
        decreases n - i,
    {
        proof {
            let dv = parts.deep_view();
            assert(dv.take(i as int).push(dv[i as int]) =~= dv.take(i as int + 1));
            lemma_join_push(dv.take(i as int), sep@, dv[i as int]);
            assert(Seq::empty() + dv[i as int] =~= dv[i as int]);
        }
        if i > 0 {
            r.append(sep);
        }
        r.append(parts[i].as_str());
        i = i + 1;
    }
    proof {
        assert(parts.deep_view().take(n as int) =~= parts.deep_view());
    }
    r
}

fn push_spaces(r: &mut String, k: usize)
    ensures
        final(r)@ == old(r)@ + spaces(k as nat),
{
    let mut j: usize = 0;
    while j < k
        invariant
            j <= k,
            r@ == old(r)@ + spaces(j as nat),
        decreases k - j,
    {
        proof {
            reveal_strlit(" ");
            assert((old(r)@ + spaces(j as nat)) + " "@ =~= old(r)@ + spaces((j + 1) as nat));
        }
        r.append(" ");
        j = j + 1;
    }
    proof {
        assert(old(r)@ + spaces(0nat) =~= old(r)@);
    }
}

/// `s` left-justified in a field `w` characters wide.
pub fn pad_right_str(s: &str, w: usize) -> (r: String)
    ensures
        r@ == pad_right(s@, w as nat),
{
    let mut r = String::from_str(s);
    let have = s.unicode_len();
    if have < w {
        push_spaces(&mut r, w - have);
    }
    r
}

/// `s` right-justified in a field `w` characters wide.
pub fn pad_left_str(s: &str, w: usize) -> (r: String)
    ensures
        r@ == pad_left(s@, w as nat),
{
    let have = s.unicode_len();
    let mut r = String::new();
    if have < w {
        push_spaces(&mut r, w - have);
        proof {
            assert(Seq::<char>::empty() + spaces((w - s@.len()) as nat) =~= spaces(
                (w - s@.len()) as nat,
            ));
        }
    }
    r.append(s);
    proof {
        if have >= w {
            assert(Seq::<char>::empty() + s@ =~= s@);
        }
    }
    r
}

/// The number of characters of the widest entry of `names`.
pub fn max_width_of(names: &Vec<String>) -> (r: usize)
    ensures
        r as nat == max_width(names.deep_view()),
{
    let n = names.len();
    let mut i: usize = n;
    let mut m: usize = 0;
    while i > 0
        invariant
            i <= n,
            n == names.len(),
            m as nat == max_width(names.deep_view().skip(i as int)),
        decreases i,
    {
        i = i - 1;
        proof {
            let dv = names.deep_view();
            assert(dv.skip(i as int).drop_first() =~= dv.skip(i as int + 1));
            assert(dv.skip(i as int)[0] == dv[i as int]);
        }
        let li = names[i].as_str().unicode_len();
        if li > m {
            m = li;
        }
    }
    proof {
        assert(names.deep_view().skip(0) =~= names.deep_view());
    }
    m
}

} // verus!
