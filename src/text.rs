//! Text helpers: decimal rendering of integers, the leading lines of a text,
//! and case mapping.

use vstd::prelude::*;

verus! {

/// The character of a decimal digit.
pub open spec fn digit_char(d: nat) -> char {
    seq!['0', '1', '2', '3', '4', '5', '6', '7', '8', '9'][d as int]
}

/// The decimal digits of `n`, most significant first, without leading zeros.
pub open spec fn nat_digits(n: nat) -> Seq<char>
    decreases n,
{
    if n < 10 {
        seq![digit_char(n)]
    } else {
        nat_digits(n / 10).push(digit_char(n % 10))
    }
}

/// The decimal text of `n`, with a leading `-` when it is negative.
pub open spec fn int_text(n: int) -> Seq<char> {
    if n < 0 {
        seq!['-'] + nat_digits((-n) as nat)
    } else {
        nat_digits(n as nat)
    }
}

/// Appends the decimal digits of `n` to `out`.
pub fn push_decimal(out: &mut String, n: u64)
    ensures
        final(out)@ == old(out)@ + nat_digits(n as nat),
    decreases n,
{
    let digits = "0123456789";
    proof {
        reveal_strlit("0123456789");
    }
    assert(digits@ =~= seq!['0', '1', '2', '3', '4', '5', '6', '7', '8', '9']);
    if n >= 10 {
        push_decimal(out, n / 10);
    }
    let d = (n % 10) as usize;
    let piece = digits.substring_char(d, d + 1);
    assert(piece@ =~= seq![digit_char(n as nat % 10)]);
    out.append(piece);
    proof {
        if n >= 10 {
            assert(final(out)@ =~= old(out)@ + nat_digits(n as nat));
        } else {
            assert(final(out)@ =~= old(out)@ + nat_digits(n as nat));
        }
    }
}

/// Appends the decimal text of `n` to `out`.
pub fn push_signed_decimal(out: &mut String, n: i64)
    requires
        n > i64::MIN,
    ensures
        final(out)@ == old(out)@ + int_text(n as int),
{
    if n < 0 {
        let minus = "-";
        proof {
            reveal_strlit("-");
        }
        out.append(minus);
        push_decimal(out, (-n) as u64);
        assert(final(out)@ =~= old(out)@ + int_text(n as int));
    } else {
        push_decimal(out, n as u64);
    }
}

/// Index of the first line feed in `s`, or its length when there is none.
pub open spec fn first_newline(s: Seq<char>) -> nat
    decreases s.len(),
{
    if s.len() == 0 {
        0
    } else if s[0] == '\n' {
        0
    } else {
        1 + first_newline(s.drop_first())
    }
}

/// A line taken from before a line feed, without a carriage return that ends it.
pub open spec fn strip_cr(l: Seq<char>) -> Seq<char> {
    if l.len() > 0 && l.last() == '\r' {
        l.drop_last()
    } else {
        l
    }
}

/// The lines of a text: split at `\n` or `\r\n`; the final line ending is
/// optional, and an empty text has no lines.
pub open spec fn text_lines(s: Seq<char>) -> Seq<Seq<char>>
    decreases s.len(),
{
    if s.len() == 0 {
        seq![]
    } else {
        let e = first_newline(s);
        if e < s.len() {
            seq![strip_cr(s.take(e as int))] + text_lines(s.skip(e + 1 as int))
        } else {
            seq![s]
        }
    }
}

/// Lines joined with `\n` between them.
pub open spec fn join_lines(ls: Seq<Seq<char>>) -> Seq<char>
    decreases ls.len(),
{
    if ls.len() == 0 {
        seq![]
    } else if ls.len() == 1 {
        ls[0]
    } else {
        join_lines(ls.drop_last()) + seq!['\n'] + ls.last()
    }
}

/// The first `k` lines of `s` (all of them if it has fewer), joined with `\n`.
pub open spec fn leading_lines(s: Seq<char>, k: nat) -> Seq<char> {
    let ls = text_lines(s);
    if ls.len() <= k {
        join_lines(ls)
    } else {
        join_lines(ls.take(k as int))
    }
}

/// Relies on std's `str::lines`: the lines of `s`, split at `\n` or `\r\n`,
/// without their line endings, the final line ending being optional.
#[verifier::external_body]
fn split_lines(s: &str) -> (r: Vec<String>)
    ensures
        r@.len() == text_lines(s@).len(),
        forall|i: int| 0 <= i < r@.len() ==> #[trigger] r@[i]@ == text_lines(s@)[i],
{
    s.lines().map(String::from).collect()
}

/// The first `k` lines of `s`, joined with `\n`.
pub fn first_lines(s: &str, k: usize) -> (r: String)
    ensures
        r@ == leading_lines(s@, k as nat),
{
    let lines = split_lines(s);
    let ghost ls = text_lines(s@);
    let n = if lines.len() < k {
        lines.len()
    } else {
        k
    };
    let mut out = String::new();
    let mut i: usize = 0;
    while i < n
        invariant
            n <= lines@.len(),
            n == if ls.len() <= k { ls.len() } else { k as nat },
            lines@.len() == ls.len(),
            forall|j: int| 0 <= j < lines@.len() ==> #[trigger] lines@[j]@ == ls[j],
            0 <= i <= n,
            out@ == join_lines(ls.take(i as int)),
        decreases n - i,
    {
        if i > 0 {
            let nl = "\n";
            proof {
                reveal_strlit("\n");
            }
            out.append(nl);
        }
        out.append(lines[i].as_str());
        proof {
            let t = ls.take(i as int + 1);
            assert(t.drop_last() =~= ls.take(i as int));
            if i == 0 {
                assert(join_lines(t) == t[0]);
            }
        }
        i = i + 1;
    }
    proof {
        if ls.len() <= k {
            assert(ls.take(n as int) =~= ls);
        }
    }
    out
}

/// The result of std's `str::to_uppercase` on a text.
pub uninterp spec fn upper_of(s: Seq<char>) -> Seq<char>;

/// The result of std's `str::to_lowercase` on a text.
pub uninterp spec fn lower_of(s: Seq<char>) -> Seq<char>;

/// Relies on std's `str::to_uppercase`: the result depends on the characters alone.
#[verifier::external_body]
pub(crate) fn uppercase(s: &str) -> (r: String)
    ensures
        r@ == upper_of(s@),
{
    s.to_uppercase()
}

/// Relies on std's `str::to_lowercase`: the result depends on the characters alone.
#[verifier::external_body]
pub(crate) fn lowercase(s: &str) -> (r: String)
    ensures
        r@ == lower_of(s@),
{
    s.to_lowercase()
}

} // verus!

verus! {

/// Whether two texts hold the same characters.
pub fn same_text(a: &str, b: &str) -> (r: bool)
    ensures
        r == (a@ == b@),
{
    let n = a.unicode_len();
    if n != b.unicode_len() {
        return false;
    }
    let mut i: usize = 0;
    while i < n
        invariant
            n == a@.len(),
            n == b@.len(),
            0 <= i <= n,
            forall|j: int| 0 <= j < i ==> a@[j] == b@[j],
        decreases n - i,
    {
        if a.get_char(i) != b.get_char(i) {
            return false;
        }
        i = i + 1;
    }
    assert(a@ =~= b@);
    true
}

} // verus!

verus! {

/// The texts of a list of strings.
pub open spec fn texts(v: Seq<String>) -> Seq<Seq<char>> {
    v.map_values(|s: String| s@)
}

/// The texts of a list of string literals.
pub open spec fn literal_texts(v: Seq<&str>) -> Seq<Seq<char>> {
    v.map_values(|s: &str| s@)
}

/// Appends an owned copy of each literal to `v`, in order.
pub fn extend_with_literals(v: &mut Vec<String>, parts: &[&str])
    ensures
        texts(final(v)@) == texts(old(v)@) + literal_texts(parts@),
{
    let mut i: usize = 0;
    while i < parts.len()
        invariant
            0 <= i <= parts@.len(),
            texts(v@) == texts(old(v)@) + literal_texts(parts@.take(i as int)),
        decreases parts@.len() - i,
    {
        let ghost before = v@;
        v.push(String::from_str(parts[i]));
        proof {
            assert(texts(v@) =~= texts(before) + seq![parts@[i as int]@]);
            assert(literal_texts(parts@.take(i as int + 1)) =~= literal_texts(parts@.take(i as int)) + seq![parts@[i as int]@]);
            assert(texts(v@) =~= texts(old(v)@) + literal_texts(parts@.take(i as int + 1)));
        }
        i = i + 1;
    }
    assert(parts@.take(parts@.len() as int) =~= parts@);
}

/// Owned copies of string literals, in order.
pub fn owned_strings(parts: &[&str]) -> (r: Vec<String>)
    ensures
        texts(r@) == literal_texts(parts@),
{
    let mut v: Vec<String> = Vec::new();
    extend_with_literals(&mut v, parts);
    assert(texts(v@) =~= literal_texts(parts@));
    v
}

} // verus!
