//! Text helpers: whitespace splitting, decimal numbers, string building.
use vstd::prelude::*;
use vstd::string::*;

verus! {

/// Unicode `White_Space`, the set of characters that `char::is_whitespace` accepts.
pub open spec fn is_space(c: char) -> bool {
    let u = c as u32;
    ||| 0x09 <= u <= 0x0d
    ||| u == 0x20
    ||| u == 0x85
    ||| u == 0xa0
    ||| u == 0x1680
    ||| 0x2000 <= u <= 0x200a
    ||| u == 0x2028
    ||| u == 0x2029
    ||| u == 0x202f
    ||| u == 0x205f
    ||| u == 0x3000
}

/// Tells whether `c` is Unicode whitespace.
pub fn is_space_char(c: char) -> (res: bool)
    ensures
        res == is_space(c),
{
    let u = c as u32;
    (0x09 <= u && u <= 0x0d) || u == 0x20 || u == 0x85 || u == 0xa0 || u == 0x1680 || (0x2000
        <= u && u <= 0x200a) || u == 0x2028 || u == 0x2029 || u == 0x202f || u == 0x205f || u
        == 0x3000
}

/// The words of `s`: its maximal runs of characters that are not whitespace, in order.
/// Read from the left, a non-space character either starts a word (at the start of `s`
/// or after whitespace) or extends the word before it.
pub open spec fn words(s: Seq<char>) -> Seq<Seq<char>>
    decreases s.len(),
{
    if s.len() == 0 {
        seq![]
    } else {
        let before = words(s.drop_last());
        let c = s.last();
        if is_space(c) {
            before
        } else if s.len() == 1 || is_space(s[s.len() - 2]) {
            before.push(seq![c])
        } else {
            before.update(before.len() - 1, before.last().push(c))
        }
    }
}

/// The characters of the strings in `v`, one sequence per string.
pub open spec fn strings_view(v: Seq<String>) -> Seq<Seq<char>> {
    v.map_values(|s: String| s@)
}

/// Appends one character to `s`, as `String::push` does.
#[verifier::external_body]
fn push_char(s: &mut String, c: char)
    ensures
        final(s)@ == old(s)@.push(c),
{
    s.push(c)
}

/// Makes an owned copy of `s`.
pub fn owned(s: &str) -> (res: String)
    ensures
        res@ == s@,
{
    s.to_owned()
}

/// Tells whether two strings hold the same characters.
pub fn str_eq(a: &str, b: &str) -> (res: bool)
    ensures
        res == (a@ == b@),
{
    a.to_owned() == b.to_owned()
}

/// `a` followed by `b`.
pub fn join2(a: &str, b: &str) -> (res: String)
    ensures
        res@ == a@ + b@,
{
    let mut r = a.to_owned();
    r.append(b);
    r
}

/// `a`, `b` and `c` in a row.
pub fn join3(a: &str, b: &str, c: &str) -> (res: String)
    ensures
        res@ == a@ + b@ + c@,
{
    let mut r = a.to_owned();
    r.append(b);
    r.append(c);
    r
}

/// `a`, `b`, `c` and `d` in a row.
pub fn join4(a: &str, b: &str, c: &str, d: &str) -> (res: String)
    ensures
        res@ == a@ + b@ + c@ + d@,
{
    let mut r = a.to_owned();
    r.append(b);
    r.append(c);
    r.append(d);
    r
}

/// Splits `s` at whitespace, as `str::split_whitespace` does: the words of `s`,
/// none of them empty.
pub fn split_whitespace(s: &str) -> (res: Vec<String>)
    ensures
        strings_view(res@) == words(s@),
{
    let mut out: Vec<String> = Vec::new();
    let mut cur = String::new();
    let ghost text = s@;
    for c in it: s.chars()
        invariant
            it.seq() == text,
            text == s@,
            words(text.take(it.index() as int)) == strings_view(out@) + if cur@.len() > 0 {
                seq![cur@]
            } else {
                Seq::<Seq<char>>::empty()
            },
            cur@.len() > 0 <==> (it.index() > 0 && !is_space(text[it.index() - 1])),
    {
        let ghost i = it.index() as int;
        let ghost before = out@;
        let ghost w = cur@;
        assert(text.take(i + 1).drop_last() =~= text.take(i));
        assert(text.take(i + 1).last() == c);
        proof {
            if i > 0 {
                assert(text.take(i + 1)[i - 1] == text[i - 1]);
            }
        }
        if is_space_char(c) {
            if !cur.as_str().is_empty() {
                out.push(cur);
                cur = String::new();
                assert(strings_view(out@) =~= strings_view(before) + seq![w]);
            } else {
                assert(strings_view(before) + Seq::<Seq<char>>::empty() =~= strings_view(before));
            }
        } else {
            let was_empty = cur.as_str().is_empty();
            push_char(&mut cur, c);
            if !was_empty {
                assert((strings_view(before) + seq![w]).update(
                    strings_view(before).len() as int,
                    w.push(c),
                ) =~= strings_view(before) + seq![cur@]);
            } else {
                assert(cur@ =~= seq![c]);
                assert((strings_view(before) + Seq::<Seq<char>>::empty()).push(seq![c])
                    =~= strings_view(before) + seq![cur@]);
            }
        }
    }
    assert(text.take(text.len() as int) =~= text);
    if !cur.as_str().is_empty() {
        let ghost before = out@;
        let ghost w = cur@;
        out.push(cur);
        assert(strings_view(out@) =~= strings_view(before) + seq![w]);
    } else {
        assert(strings_view(out@) + Seq::<Seq<char>>::empty() =~= strings_view(out@));
    }
    out
}

/// The decimal digit for `d`, where `0 <= d < 10`.
pub open spec fn digit_char(d: int) -> char {
    if d == 0 {
        '0'
    } else if d == 1 {
        '1'
    } else if d == 2 {
        '2'
    } else if d == 3 {
        '3'
    } else if d == 4 {
        '4'
    } else if d == 5 {
        '5'
    } else if d == 6 {
        '6'
    } else if d == 7 {
        '7'
    } else if d == 8 {
        '8'
    } else {
        '9'
    }
}

/// The decimal digits of `n`, most significant first, without leading zeros.
pub open spec fn decimal_digits(n: nat) -> Seq<char>
    decreases n,
{
    if n < 10 {
        seq![digit_char(n as int)]
    } else {
        decimal_digits(n / 10).push(digit_char((n % 10) as int))
    }
}

/// `n` written in decimal, as `{}` formats an integer: a minus sign before negative numbers.
pub open spec fn decimal(n: int) -> Seq<char> {
    if n < 0 {
        seq!['-'] + decimal_digits((-n) as nat)
    } else {
        decimal_digits(n as nat)
    }
}

fn digit(d: u64) -> (c: char)
    requires
        d < 10,
    ensures
        c == digit_char(d as int),
{
    if d == 0 {
        '0'
    } else if d == 1 {
        '1'
    } else if d == 2 {
        '2'
    } else if d == 3 {
        '3'
    } else if d == 4 {
        '4'
    } else if d == 5 {
        '5'
    } else if d == 6 {
        '6'
    } else if d == 7 {
        '7'
    } else if d == 8 {
        '8'
    } else {
        '9'
    }
}

fn push_digits(s: &mut String, m: u64)
    ensures
        final(s)@ == old(s)@ + decimal_digits(m as nat),
    decreases m,
{
    if m >= 10 {
        push_digits(s, m / 10);
    }
    push_char(s, digit(m % 10));
    proof {
        if m >= 10 {
            assert(decimal_digits(m as nat) == decimal_digits((m / 10) as nat).push(
                digit_char((m % 10) as int),
            ));
        }
    }
    assert(final(s)@ =~= old(s)@ + decimal_digits(m as nat));
}

/// Writes `n` in decimal.
pub fn decimal_string(n: i64) -> (res: String)
    ensures
        res@ == decimal(n as int),
{
    let mut r = String::new();
    if n < 0 {
        push_char(&mut r, '-');
        let m: u64 = (-(n as i128)) as u64;
        push_digits(&mut r, m);
    } else {
        push_digits(&mut r, n as u64);
    }
    r
}

} // verus!
