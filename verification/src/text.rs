//! Small verified helpers on strings: equality, decimal rendering and
//! splitting text into lines.
use vstd::prelude::*;
use vstd::string::*;

verus! {

/// The character for a decimal digit.
pub open spec fn digit_char(d: nat) -> char {
    if d == 0 {
        '0'
    } else if d == 1 {
        '1'
    } else if d == 2 {
        '2'
    } else if d == 3 {
        '3'
    } else if d == 4 {
        '4'
    } else if d == 5 {
        '5'
    } else if d == 6 {
        '6'
    } else if d == 7 {
        '7'
    } else if d == 8 {
        '8'
    } else {
        '9'
    }
}

/// The decimal rendering of a natural number, without leading zeros.
pub open spec fn decimal(n: nat) -> Seq<char>
    decreases n,
{
    if n < 10 {
        seq![digit_char(n)]
    } else {
        decimal(n / 10).push(digit_char(n % 10))
    }
}

/// The decimal rendering of an integer, with a leading `-` when negative.
pub open spec fn signed_decimal(i: int) -> Seq<char> {
    if i < 0 {
        seq!['-'] + decimal((-i) as nat)
    } else {
        decimal(i as nat)
    }
}

/// Whether a character is a decimal digit, `0` to `9`.
pub open spec fn is_digit(c: char) -> bool {
    '0' <= c <= '9'
}

/// The number that a string of decimal digits stands for, read in base 10
/// with the most significant digit first.
pub open spec fn numeral_value(s: Seq<char>) -> int
    decreases s.len(),
{
    if s.len() == 0 {
        0
    } else {
        numeral_value(s.drop_last()) * 10 + (s.last() as int - '0' as int)
    }
}

/// The decimal rendering of a number is that number in base 10: it is made
/// of decimal digits, it starts with `0` only when it is `0` itself, and read
/// back as a base-10 numeral it gives the number.
pub proof fn lemma_decimal_reads_back(n: nat)
    ensures
        forall|i: int| 0 <= i < decimal(n).len() ==> is_digit(#[trigger] decimal(n)[i]),
        decimal(n).len() >= 1,
        decimal(n)[0] == '0' ==> n == 0,
        numeral_value(decimal(n)) == n,
    decreases n,
{
    if n >= 10 {
        lemma_decimal_reads_back(n / 10);
        let d = n % 10;
        let s = decimal(n);
        assert(s.drop_last() =~= decimal(n / 10));
        assert(s[0] == decimal(n / 10)[0]);
        assert(s.last() as int - '0' as int == d);
        assert(forall|i: int| 0 <= i < s.len() - 1 ==> s[i] == decimal(n / 10)[i]);
        assert(numeral_value(s) == numeral_value(decimal(n / 10)) * 10 + d);
        assert((n / 10) * 10 + n % 10 == n) by (nonlinear_arith);
    } else {
        let s = decimal(n);
        assert(s[0] as int - '0' as int == n);
        assert(s.drop_last() =~= Seq::<char>::empty());
        assert(numeral_value(s.drop_last()) == 0);
        assert(numeral_value(s) == numeral_value(s.drop_last()) * 10 + (s.last() as int - '0' as int));
    }
}

/// Text equality of two string slices.
pub fn str_eq(a: &str, b: &str) -> (r: bool)
    ensures
        r == (a@ == b@),
{
    let x = a.to_owned();
    let y = b.to_owned();
    x == y
}

fn digit_str(d: u64) -> (r: &'static str)
    requires
        d < 10,
    ensures
        r@ == seq![digit_char(d as nat)],
{
    proof {
        reveal_strlit("0");
        reveal_strlit("1");
        reveal_strlit("2");
        reveal_strlit("3");
        reveal_strlit("4");
        reveal_strlit("5");
        reveal_strlit("6");
        reveal_strlit("7");
        reveal_strlit("8");
        reveal_strlit("9");
    }
    if d == 0 {
        "0"
    } else if d == 1 {
        "1"
    } else if d == 2 {
        "2"
    } else if d == 3 {
        "3"
    } else if d == 4 {
        "4"
    } else if d == 5 {
        "5"
    } else if d == 6 {
        "6"
    } else if d == 7 {
        "7"
    } else if d == 8 {
        "8"
    } else {
        "9"
    }
}

/// Appends the decimal rendering of `n` to `s`.
pub fn push_decimal(s: &mut String, n: u64)
    ensures
        final(s)@ == old(s)@ + decimal(n as nat),
    decreases n,
{
    if n >= 10 {
        push_decimal(s, n / 10);
        let d = digit_str(n % 10);
        s.append(d);
        proof {
            assert(decimal(n as nat) == decimal((n / 10) as nat).push(digit_char((n % 10) as nat)));
        }
    } else {
        let d = digit_str(n);
        s.append(d);
    }
}

/// Appends the decimal rendering of a signed number to `s`.
pub fn push_signed_decimal(s: &mut String, n: i64)
    ensures
        final(s)@ == old(s)@ + signed_decimal(n as int),
{
    if n < 0 {
        proof {
            reveal_strlit("-");
        }
        s.append("-");
        let magnitude: u64 = if n == i64::MIN {
            9223372036854775808u64
        } else {
            (-n) as u64
        };
        push_decimal(s, magnitude);
        proof {
            assert(s@ == old(s)@ + seq!['-'] + decimal((-n) as nat));
        }
    } else {
        push_decimal(s, n as u64);
    }
}

/// Concatenation of two string slices into a new string.
pub fn concat2(a: &str, b: &str) -> (r: String)
    ensures
        r@ == a@ + b@,
{
    let mut r = a.to_owned();
    r.append(b);
    r
}

/// Concatenation of three string slices into a new string.
pub fn concat3(a: &str, b: &str, c: &str) -> (r: String)
    ensures
        r@ == a@ + b@ + c@,
{
    let mut r = a.to_owned();
    r.append(b);
    r.append(c);
    r
}

/// The pieces of `rest` between newlines, with `current` the start of the
/// first piece, leaving out the empty pieces.
pub open spec fn nonempty_lines_from(rest: Seq<char>, current: Seq<char>) -> Seq<Seq<char>>
    decreases rest.len(),
{
    if rest.len() == 0 {
        if current.len() > 0 {
            seq![current]
        } else {
            seq![]
        }
    } else if rest[0] == '\n' {
        (if current.len() > 0 {
            seq![current]
        } else {
            seq![]
        }) + nonempty_lines_from(rest.drop_first(), seq![])
    } else {
        nonempty_lines_from(rest.drop_first(), current.push(rest[0]))
    }
}

/// The lines of a text that are not empty, in order: the pieces between
/// newline characters, without the empty ones.
pub open spec fn nonempty_lines(text: Seq<char>) -> Seq<Seq<char>> {
    nonempty_lines_from(text, seq![])
}

proof fn lemma_lines_from_split(a: Seq<char>, b: Seq<char>, current: Seq<char>)
    ensures
        nonempty_lines_from(a + seq!['\n'] + b, current) == nonempty_lines_from(a, current)
            + nonempty_lines_from(b, seq![]),
    decreases a.len(),
{
    let t = a + seq!['\n'] + b;
    if a.len() == 0 {
        assert(t[0] == '\n');
        assert(t.drop_first() =~= b);
    } else {
        assert(t[0] == a[0]);
        assert(t.drop_first() =~= a.drop_first() + seq!['\n'] + b);
        if a[0] == '\n' {
            lemma_lines_from_split(a.drop_first(), b, seq![]);
            let head = if current.len() > 0 {
                seq![current]
            } else {
                Seq::<Seq<char>>::empty()
            };
            assert(head + (nonempty_lines_from(a.drop_first(), seq![]) + nonempty_lines_from(b, seq![]))
                =~= head + nonempty_lines_from(a.drop_first(), seq![]) + nonempty_lines_from(b, seq![]));
        } else {
            lemma_lines_from_split(a.drop_first(), b, current.push(a[0]));
        }
    }
}

proof fn lemma_lines_from_single(t: Seq<char>, current: Seq<char>)
    requires
        forall|i: int| 0 <= i < t.len() ==> t[i] != '\n',
    ensures
        nonempty_lines_from(t, current) == if current.len() + t.len() > 0 {
            seq![current + t]
        } else {
            Seq::<Seq<char>>::empty()
        },
    decreases t.len(),
{
    if t.len() == 0 {
        assert(current + t =~= current);
    } else {
        assert(t[0] != '\n');
        lemma_lines_from_single(t.drop_first(), current.push(t[0]));
        assert(current.push(t[0]) + t.drop_first() =~= current + t);
    }
}

/// Splitting a text into its non-empty lines takes a newline as the border
/// between the lines before it and those after it; a text without a
/// newline is one line, unless it is empty, which has none.
pub proof fn lemma_nonempty_lines_split_at_newlines(a: Seq<char>, b: Seq<char>)
    ensures
        nonempty_lines(a + seq!['\n'] + b) == nonempty_lines(a) + nonempty_lines(b),
        (forall|i: int| 0 <= i < a.len() ==> a[i] != '\n') ==> nonempty_lines(a) == if a.len() > 0 {
            seq![a]
        } else {
            Seq::<Seq<char>>::empty()
        },
{
    lemma_lines_from_split(a, b, seq![]);
    if forall|i: int| 0 <= i < a.len() ==> a[i] != '\n' {
        lemma_lines_from_single(a, seq![]);
        assert(Seq::<char>::empty() + a =~= a);
    }
}

/// The lines of a text that are not empty, in order.
pub fn split_nonempty_lines(text: &str) -> (r: Vec<String>)
    ensures
        r@.map_values(|s: String| s@) == nonempty_lines(text@),
{
    let n = text.unicode_len();
    let mut out: Vec<String> = Vec::new();
    let mut start: usize = 0;
    let mut i: usize = 0;
    assert(text@.skip(0) =~= text@);
    assert(text@.subrange(0, 0) =~= Seq::<char>::empty());
    while i < n
        invariant
            n == text@.len(),
            start <= i <= n,
            out@.map_values(|s: String| s@) + nonempty_lines_from(
                text@.skip(i as int),
                text@.subrange(start as int, i as int),
            ) == nonempty_lines(text@),
        decreases n - i,
    {
        let c = text.get_char(i);
        let ghost rest = text@.skip(i as int);
        let ghost cur = text@.subrange(start as int, i as int);
        assert(rest.drop_first() =~= text@.skip(i + 1));
        assert(rest[0] == c);
        if c == '\n' {
            if start < i {
                let piece = text.substring_char(start, i).to_owned();
                let ghost old_out = out@;
                out.push(piece);
                assert(out@.map_values(|s: String| s@) =~= old_out.map_values(|s: String| s@) + seq![cur]);
            } else {
                assert(cur.len() == 0);
            }
            start = i + 1;
            assert(text@.subrange(start as int, (i + 1) as int) =~= Seq::<char>::empty());
        } else {
            assert(cur.push(c) =~= text@.subrange(start as int, (i + 1) as int));
        }
        i = i + 1;
    }
    if start < n {
        let piece = text.substring_char(start, n).to_owned();
        let ghost old_out = out@;
        out.push(piece);
        assert(out@.map_values(|s: String| s@) =~= old_out.map_values(|s: String| s@) + seq![
            text@.subrange(start as int, n as int),
        ]);
    }
    assert(text@.skip(n as int).len() == 0);
    assert(out@.map_values(|s: String| s@) =~= nonempty_lines(text@));
    out
}

} // verus!
