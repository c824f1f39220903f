//! Small verified string-building helpers shared by the other modules.

use vstd::prelude::*;

verus! {

/// The lowercase hexadecimal digit for a nibble value; also the decimal
/// digit for values below ten.
pub open spec fn hex_char(n: int) -> char {
    if n == 0 {
        '0'
    } else if n == 1 {
        '1'
    } else if n == 2 {
        '2'
    } else if n == 3 {
        '3'
    } else if n == 4 {
        '4'
    } else if n == 5 {
        '5'
    } else if n == 6 {
        '6'
    } else if n == 7 {
        '7'
    } else if n == 8 {
        '8'
    } else if n == 9 {
        '9'
    } else if n == 10 {
        'a'
    } else if n == 11 {
        'b'
    } else if n == 12 {
        'c'
    } else if n == 13 {
        'd'
    } else if n == 14 {
        'e'
    } else {
        'f'
    }
}

/// One-character string slice for a nibble value.
pub fn hex_digit_str(n: u8) -> (r: &'static str)
    requires
        n < 16,
    ensures
        r@ =~= seq![hex_char(n as int)],
{
    proof {
        reveal_strlit("0");
        reveal_strlit("1");
        reveal_strlit("2");
        reveal_strlit("3");
        reveal_strlit("4");
        reveal_strlit("5");
        reveal_strlit("6");
        reveal_strlit("7");
        reveal_strlit("8");
        reveal_strlit("9");
        reveal_strlit("a");
        reveal_strlit("b");
        reveal_strlit("c");
        reveal_strlit("d");
        reveal_strlit("e");
        reveal_strlit("f");
    }
    match n {
        0 => "0",
        1 => "1",
        2 => "2",
        3 => "3",
        4 => "4",
        5 => "5",
        6 => "6",
        7 => "7",
        8 => "8",
        9 => "9",
        10 => "a",
        11 => "b",
        12 => "c",
        13 => "d",
        14 => "e",
        _ => "f",
    }
}

/// Decimal rendering of a natural number, most significant digit first.
pub open spec fn dec_spec(n: nat) -> Seq<char>
    decreases n,
{
    if n < 10 {
        seq![hex_char(n as int)]
    } else {
        dec_spec(n / 10) + seq![hex_char((n % 10) as int)]
    }
}

/// Decimal rendering of a `u32`, e.g. for HTTP status codes in messages.
pub fn decimal_string(n: u32) -> (r: String)
    ensures
        r@ == dec_spec(n as nat),
    decreases n,
{
    if n < 10 {
        let d: &'static str = hex_digit_str(n as u8);
        d.to_owned()
    } else {
        let mut s = decimal_string(n / 10);
        s.append(hex_digit_str((n % 10) as u8));
        proof {
            assert(s@ =~= dec_spec(n as nat));
        }
        s
    }
}

/// Concatenation of two string slices into an owned string.
pub fn join2(a: &str, b: &str) -> (r: String)
    ensures
        r@ == a@ + b@,
{
    let mut s = a.to_owned();
    s.append(b);
    s
}

/// The elements of `parts` joined with `sep` between neighbours.
pub open spec fn join_spec(parts: Seq<Seq<char>>, sep: Seq<char>) -> Seq<char>
    decreases parts.len(),
{
    if parts.len() == 0 {
        Seq::<char>::empty()
    } else if parts.len() == 1 {
        parts[0]
    } else {
        parts[0] + sep + join_spec(parts.drop_first(), sep)
    }
}

/// Joins owned strings with a separator, e.g. for listing searched paths.
pub fn join_with(parts: &Vec<String>, sep: &str) -> (r: String)
    ensures
        r@ == join_spec(parts@.map_values(|p: String| p@), sep@),
{
    let ghost views = parts@.map_values(|p: String| p@);
    let mut out = String::new();
    let mut i: usize = 0;
    while i < parts.len()
        invariant
            i <= parts.len(),
            views == parts@.map_values(|p: String| p@),
            views.len() == parts@.len(),
            out@ == join_prefix_spec(views, sep@, i as int),
        decreases parts.len() - i,
    {
        if i > 0 {
            out.append(sep);
        }
        out.append(parts[i].as_str());
        proof {
            lemma_join_prefix_step(views, sep@, i as int);
        }
        i = i + 1;
    }
    proof {
        lemma_join_prefix_full(views, sep@);
    }
    out
}

/// The join of the first `i` elements of `parts`.
pub open spec fn join_prefix_spec(parts: Seq<Seq<char>>, sep: Seq<char>, i: int) -> Seq<char>
    decreases i,
{
    if i <= 0 {
        Seq::<char>::empty()
    } else if i == 1 {
        parts[0]
    } else {
        join_prefix_spec(parts, sep, i - 1) + sep + parts[i - 1]
    }
}

proof fn lemma_join_prefix_step(parts: Seq<Seq<char>>, sep: Seq<char>, i: int)
    requires
        0 <= i < parts.len(),
    ensures
        i == 0 ==> join_prefix_spec(parts, sep, i + 1) == parts[0],
        i > 0 ==> join_prefix_spec(parts, sep, i + 1) == join_prefix_spec(parts, sep, i) + sep
            + parts[i],
{
}

proof fn lemma_join_prefix_full(parts: Seq<Seq<char>>, sep: Seq<char>)
    ensures
        join_prefix_spec(parts, sep, parts.len() as int) == join_spec(parts, sep),
    decreases parts.len(),
{
    if parts.len() <= 1 {
    } else {
        let rest = parts.drop_first();
        lemma_join_prefix_full(rest, sep);
        lemma_join_prefix_shift(parts, sep, parts.len() as int);
    }
}

proof fn lemma_join_prefix_shift(parts: Seq<Seq<char>>, sep: Seq<char>, i: int)
    requires
        parts.len() >= 2,
        2 <= i <= parts.len(),
    ensures
        join_prefix_spec(parts, sep, i) == parts[0] + sep + join_prefix_spec(
            parts.drop_first(),
            sep,
            i - 1,
        ),
    decreases i,
{
    let rest = parts.drop_first();
    if i == 2 {
        assert(join_prefix_spec(parts, sep, 2) == parts[0] + sep + parts[1]);
        assert(join_prefix_spec(rest, sep, 1) == rest[0]);
        assert(rest[0] == parts[1]);
    } else {
        lemma_join_prefix_shift(parts, sep, i - 1);
        assert(join_prefix_spec(parts, sep, i) == join_prefix_spec(parts, sep, i - 1) + sep
            + parts[i - 1]);
        assert(rest[i - 2] == parts[i - 1]);
        assert((parts[0] + sep + join_prefix_spec(rest, sep, i - 2)) + sep + rest[i - 2] =~= parts[0]
            + sep + (join_prefix_spec(rest, sep, i - 2) + sep + rest[i - 2]));
    }
}

} // verus!
