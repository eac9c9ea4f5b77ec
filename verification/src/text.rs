//! Small verified text helpers: decimal rendering of ids and page numbers,
//! and splitting on a separator character.  The endpoint builders and the
//! configuration parser are built on these.

use vstd::prelude::*;

verus! {

/// The character for one decimal digit.
pub open spec fn spec_digit_char(d: nat) -> char {
    if d == 0 {
        '0'
    } else if d == 1 {
        '1'
    } else if d == 2 {
        '2'
    } else if d == 3 {
        '3'
    } else if d == 4 {
        '4'
    } else if d == 5 {
        '5'
    } else if d == 6 {
        '6'
    } else if d == 7 {
        '7'
    } else if d == 8 {
        '8'
    } else {
        '9'
    }
}

/// The decimal rendering of `n`, most significant digit first, without
/// leading zeros (`0` renders as "0").
pub open spec fn spec_dec_digits(n: nat) -> Seq<char>
    decreases n,
{
    if n < 10 {
        seq![spec_digit_char(n)]
    } else {
        spec_dec_digits(n / 10).push(spec_digit_char(n % 10))
    }
}

/// The one-character string for a decimal digit.
fn digit_str(d: u32) -> (r: &'static str)
    requires
        d < 10,
    ensures
        r@ =~= seq![spec_digit_char(d as nat)],
{
    proof {
        reveal_strlit("0");
        reveal_strlit("1");
        reveal_strlit("2");
        reveal_strlit("3");
        reveal_strlit("4");
        reveal_strlit("5");
        reveal_strlit("6");
        reveal_strlit("7");
        reveal_strlit("8");
        reveal_strlit("9");
    }
    match d {
        0 => "0",
        1 => "1",
        2 => "2",
        3 => "3",
        4 => "4",
        5 => "5",
        6 => "6",
        7 => "7",
        8 => "8",
        _ => "9",
    }
}

/// Append the decimal rendering of `n` to `out`.
fn append_dec(out: &mut String, n: u32)
    ensures
        final(out)@ == old(out)@ + spec_dec_digits(n as nat),
    decreases n,
{
    if n >= 10 {
        append_dec(out, n / 10);
    }
    let d = digit_str(n % 10);
    out.append(d);
    proof {
        if n >= 10 {
            assert(spec_dec_digits(n as nat) =~= spec_dec_digits(n as nat / 10).push(
                spec_digit_char(n as nat % 10),
            ));
            assert(final(out)@ =~= old(out)@ + spec_dec_digits(n as nat));
        } else {
            assert(spec_dec_digits(n as nat) =~= seq![spec_digit_char(n as nat)]);
            assert(final(out)@ =~= old(out)@ + spec_dec_digits(n as nat));
        }
    }
}

/// The fields of `s` between occurrences of `sep`, `cur` being the part of
/// the current field read so far.
pub open spec fn spec_split_acc(s: Seq<char>, sep: char, cur: Seq<char>) -> Seq<Seq<char>>
    decreases s.len(),
{
    if s.len() == 0 {
        seq![cur]
    } else if s[0] == sep {
        seq![cur] + spec_split_acc(s.drop_first(), sep, Seq::empty())
    } else {
        spec_split_acc(s.drop_first(), sep, cur.push(s[0]))
    }
}

/// The fields of `s` between occurrences of `sep`: always one more field
/// than separators, so an empty string splits into one empty field.
pub open spec fn spec_split(s: Seq<char>, sep: char) -> Seq<Seq<char>> {
    spec_split_acc(s, sep, Seq::empty())
}

/// The views of a sequence of strings.
pub open spec fn views_of(v: Seq<String>) -> Seq<Seq<char>> {
    v.map_values(|t: String| t@)
}

/// Split `s` on every occurrence of `sep`.
pub fn split_on_char(s: &str, sep: char) -> (r: Vec<String>)
    ensures
        views_of(r@) == spec_split(s@, sep),
{
    let n = s.unicode_len();
    let mut fields: Vec<String> = Vec::new();
    let mut start: usize = 0;
    let mut i: usize = 0;
    proof {
        assert(s@.skip(0) =~= s@);
        assert(s@.subrange(0, 0) =~= Seq::<char>::empty());
        assert(views_of(fields@) =~= Seq::<Seq<char>>::empty());
        assert(views_of(fields@) + spec_split_acc(s@.skip(0), sep, s@.subrange(0, 0))
            =~= spec_split(s@, sep));
    }
    while i < n
        invariant
            start <= i <= n,
            n == s@.len(),
            spec_split(s@, sep) =~= views_of(fields@) + spec_split_acc(
                s@.skip(i as int),
                sep,
                s@.subrange(start as int, i as int),
            ),
        decreases n - i,
    {
        let ghost views_before = views_of(fields@);
        let ghost cur_before = s@.subrange(start as int, i as int);
        let c = s.get_char(i);
        proof {
            assert(s@.skip(i as int)[0] == s@[i as int]);
            assert(s@.skip(i as int).drop_first() =~= s@.skip(i as int + 1));
        }
        if c == sep {
            let field = s.substring_char(start, i);
            fields.push(String::from_str(field));
            start = i + 1;
            proof {
                assert(views_of(fields@) =~= views_before.push(cur_before));
                assert(s@.subrange(i as int + 1, i as int + 1) =~= Seq::<char>::empty());
                assert(spec_split_acc(s@.skip(i as int), sep, cur_before) =~= seq![cur_before]
                    + spec_split_acc(s@.skip(i as int + 1), sep, Seq::empty()));
                assert(views_before + spec_split_acc(s@.skip(i as int), sep, cur_before)
                    =~= views_of(fields@) + spec_split_acc(
                    s@.skip(i as int + 1),
                    sep,
                    Seq::empty(),
                ));
            }
        } else {
            proof {
                assert(cur_before.push(s@[i as int]) =~= s@.subrange(start as int, i as int + 1));
                assert(spec_split_acc(s@.skip(i as int), sep, cur_before) =~= spec_split_acc(
                    s@.skip(i as int + 1),
                    sep,
                    s@.subrange(start as int, i as int + 1),
                ));
            }
        }
        i += 1;
    }
    let field = s.substring_char(start, n);
    fields.push(String::from_str(field));
    proof {
        assert(s@.skip(n as int) =~= Seq::<char>::empty());
        assert(spec_split_acc(s@.skip(n as int), sep, s@.subrange(start as int, n as int))
            =~= seq![s@.subrange(start as int, n as int)]);
        assert(views_of(fields@) =~= spec_split(s@, sep));
    }
    fields
}

/// Index of the first occurrence of `c` in `s` at or after `from`.
pub open spec fn first_char_at(s: Seq<char>, c: char, from: int) -> Option<int>
    decreases s.len() - from,
{
    if from < 0 || from >= s.len() {
        None
    } else if s[from] == c {
        Some(from)
    } else {
        first_char_at(s, c, from + 1)
    }
}

/// What `first_char_at` returns: the first occurrence, if any.
pub proof fn lemma_first_char_at(s: Seq<char>, c: char, from: int)
    requires
        0 <= from,
    ensures
        match first_char_at(s, c, from) {
            Some(i) => {
                &&& from <= i < s.len()
                &&& s[i] == c
                &&& forall|j: int| from <= j < i ==> s[j] != c
            },
            None => forall|j: int| from <= j < s.len() ==> s[j] != c,
        },
    decreases s.len() - from,
{
    if from < 0 || from >= s.len() {
    } else if s[from] == c {
    } else {
        lemma_first_char_at(s, c, from + 1);
    }
}

/// Position of the first occurrence of `c` in `s`, if any.
pub fn find_char(s: &str, c: char) -> (r: Option<usize>)
    ensures
        match r {
            Some(i) => first_char_at(s@, c, 0) == Some(i as int),
            None => first_char_at(s@, c, 0) is None,
        },
{
    let n = s.unicode_len();
    let mut i: usize = 0;
    while i < n
        invariant
            i <= n,
            n == s@.len(),
            first_char_at(s@, c, 0) == first_char_at(s@, c, i as int),
        decreases n - i,
    {
        if s.get_char(i) == c {
            return Some(i);
        }
        i += 1;
    }
    None
}

/// Whether two strings hold the same characters.
pub fn str_eq(a: &str, b: &str) -> (r: bool)
    ensures
        r == (a@ == b@),
{
    let sa = String::from_str(a);
    let sb = String::from_str(b);
    sa == sb
}

/// The decimal rendering of `n` as a string.
pub fn dec_string(n: u32) -> (r: String)
    ensures
        r@ == spec_dec_digits(n as nat),
{
    let mut out = String::new();
    append_dec(&mut out, n);
    proof {
        assert(out@ =~= spec_dec_digits(n as nat));
    }
    out
}

} // verus!
