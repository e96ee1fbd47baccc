//! Array and sequence utilities: locating a sub-array inside a buffer, and
//! rendering vectors of numbers as space-joined decimal strings.

use vstd::prelude::*;

verus! {

/// `sub` occurs in `a` starting at index `i`.
pub open spec fn spec_match_at(a: Seq<u8>, sub: Seq<u8>, i: int) -> bool {
    &&& 0 <= i
    &&& i + sub.len() <= a.len()
    &&& forall|k: int| 0 <= k < sub.len() ==> a[i + k] == sub[k]
}

/// The index of the first occurrence of `sub_a` inside `a`, if any.
pub fn index_of_sub_array(a: Vec<u8>, sub_a: Vec<u8>) -> (r: Option<usize>)
    ensures
        match r {
            Some(i) => spec_match_at(a@, sub_a@, i as int) && (forall|j: int|
                0 <= j < i ==> !spec_match_at(a@, sub_a@, j)),
            None => forall|j: int| !spec_match_at(a@, sub_a@, j),
        },
{
    index_of_sub_slice(a.as_slice(), sub_a.as_slice())
}

/// The index of the first occurrence of `sub` inside `a`, if any.
pub fn index_of_sub_slice(a: &[u8], sub: &[u8]) -> (r: Option<usize>)
    ensures
        match r {
            Some(i) => spec_match_at(a@, sub@, i as int) && (forall|j: int|
                0 <= j < i ==> !spec_match_at(a@, sub@, j)),
            None => forall|j: int| !spec_match_at(a@, sub@, j),
        },
{
    if sub.len() > a.len() {
        return None;
    }
    if sub.len() == 0 {
        return Some(0);
    }
    let last = a.len() - sub.len();
    let mut i: usize = 0;
    while i <= last
        invariant
            1 <= sub@.len() <= a@.len(),
            a@.len() <= usize::MAX,
            last == a@.len() - sub@.len(),
            0 <= i <= last + 1,
            forall|j: int| 0 <= j < i ==> !spec_match_at(a@, sub@, j),
        decreases last + 1 - i,
    {
        let mut k: usize = 0;
        let mut mismatch = false;
        while k < sub.len()
            invariant
                1 <= sub@.len() <= a@.len(),
                a@.len() <= usize::MAX,
                0 <= i <= a@.len() - sub@.len(),
                0 <= k <= sub@.len(),
                !mismatch ==> forall|m: int| 0 <= m < k ==> a@[i + m] == sub@[m],
                mismatch ==> !spec_match_at(a@, sub@, i as int),
            decreases sub@.len() - k,
        {
            if a[i + k] != sub[k] {
                mismatch = true;
                k = sub.len();
            } else {
                k = k + 1;
            }
        }
        if !mismatch {
            return Some(i);
        }
        i = i + 1;
    }
    assert(forall|j: int| j > last ==> !spec_match_at(a@, sub@, j));
    None
}

/// Appends one character to a string.
///
/// Relies on `String::push`: appends the given character to the end of the
/// string, changing nothing else.
#[verifier::external_body]
pub fn push_char(s: &mut String, c: char)
    ensures
        final(s)@ == old(s)@ + seq![c],
{
    s.push(c);
}

/// The decimal digit `d` as a character.
pub open spec fn spec_digit(d: int) -> char
    recommends
        0 <= d <= 9,
{
    if d == 0 {
        '0'
    } else if d == 1 {
        '1'
    } else if d == 2 {
        '2'
    } else if d == 3 {
        '3'
    } else if d == 4 {
        '4'
    } else if d == 5 {
        '5'
    } else if d == 6 {
        '6'
    } else if d == 7 {
        '7'
    } else if d == 8 {
        '8'
    } else {
        '9'
    }
}

/// The decimal representation of a non-negative integer, most significant
/// digit first and without leading zeroes (`0` itself is `"0"`).
pub open spec fn spec_dec(n: int) -> Seq<char>
    recommends
        n >= 0,
    decreases n,
{
    if n < 10 {
        seq![spec_digit(n)]
    } else {
        spec_dec(n / 10) + seq![spec_digit(n % 10)]
    }
}

/// The decimal representation of an integer, with a leading `-` when negative.
pub open spec fn spec_dec_int(n: int) -> Seq<char> {
    if n < 0 {
        seq!['-'] + spec_dec(-n)
    } else {
        spec_dec(n)
    }
}

fn digit_str(d: u64) -> (r: &'static str)
    requires
        d < 10,
    ensures
        r@ == seq![spec_digit(d as int)],
{
    proof {
        reveal_strlit("0");
        reveal_strlit("1");
        reveal_strlit("2");
        reveal_strlit("3");
        reveal_strlit("4");
        reveal_strlit("5");
        reveal_strlit("6");
        reveal_strlit("7");
        reveal_strlit("8");
        reveal_strlit("9");
    }
    let r = if d == 0 {
        "0"
    } else if d == 1 {
        "1"
    } else if d == 2 {
        "2"
    } else if d == 3 {
        "3"
    } else if d == 4 {
        "4"
    } else if d == 5 {
        "5"
    } else if d == 6 {
        "6"
    } else if d == 7 {
        "7"
    } else if d == 8 {
        "8"
    } else {
        "9"
    };
    proof {
        assert(r@ =~= seq![spec_digit(d as int)]);
    }
    r
}

/// Renders `n` in decimal.
pub fn u64_to_dec_string(n: u64) -> (s: String)
    ensures
        s@ == spec_dec(n as int),
    decreases n,
{
    if n < 10 {
        digit_str(n).to_owned()
    } else {
        let mut s = u64_to_dec_string(n / 10);
        s.append(digit_str(n % 10));
        s
    }
}

/// Renders `n` in decimal, with a leading `-` when negative.
pub fn i64_to_dec_string(n: i64) -> (s: String)
    ensures
        s@ == spec_dec_int(n as int),
{
    if n >= 0 {
        u64_to_dec_string(n as u64)
    } else {
        let mag: u64 = ((-(n + 1)) as u64) + 1;
        assert(mag == -(n as int));
        let mut s = "-".to_owned();
        s.append(u64_to_dec_string(mag).as_str());
        proof {
            reveal_strlit("-");
            assert("-"@ =~= seq!['-']);
        }
        s
    }
}

/// The decimal renderings of the elements of `s`, joined by single spaces.
pub open spec fn spec_join_dec(s: Seq<i64>) -> Seq<char>
    decreases s.len(),
{
    if s.len() == 0 {
        Seq::empty()
    } else if s.len() == 1 {
        spec_dec_int(s[0] as int)
    } else {
        spec_join_dec(s.drop_last()) + seq![' '] + spec_dec_int(s.last() as int)
    }
}

/// A numerator/denominator pair rendered as `"num/den"`.
pub open spec fn spec_rational(p: (i64, i64)) -> Seq<char> {
    spec_dec_int(p.0 as int) + seq!['/'] + spec_dec_int(p.1 as int)
}

/// The `"num/den"` renderings of the pairs of `s`, joined by single spaces.
pub open spec fn spec_join_rationals(s: Seq<(i64, i64)>) -> Seq<char>
    decreases s.len(),
{
    if s.len() == 0 {
        Seq::empty()
    } else if s.len() == 1 {
        spec_rational(s[0])
    } else {
        spec_join_rationals(s.drop_last()) + seq![' '] + spec_rational(s.last())
    }
}

/// Renders the elements of `vec` in decimal, joined by single spaces.
pub fn get_vec_as_string(vec: &Vec<i64>) -> (s: String)
    ensures
        s@ == spec_join_dec(vec@),
{
    let mut s = String::new();
    let mut i: usize = 0;
    while i < vec.len()
        invariant
            0 <= i <= vec@.len(),
            s@ == spec_join_dec(vec@.take(i as int)),
        decreases vec@.len() - i,
    {
        if i > 0 {
            s.append(" ");
            proof {
                reveal_strlit(" ");
                assert(" "@ =~= seq![' ']);
            }
        }
        s.append(i64_to_dec_string(vec[i]).as_str());
        proof {
            let t = vec@.take(i + 1 as int);
            assert(t.drop_last() =~= vec@.take(i as int));
            assert(t.last() == vec@[i as int]);
        }
        i = i + 1;
    }
    proof {
        assert(vec@.take(vec@.len() as int) =~= vec@);
    }
    s
}

/// Renders the pairs of `vec` as `"num/den"`, joined by single spaces.
pub fn get_ratioanls_vec_as_string(vec: &Vec<(i64, i64)>) -> (s: String)
    ensures
        s@ == spec_join_rationals(vec@),
{
    let mut s = String::new();
    let mut i: usize = 0;
    while i < vec.len()
        invariant
            0 <= i <= vec@.len(),
            s@ == spec_join_rationals(vec@.take(i as int)),
        decreases vec@.len() - i,
    {
        if i > 0 {
            s.append(" ");
            proof {
                reveal_strlit(" ");
                assert(" "@ =~= seq![' ']);
            }
        }
        let p = vec[i];
        s.append(i64_to_dec_string(p.0).as_str());
        s.append("/");
        proof {
            reveal_strlit("/");
            assert("/"@ =~= seq!['/']);
        }
        s.append(i64_to_dec_string(p.1).as_str());
        proof {
            let t = vec@.take(i + 1 as int);
            assert(t.drop_last() =~= vec@.take(i as int));
            assert(t.last() == vec@[i as int]);
        }
        i = i + 1;
    }
    proof {
        assert(vec@.take(vec@.len() as int) =~= vec@);
    }
    s
}

} // verus!
