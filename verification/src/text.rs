//! Small helpers on texts: searching for a character, decimal numerals and
//! the checked decoding of bytes.
use vstd::prelude::*;
use vstd::string::StringExecFns;
use vstd::utf8::{decode_utf8, valid_utf8};

verus! {

/// The first position of `c` in `s`, if it occurs.
pub open spec fn first_index<A>(s: Seq<A>, c: A) -> Option<int>
    decreases s.len(),
{
    if s.len() == 0 {
        None
    } else {
        match first_index(s.drop_last(), c) {
            Some(i) => Some(i),
            None => if s.last() == c {
                Some(s.len() - 1)
            } else {
                None
            },
        }
    }
}

/// `first_index` points at an occurrence with none before it, and is `None`
/// only where there is no occurrence at all.
pub proof fn lemma_first_index<A>(s: Seq<A>, c: A)
    ensures
        match first_index(s, c) {
            Some(i) => 0 <= i < s.len() && s[i] == c && forall|j: int| 0 <= j < i ==> s[j] != c,
            None => forall|j: int| 0 <= j < s.len() ==> s[j] != c,
        },
    decreases s.len(),
{
    if s.len() > 0 {
        let front = s.drop_last();
        lemma_first_index(front, c);
        assert forall|j: int| 0 <= j < front.len() implies front[j] == s[j] by {}
    }
}

/// An occurrence with none before it is the one `first_index` gives.
pub proof fn lemma_first_index_is<A>(s: Seq<A>, c: A, i: int)
    requires
        0 <= i < s.len(),
        s[i] == c,
        forall|j: int| 0 <= j < i ==> s[j] != c,
    ensures
        first_index(s, c) == Some(i),
{
    lemma_first_index(s, c);
}

/// No occurrence means `first_index` gives `None`.
pub proof fn lemma_first_index_none<A>(s: Seq<A>, c: A)
    requires
        forall|j: int| 0 <= j < s.len() ==> s[j] != c,
    ensures
        first_index(s, c) is None,
{
    lemma_first_index(s, c);
}

/// Finds the first occurrence of `c`, counted in characters.
pub fn find_char(s: &str, c: char) -> (r: Option<usize>)
    ensures
        r matches Some(i) ==> first_index(s@, c) == Some(i as int),
        r is None ==> first_index(s@, c) is None,
{
    let n = s.unicode_len();
    let mut i: usize = 0;
    while i < n
        invariant
            i <= n,
            n == s@.len(),
            forall|j: int| 0 <= j < i ==> s@[j] != c,
        decreases n - i,
    {
        if s.get_char(i) == c {
            proof {
                lemma_first_index_is(s@, c, i as int);
            }
            return Some(i);
        }
        i += 1;
    }
    proof {
        lemma_first_index_none(s@, c);
    }
    None
}

/// What an argument says: a text that is missing or empty says nothing.
pub open spec fn given(text: Option<&str>) -> Option<Seq<char>> {
    match text {
        Some(t) => if t@.len() == 0 {
            None
        } else {
            Some(t@)
        },
        None => None,
    }
}

/// What an argument says, or `default` where it says nothing.
pub open spec fn given_or(text: Option<&str>, default: Seq<char>) -> Seq<char> {
    match given(text) {
        Some(t) => t,
        None => default,
    }
}

/// What an argument says: a text that is missing or empty says nothing.
pub fn read(text: Option<&str>) -> (r: Option<&str>)
    ensures
        match r {
            Some(t) => given(text) == Some(t@),
            None => given(text) is None,
        },
{
    match text {
        Some(t) => if t.unicode_len() == 0 {
            None
        } else {
            Some(t)
        },
        None => None,
    }
}

/// What an argument says, or `default` where it says nothing.
pub fn read_or<'a>(text: Option<&'a str>, default: &'a str) -> (r: &'a str)
    ensures
        r@ == given_or(text, default@),
{
    match read(text) {
        Some(t) => t,
        None => default,
    }
}

/// Whether a text is the given one.
pub fn text_is(text: &String, wanted: &str) -> (r: bool)
    ensures
        r == (text@ == wanted@),
{
    let wanted_text: String = wanted.to_owned();
    *text == wanted_text
}

/// The character of a decimal digit.
pub open spec fn digit_char(d: nat) -> char {
    if d == 0 {
        '0'
    } else if d == 1 {
        '1'
    } else if d == 2 {
        '2'
    } else if d == 3 {
        '3'
    } else if d == 4 {
        '4'
    } else if d == 5 {
        '5'
    } else if d == 6 {
        '6'
    } else if d == 7 {
        '7'
    } else if d == 8 {
        '8'
    } else {
        '9'
    }
}

/// The decimal numeral of a natural number, without leading zeros.
pub open spec fn decimal(n: nat) -> Seq<char>
    decreases n,
{
    if n < 10 {
        seq![digit_char(n)]
    } else {
        decimal(n / 10).push(digit_char(n % 10))
    }
}

fn digit_text(d: usize) -> (r: &'static str)
    requires
        d < 10,
    ensures
        r@ == seq![digit_char(d as nat)],
{
    proof {
        reveal_strlit("0");
        reveal_strlit("1");
        reveal_strlit("2");
        reveal_strlit("3");
        reveal_strlit("4");
        reveal_strlit("5");
        reveal_strlit("6");
        reveal_strlit("7");
        reveal_strlit("8");
        reveal_strlit("9");
    }
    let r = if d == 0 {
        "0"
    } else if d == 1 {
        "1"
    } else if d == 2 {
        "2"
    } else if d == 3 {
        "3"
    } else if d == 4 {
        "4"
    } else if d == 5 {
        "5"
    } else if d == 6 {
        "6"
    } else if d == 7 {
        "7"
    } else if d == 8 {
        "8"
    } else {
        "9"
    };
    assert(r@ =~= seq![digit_char(d as nat)]);
    r
}

/// Writes a number as a decimal numeral.
pub fn decimal_text(n: usize) -> (r: String)
    ensures
        r@ == decimal(n as nat),
    decreases n,
{
    if n < 10 {
        digit_text(n).to_owned()
    } else {
        let mut r = decimal_text(n / 10);
        r.append(digit_text(n % 10));
        r
    }
}

/// Calls `std::str::from_utf8`, which checks that the bytes are UTF-8 and
/// hands them back as text. The contract says so in the terms of
/// `vstd::utf8`.
#[verifier::external_body]
pub(crate) fn utf8_text(bytes: &[u8]) -> (r: Option<&str>)
    ensures
        r matches Some(s) ==> valid_utf8(bytes@) && s@ == decode_utf8(bytes@),
        r is None ==> !valid_utf8(bytes@),
{
    std::str::from_utf8(bytes).ok()
}

} // verus!
