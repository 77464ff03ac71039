//! Texts and lists of words, and the few operations that reading a command line
//! takes.
use vstd::prelude::*;

verus! {

/// What a string holds.
pub type Text = Seq<char>;

/// What a list of strings holds.
pub type Words = Seq<Seq<char>>;

/// The texts that the strings of a list hold, in order.
pub open spec fn words_of(strings: Seq<String>) -> Words {
    strings.map_values(|s: String| s@)
}

/// How many items stand before the first one with the property `p`: the place of
/// that item, or the length of `s` where there is none.
pub open spec fn before<T>(s: Seq<T>, p: spec_fn(T) -> bool) -> int
    decreases s.len(),
{
    if s.len() == 0 || p(s[0]) {
        0
    } else {
        1 + before(s.drop_first(), p)
    }
}

/// No item before the place `before(s, p)` has the property, and the item at that
/// place, if there is one, has it.
pub proof fn lemma_before<T>(s: Seq<T>, p: spec_fn(T) -> bool)
    ensures
        0 <= before(s, p) <= s.len(),
        forall|j: int| 0 <= j < before(s, p) ==> !p(#[trigger] s[j]),
        before(s, p) < s.len() ==> p(s[before(s, p)]),
    decreases s.len(),
{
    if s.len() > 0 && !p(s[0]) {
        let rest = s.drop_first();
        lemma_before(rest, p);
        assert forall|j: int| 0 <= j < before(s, p) implies !p(#[trigger] s[j]) by {
            if j > 0 {
                assert(s[j] == rest[j - 1]);
            }
        }
    }
}

/// Only one place fits that description.
pub proof fn lemma_before_is<T>(s: Seq<T>, p: spec_fn(T) -> bool, at: int)
    requires
        0 <= at <= s.len(),
        forall|j: int| 0 <= j < at ==> !p(#[trigger] s[j]),
        at < s.len() ==> p(s[at]),
    ensures
        before(s, p) == at,
{
    lemma_before(s, p);
    let found = before(s, p);
    if found < at {
        assert(!p(s[found]));
    } else if at < found {
        assert(!p(s[at]));
    }
}

/// The property of being the character `mark`.
pub open spec fn is_mark(mark: char) -> spec_fn(char) -> bool {
    |c: char| c == mark
}

/// What follows the first `mark` in `s`, where there is one.
pub open spec fn after_first(s: Text, mark: char) -> Option<Text> {
    let at = before(s, is_mark(mark));
    if at < s.len() {
        Some(s.skip(at + 1))
    } else {
        None
    }
}

/// The character that stands for a number below ten.
pub open spec fn digit(n: nat) -> char {
    ('0' as nat + n) as char
}

/// A number in decimal notation, without leading zeros.
pub open spec fn decimal(n: nat) -> Text
    decreases n,
{
    if n < 10 {
        seq![digit(n)]
    } else {
        decimal(n / 10).push(digit(n % 10))
    }
}

/// Whether `s` begins with `prefix`.
pub fn starts_with(s: &str, prefix: &str) -> (res: bool)
    ensures
        res == prefix@.is_prefix_of(s@),
{
    let mut rest = s.chars();
    let mut wanted = prefix.chars();
    let ghost mut count: int = 0;
    loop
        invariant
            0 <= count <= s@.len(),
            count <= prefix@.len(),
            vstd::std_specs::iter::IteratorSpec::remaining(&rest) == s@.skip(count),
            vstd::std_specs::iter::IteratorSpec::remaining(&wanted) == prefix@.skip(count),
            prefix@.take(count) == s@.take(count),
        decreases prefix@.len() - count,
    {
        match wanted.next() {
            None => {
                return true;
            },
            Some(w) => {
                match rest.next() {
                    None => {
                        return false;
                    },
                    Some(c) => {
                        if c != w {
                            return false;
                        }
                    },
                }
            },
        }
        proof {
            count = count + 1;
        }
    }
}

/// What follows the first `mark` in `s`, or `None` where there is no `mark`.
pub fn split_after(s: &str, mark: char) -> (res: Option<String>)
    ensures
        match res {
            Some(tail) => after_first(s@, mark) == Some(tail@),
            None => after_first(s@, mark) is None,
        },
{
    let len: usize = s.unicode_len();
    let mut rest = s.chars();
    let mut at: usize = 0;
    while at < len
        invariant
            at <= len == s@.len(),
            vstd::std_specs::iter::IteratorSpec::remaining(&rest) == s@.skip(at as int),
            forall|j: int| 0 <= j < at ==> s@[j] != mark,
        decreases len - at,
    {
        if let Some(c) = rest.next() {
            if c == mark {
                proof {
                    lemma_before_is(s@, is_mark(mark), at as int);
                }
                let tail = s.substring_char(at + 1, len).to_owned();
                assert(tail@ == s@.skip(at + 1));
                return Some(tail);
            }
        }
        at = at + 1;
    }
    proof {
        lemma_before_is(s@, is_mark(mark), len as int);
    }
    None
}

/// The digit for a number below ten.
fn digit_str(n: usize) -> (res: &'static str)
    requires
        n < 10,
    ensures
        res@ == seq![digit(n as nat)],
{
    proof {
        reveal_strlit("0");
        reveal_strlit("1");
        reveal_strlit("2");
        reveal_strlit("3");
        reveal_strlit("4");
        reveal_strlit("5");
        reveal_strlit("6");
        reveal_strlit("7");
        reveal_strlit("8");
        reveal_strlit("9");
    }
    match n {
        0 => "0",
        1 => "1",
        2 => "2",
        3 => "3",
        4 => "4",
        5 => "5",
        6 => "6",
        7 => "7",
        8 => "8",
        _ => "9",
    }
}

/// Writes a number in decimal notation.
pub fn to_decimal(n: usize) -> (res: String)
    ensures
        res@ == decimal(n as nat),
    decreases n,
{
    if n < 10 {
        digit_str(n).to_owned()
    } else {
        let mut res = to_decimal(n / 10);
        res.append(digit_str(n % 10));
        res
    }
}

} // verus!
