//! The arguments that a subcommand hands on: first those for `cargo`, then, behind a
//! `--`, those for the executable.
use vstd::prelude::*;
use crate::text::{before, lemma_before_is, words_of, Text, Words};

verus! {

/// The arguments of a subcommand that `cargo 3ds` does not read itself.
#[derive(Debug, PartialEq, Eq)]
pub struct RemainingArgs {
    /// Everything after the options of `cargo 3ds`, as it was written.
    pub args: Vec<String>,
}

impl View for RemainingArgs {
    type V = Words;

    open spec fn view(&self) -> Words {
        words_of(self.args@)
    }
}

/// The property of being the word `--`.
pub open spec fn is_separator() -> spec_fn(Text) -> bool {
    |w: Text| w == "--"@
}

/// The words before the first `--`, or all of them where there is none.
pub open spec fn cargo_words(words: Words) -> Words {
    words.take(before(words, is_separator()))
}

/// The words after the first `--`, or none where there is none.
pub open spec fn exe_words(words: Words) -> Words {
    let at = before(words, is_separator());
    if at < words.len() {
        words.skip(at + 1)
    } else {
        seq![]
    }
}

impl RemainingArgs {
    /// Get the args to be passed to `cargo`.
    pub fn cargo_args(&self) -> (res: Vec<String>)
        ensures
            words_of(res@) == cargo_words(self@),
    {
        self.split_args().0
    }

    /// Get the args to be passed to the executable itself (not `cargo`).
    pub fn exe_args(&self) -> (res: Vec<String>)
        ensures
            words_of(res@) == exe_words(self@),
    {
        self.split_args().1
    }

    /// Both halves: the args for `cargo`, and those for the executable. The `--`
    /// between them is in neither.
    pub fn split_args(&self) -> (res: (Vec<String>, Vec<String>))
        ensures
            words_of(res.0@) == cargo_words(self@),
            words_of(res.1@) == exe_words(self@),
    {
        let mut args = self.args.clone();
        assert(words_of(args@) == self@);
        let separator = "--".to_owned();
        let mut at: usize = 0;
        while at < args.len()
            invariant
                at <= args@.len(),
                words_of(args@) == self@,
                separator@ == "--"@,
                forall|j: int| 0 <= j < at ==> self@[j] != "--"@,
            decreases args.len() - at,
        {
            if args[at] == separator {
                proof {
                    lemma_before_is(self@, is_separator(), at as int);
                }
                let second_half = args.split_off(at + 1);
                args.pop();
                assert(words_of(args@) == self@.take(at as int));
                assert(words_of(second_half@) == self@.skip(at + 1));
                return (args, second_half);
            }
            at = at + 1;
        }
        proof {
            lemma_before_is(self@, is_separator(), at as int);
        }
        assert(self@.take(at as int) == self@);
        let none: Vec<String> = Vec::new();
        assert(words_of(none@) == Seq::<Text>::empty());
        (args, none)
    }
}

} // verus!
