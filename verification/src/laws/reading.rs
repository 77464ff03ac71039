//! Laws on how a command line is read as words, and how the words are divided.
use vstd::prelude::*;
use crate::args::{cargo_words, exe_words, RemainingArgs};
use crate::command::CargoCmd;
use crate::laws::{law_separator_tells_apart, law_split_loses_nothing};
use crate::text::{after_first, is_mark, lemma_before_is, words_of, Text, Words};

verus! {

/// Whether `words` are written as the arguments `cargo`, which hold no `--`, and the
/// arguments `exe` behind a `--`, which may be left out where `exe` is empty.
pub open spec fn divided(words: Words, cargo: Words, exe: Words) -> bool {
    &&& !cargo.contains("--"@)
    &&& words == cargo + seq!["--"@] + exe || (words == cargo && exe.len() == 0)
}

/// The words of a list are the texts of its strings, one for one.
pub proof fn law_words_are_the_texts(strings: Seq<String>)
    ensures
        words_of(strings).len() == strings.len(),
        forall|i: int| 0 <= i < strings.len() ==> #[trigger] words_of(strings)[i] == strings[i]@,
{
}

/// The words of the arguments that are handed on are all of those arguments.
pub proof fn law_no_argument_is_overlooked(remaining: RemainingArgs)
    ensures
        remaining@.len() == remaining.args@.len(),
        forall|i: int|
            0 <= i < remaining.args@.len() ==> #[trigger] remaining@[i] == remaining.args@[i]@,
{
}

/// The words of a command are the arguments that it hands on, whatever the command.
pub proof fn law_words_of_a_command(cmd: CargoCmd)
    ensures
        match cmd {
            CargoCmd::Build(build) => cmd.words() == words_of(build.passthrough.args@),
            CargoCmd::Run(run) => cmd.words() == words_of(run.build_args.passthrough.args@),
            CargoCmd::Test(test) => cmd.words() == words_of(
                test.run_args.build_args.passthrough.args@,
            ),
            CargoCmd::New(new) => cmd.words() == words_of(new.cargo_args.args@),
            CargoCmd::Passthrough(args) => cmd.words() == words_of(args@),
        },
        cmd.well_formed() <==> (cmd matches CargoCmd::Passthrough(args) ==> args@.len() > 0),
{
}

/// However arguments for `cargo` and for the executable are written down, each kind is
/// read back complete and in order.
pub proof fn law_division_is_read_back(words: Words, cargo: Words, exe: Words)
    requires
        divided(words, cargo, exe),
    ensures
        cargo_words(words) == cargo,
        exe_words(words) == exe,
{
    if words == cargo + seq!["--"@] + exe {
        law_separator_tells_apart(cargo, exe);
    } else {
        law_split_loses_nothing(words);
        assert(exe == Seq::<Text>::empty());
    }
}

/// What follows the first mark in a text is all that stands behind it, further marks
/// included; in a text without the mark nothing follows it.
pub proof fn law_text_behind_a_mark(head: Text, mark: char, tail: Text)
    requires
        !head.contains(mark),
    ensures
        after_first(head.push(mark) + tail, mark) == Some(tail),
        after_first(head, mark) is None,
{
    let s = head.push(mark) + tail;
    let at = head.len() as int;
    assert forall|j: int| 0 <= j < at implies !is_mark(mark)(#[trigger] head[j]) by {
        assert(head.contains(head[j]));
    }
    assert forall|j: int| 0 <= j < at implies !is_mark(mark)(#[trigger] s[j]) by {
        assert(s[j] == head[j]);
        assert(head.contains(head[j]));
    }
    lemma_before_is(s, is_mark(mark), at);
    lemma_before_is(head, is_mark(mark), at);
    assert(s.skip(at + 1) == tail);
}

} // verus!
