//! What holds of the library as a whole: statements that relate several of its functions,
//! or several calls.
use vstd::prelude::*;
use crate::args::{cargo_words, exe_words, is_separator};
use crate::callback::{Event, StepView};
use crate::cargo_call::Decision;
use crate::command::{CargoCmd, Run, Test};
use crate::link::{escaped, is_hyphenated};
use crate::message_format::{
    asked_format, extracted_format, flag_at, format_missing, is_flag, is_json,
    without_format,
};
use crate::runner::{recorded, RunnerReply};
use crate::text::{
    after_first, before, decimal, digit, is_mark, lemma_before, lemma_before_is, words_of, Text,
    Words,
};

pub mod calls;
pub mod formats;
pub mod linking;
pub mod reading;
pub mod steps;

verus! {

/// Splitting loses nothing but the `--`: the two halves with a `--` between them are the
/// words again, and where there is no `--` all words are for `cargo`.
pub proof fn law_split_loses_nothing(words: Words)
    ensures
        words.contains("--"@) ==> cargo_words(words) + seq!["--"@] + exe_words(words) == words,
        !words.contains("--"@) ==> cargo_words(words) == words && exe_words(words)
            == Seq::<Text>::empty(),
{
    lemma_before(words, is_separator());
    let at = before(words, is_separator());
    if words.contains("--"@) {
        let i = words.index_of("--"@);
        assert(words[i] == "--"@);
        assert(is_separator()(words[i]));
        assert(cargo_words(words) + seq!["--"@] + exe_words(words) == words);
    } else {
        if at < words.len() {
            assert(words.contains(words[at]));
        }
        assert(cargo_words(words) == words);
    }
}

/// `cargo` is never handed a `--`.
pub proof fn law_cargo_gets_no_separator(words: Words)
    ensures
        !cargo_words(words).contains("--"@),
{
    lemma_before(words, is_separator());
    let cargo = cargo_words(words);
    if cargo.contains("--"@) {
        let i = cargo.index_of("--"@);
        assert(is_separator()(words[i]));
    }
}

/// A `--` between arguments for `cargo` and any others tells them apart, also where those
/// for the executable hold a `--` of their own.
pub proof fn law_separator_tells_apart(cargo: Words, exe: Words)
    requires
        !cargo.contains("--"@),
    ensures
        cargo_words(cargo + seq!["--"@] + exe) == cargo,
        exe_words(cargo + seq!["--"@] + exe) == exe,
{
    let words = cargo + seq!["--"@] + exe;
    let at = cargo.len() as int;
    assert forall|j: int| 0 <= j < at implies !is_separator()(#[trigger] words[j]) by {
        assert(words[j] == cargo[j]);
        assert(cargo.contains(cargo[j]));
    }
    lemma_before_is(words, is_separator(), at);
    assert(words.take(at) == cargo);
    assert(words.skip(at + 1) == exe);
}

/// The two ways to ask for a message format come to the same: the same format is found,
/// and the same words are left, those around the option.
pub proof fn law_both_spellings_agree(first: Words, format: Text, rest: Words)
    requires
        flag_at(first) == first.len(),
    ensures
        ({
            let joined = first + seq!["--message-format="@ + format] + rest;
            let spaced = first + seq!["--message-format"@, format] + rest;
            &&& !format_missing(joined)
            &&& !format_missing(spaced)
            &&& asked_format(joined) == Some(format)
            &&& asked_format(spaced) == Some(format)
            &&& without_format(joined) == first + rest
            &&& without_format(spaced) == first + rest
        }),
{
    reveal_strlit("--message-format");
    reveal_strlit("--message-format=");
    let joined = first + seq!["--message-format="@ + format] + rest;
    let spaced = first + seq!["--message-format"@, format] + rest;
    let at = first.len() as int;
    lemma_before(first, is_flag());
    assert forall|j: int| 0 <= j < at implies !is_flag()(#[trigger] joined[j]) by {
        assert(joined[j] == first[j]);
    }
    assert forall|j: int| 0 <= j < at implies !is_flag()(#[trigger] spaced[j]) by {
        assert(spaced[j] == first[j]);
    }
    let word = "--message-format="@ + format;
    assert(joined[at] == word);
    assert("--message-format"@ == word.subrange(0, 16));
    assert(is_flag()(joined[at]));
    lemma_before_is(joined, is_flag(), at);
    assert(spaced[at] == "--message-format"@);
    assert("--message-format"@ == spaced[at].subrange(0, 16));
    assert(is_flag()(spaced[at]));
    lemma_before_is(spaced, is_flag(), at);
    lemma_before_is(word, is_mark('='), 16);
    assert(word.skip(17) == format);
    lemma_before_is("--message-format"@, is_mark('='), 16);
    assert(spaced[at + 1] == format);
    assert(joined.remove(at) == first + rest);
    assert(spaced.remove(at).remove(at) == first + rest);
}

/// Without the option there is nothing to take out.
pub proof fn law_no_option_no_change(words: Words)
    requires
        forall|i: int| 0 <= i < words.len() ==> !is_flag()(#[trigger] words[i]),
    ensures
        !format_missing(words),
        asked_format(words) is None,
        without_format(words) == words,
{
    lemma_before_is(words, is_flag(), words.len() as int);
}

/// What is left are the words before the option and those after it, in order; if it was
/// the only one, it is not passed on a second time.
pub proof fn law_option_is_taken_out(words: Words)
    requires
        !format_missing(words),
    ensures
        ({
            let at = flag_at(words);
            let rest = without_format(words);
            &&& at < words.len() ==> rest == words.take(at) + words.skip(
                if after_first(words[at], '=') is Some {
                    at + 1
                } else {
                    at + 2
                },
            )
            &&& (forall|i: int| 0 <= i < words.len() && i != at ==> !is_flag()(#[trigger] words[i]))
                ==> asked_format(rest) is None && without_format(rest) == rest
        }),
{
    lemma_before(words, is_flag());
    let at = flag_at(words);
    let rest = without_format(words);
    if at < words.len() {
        if after_first(words[at], '=') is Some {
            assert(rest == words.take(at) + words.skip(at + 1));
        } else {
            assert(rest == words.take(at) + words.skip(at + 2));
        }
    }
    if forall|i: int| 0 <= i < words.len() && i != at ==> !is_flag()(#[trigger] words[i]) {
        assert forall|i: int| 0 <= i < rest.len() implies !is_flag()(#[trigger] rest[i]) by {
            if i < at {
                assert(rest[i] == words[i]);
            } else if rest.len() + 1 == words.len() {
                assert(rest[i] == words[i + 1]);
            } else if at < words.len() {
                assert(rest[i] == words[i + 2]);
            }
        }
        law_no_option_no_change(rest);
    }
}

/// Whatever format is given back is JSON, but for documentation tests without one, and
/// the only error is to ask for another.
pub proof fn law_only_json(cmd: CargoCmd)
    ensures
        match extracted_format(cmd) {
            Ok(Some(format)) => is_json(format) || (cmd.is_doc_test() && asked_format(
                cmd.words(),
            ) is None && format == "human"@),
            Ok(None) => asked_format(cmd.words()) is None && !cmd.is_doc_test(),
            Err(_) => asked_format(cmd.words()) matches Some(format) && !is_json(format),
        },
{
}

/// Taking out the message format leaves a command what it was: the same `cargo`
/// subcommand, and the same that follows it. A command that is passed through keeps its
/// name as long as the name is not itself read as the option.
pub proof fn law_extraction_keeps_the_command(old_cmd: CargoCmd, new_cmd: CargoCmd)
    requires
        old_cmd.well_formed(),
        !format_missing(old_cmd.words()),
        old_cmd is Passthrough ==> !is_flag()(old_cmd.words()[0]),
        new_cmd.words() == without_format(old_cmd.words()),
        new_cmd.same_options(old_cmd),
    ensures
        new_cmd.well_formed(),
        forall|custom_runner: bool| #[trigger]
            new_cmd.name(custom_runner) == old_cmd.name(custom_runner),
        forall|custom_runner: bool| #[trigger]
            new_cmd.links(custom_runner) == old_cmd.links(custom_runner),
        forall|decision: Decision| #[trigger]
            new_cmd.consults(decision) == old_cmd.consults(decision),
        new_cmd.compiles() == old_cmd.compiles(),
        new_cmd.builds_3dsx() == old_cmd.builds_3dsx(),
{
    if let CargoCmd::Passthrough(old_words) = old_cmd {
        let words = old_cmd.words();
        lemma_before(words, is_flag());
        let at = flag_at(words);
        assert(at > 0);
        assert(without_format(words)[0] == words[0]);
        assert(words[0] == old_words@[0]@);
        if let CargoCmd::Passthrough(new_words) = new_cmd {
            assert(new_cmd.words().len() == new_words@.len());
            assert(new_cmd.words()[0] == new_words@[0]@);
        }
    }
}

/// A command that is passed through reaches `cargo` as it was written.
pub proof fn law_passthrough_is_unmodified(words: Vec<String>, custom_runner: bool)
    requires
        CargoCmd::Passthrough(words).well_formed(),
    ensures
        seq![CargoCmd::Passthrough(words).name(custom_runner)] + CargoCmd::Passthrough(
            words,
        ).cargo_arg_words(custom_runner) == words_of(words@),
{
    assert(words_of(words@)[0] == words@[0]@);
}

/// Whether a custom runner is configured makes no difference where it is not asked for.
pub proof fn law_runner_matters_only_where_consulted(cmd: CargoCmd)
    ensures
        !cmd.consults(Decision::SubcommandName) ==> cmd.name(true) == cmd.name(false),
        !cmd.consults(Decision::CargoArgs) ==> cmd.cargo_arg_words(true) == cmd.cargo_arg_words(
            false,
        ),
        !cmd.consults(Decision::LinkToDevice) ==> cmd.links(true) == cmd.links(false),
        !cmd.consults(Decision::Callback) ==> cmd.callback_steps(
            Event::RunnerChecked { custom_runner: true },
        ) == cmd.callback_steps(Event::RunnerChecked { custom_runner: false }),
{
}

/// `cargo` is asked about the runner once: when an answer is taken down, every later
/// question, for whatever options, is answered by it, and nothing that is taken down
/// afterwards changes it.
pub proof fn law_runner_is_checked_once(
    known: Option<bool>,
    first: Option<bool>,
    second: Option<bool>,
    run: Run,
    reply: RunnerReply,
)
    requires
        run.is_runner_reply(recorded(recorded(known, first), second), reply),
    ensures
        recorded(recorded(known, first), second) == recorded(known, first),
        recorded(known, first) matches Some(answer) && (reply matches RunnerReply::Known {
            custom_runner,
            ..
        } && custom_runner == answer),
        known is None ==> recorded(known, first) == Some(first == Some(true)),
{
}

/// Tests are never run on the host: without a custom runner `cargo` is told not to run
/// them, or, for documentation tests, rustdoc is.
pub proof fn law_tests_do_not_run_on_the_host(test: Test)
    ensures
        !test.doc ==> test.cargo_arg_words(false).last() == "--no-run"@,
        test.rustdoc_text(false) == " --no-run"@,
{
}

/// `--no-run` is obeyed with every runner: the tests are not run, and nothing is sent to
/// the device.
pub proof fn law_no_run_is_obeyed(test: Test, custom_runner: bool)
    requires
        test.no_run,
    ensures
        !test.doc ==> test.cargo_arg_words(custom_runner).last() == "--no-run"@,
        test.rustdoc_text(custom_runner) == " --no-run"@,
        !CargoCmd::Test(test).links(custom_runner),
        !sends(CargoCmd::Test(test), custom_runner),
{
    law_sends_what_should_be_linked(CargoCmd::Test(test), custom_runner);
}

/// Documentation tests imply `--no-run` unless a custom runner is configured, and with
/// one or without one no 3dsx file is built or sent.
pub proof fn law_doc_implies_no_run(test: Test, custom_runner: bool)
    requires
        test.doc,
    ensures
        !custom_runner ==> test.rustdoc_text(custom_runner) == " --no-run"@,
        !CargoCmd::Test(test).builds_3dsx(),
        !CargoCmd::Test(test).links(custom_runner),
        !sends(CargoCmd::Test(test), custom_runner),
{
    law_sends_what_should_be_linked(CargoCmd::Test(test), custom_runner);
}

/// All the steps after a command, where the check of the runner gives `custom_runner`.
pub open spec fn plan(cmd: CargoCmd, custom_runner: bool) -> Seq<StepView> {
    cmd.callback_steps(Event::CargoFinished) + cmd.callback_steps(
        Event::RunnerChecked { custom_runner },
    )
}

/// Whether one of the steps after a command is to send the executable to the device.
pub open spec fn sends(cmd: CargoCmd, custom_runner: bool) -> bool {
    exists|i: int|
        0 <= i < plan(cmd, custom_runner).len() && (#[trigger] plan(cmd, custom_runner)[i]) is Link
}

/// The executable is sent to the device exactly where it should be.
pub proof fn law_sends_what_should_be_linked(cmd: CargoCmd, custom_runner: bool)
    ensures
        sends(cmd, custom_runner) == cmd.links(custom_runner),
{
    let all = plan(cmd, custom_runner);
    if cmd.links(custom_runner) {
        assert(all[all.len() - 1] is Link);
    }
}

/// What is sent has been built before: a link is the last step, and the first three read
/// the metadata and build the smdh and the 3dsx file. These come exactly where a 3dsx file
/// should be built.
pub proof fn law_builds_before_it_sends(cmd: CargoCmd, custom_runner: bool)
    ensures
        ({
            let all = plan(cmd, custom_runner);
            &&& cmd.builds_3dsx() ==> {
                &&& all.len() >= 3
                &&& all[0] is GetMetadata
                &&& all[1] is BuildSmdh
                &&& all[2] is Build3dsx
            }
            &&& !cmd.builds_3dsx() ==> forall|i: int|
                0 <= i < all.len() ==> !(#[trigger] all[i] is GetMetadata || all[i] is BuildSmdh
                    || all[i] is Build3dsx || all[i] is Link)
            &&& forall|i: int|
                0 <= i < all.len() && #[trigger] all[i] is Link ==> i == all.len() - 1
                    && cmd.builds_3dsx()
        }),
{
}

/// The runner is checked at most once, after all else that needs no answer, and exactly
/// where it is consulted for the callback.
pub proof fn law_runner_check_comes_last(cmd: CargoCmd)
    ensures
        ({
            let steps = cmd.callback_steps(Event::CargoFinished);
            &&& cmd.consults(Decision::Callback) ==> steps.len() > 0 && steps.last() is CheckRunner
            &&& forall|i: int|
                0 <= i < steps.len() && #[trigger] steps[i] is CheckRunner ==> i == steps.len() - 1
                    && cmd.consults(Decision::Callback)
        }),
        forall|custom_runner: bool, i: int|
            0 <= i < cmd.callback_steps(Event::RunnerChecked { custom_runner }).len() ==> !(
            #[trigger] cmd.callback_steps(
                Event::RunnerChecked { custom_runner },
            )[i] is CheckRunner),
{
}

/// `cargo 3ds run` runs the executable one way or the other: `cargo run` where a custom
/// runner is configured, else `cargo build` and then a link to the device.
pub proof fn law_run_either_runs_or_links(run: Run, custom_runner: bool)
    ensures
        custom_runner ==> CargoCmd::Run(run).name(custom_runner) == "run"@ && !CargoCmd::Run(
            run,
        ).links(custom_runner),
        !custom_runner ==> CargoCmd::Run(run).name(custom_runner) == "build"@ && CargoCmd::Run(
            run,
        ).links(custom_runner),
{
}

/// The executable's arguments reach `3dslink` complete and in order: they are what is left
/// without the `--args`, the `--` behind it, and the one `--` that stands before the first
/// argument with a hyphen.
pub proof fn law_exe_args_reach_the_device(run: Run)
    ensures
        ({
            let exe = exe_words(run.build_args.passthrough@);
            let at = before(exe, is_hyphenated());
            let options = run.link_options();
            let all = run.link_words();
            let start = options.len() as int;
            &&& exe.len() == 0 ==> all == options
            &&& exe.len() > 0 ==> {
                &&& all.take(start) == options
                &&& all[start] == "--args"@
                &&& all[start + 1] == "--"@
                &&& all.skip(start + 2) == escaped(exe)
            }
            &&& at < exe.len() ==> escaped(exe)[at] == "--"@ && escaped(exe).remove(at) == exe
                && escaped(exe)[at + 1] == exe[at]
            &&& at == exe.len() ==> escaped(exe) == exe
        }),
{
    let exe = exe_words(run.build_args.passthrough@);
    lemma_before(exe, is_hyphenated());
    let options = run.link_options();
    let all = run.link_words();
    let start = options.len() as int;
    if exe.len() > 0 {
        assert(all.take(start) == options);
        assert(all.skip(start + 2) == escaped(exe));
    }
    let at = before(exe, is_hyphenated());
    if at < exe.len() {
        assert(escaped(exe).remove(at) == exe);
    }
}

/// The number that a row of digits stands for.
pub open spec fn number(digits: Text) -> int
    decreases digits.len(),
{
    if digits.len() == 0 {
        0
    } else {
        10 * number(digits.drop_last()) + (digits.last() as int - '0' as int)
    }
}

/// Decimal notation is digits only, stands for its number, and begins with a zero only
/// where the number is zero.
pub proof fn law_decimal_reads_back(n: nat)
    ensures
        number(decimal(n)) == n,
        forall|i: int| 0 <= i < decimal(n).len() ==> '0' <= #[trigger] decimal(n)[i] <= '9',
        decimal(n).len() > 0,
        n > 0 ==> decimal(n)[0] != '0',
    decreases n,
{
    if n < 10 {
        reveal_with_fuel(number, 2);
        assert(decimal(n).drop_last() == Seq::<char>::empty());
    } else {
        law_decimal_reads_back(n / 10);
        assert(decimal(n).drop_last() == decimal(n / 10));
        assert(decimal(n).last() == digit(n % 10));
        assert(decimal(n)[0] == decimal(n / 10)[0]);
    }
}

} // verus!
