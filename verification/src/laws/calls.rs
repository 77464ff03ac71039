//! Laws on how `cargo` is called, what a command is for, and when the runner is asked for.
use vstd::prelude::*;
use crate::cargo_call::Decision;
use crate::command::{CargoCmd, Run, Test};
use crate::laws::reading::{divided, law_division_is_read_back};
use crate::runner::{recorded, RunnerReply};
use crate::text::{words_of, Words};

verus! {

/// What stands before the first `--` reaches `cargo` complete and in order, and nothing of
/// what stands behind it does. `cargo build` gets no more than that; `cargo new` gets the
/// path behind it, and `cargo test` what keeps the tests from being run on the host or asks
/// for documentation tests.
pub proof fn law_cargo_gets_its_arguments(
    cmd: CargoCmd,
    cargo: Words,
    exe: Words,
    custom_runner: bool,
)
    requires
        !(cmd is Passthrough),
        divided(cmd.words(), cargo, exe),
    ensures
        match cmd {
            CargoCmd::Test(test) => cmd.cargo_arg_words(custom_runner) == test.cargo_arg_words(
                custom_runner,
            ) && cmd.cargo_arg_words(custom_runner) == (if test.doc {
                cargo + seq!["--doc"@, "-Z"@, "doctest-xcompile"@]
            } else if custom_runner && !test.no_run {
                cargo
            } else {
                cargo.push("--no-run"@)
            }),
            CargoCmd::New(new) => cmd.cargo_arg_words(custom_runner) == cargo.push(new.path@),
            _ => cmd.cargo_arg_words(custom_runner) == cargo,
        },
{
    law_division_is_read_back(cmd.words(), cargo, exe);
    if let CargoCmd::Test(test) = cmd {
        assert(cargo + seq!["--no-run"@] == cargo.push("--no-run"@));
        assert(cargo + seq![] == cargo);
    }
}

/// What the executable is told makes no difference to `cargo`.
pub proof fn law_cargo_does_not_see_exe_args(
    a: CargoCmd,
    b: CargoCmd,
    cargo: Words,
    custom_runner: bool,
)
    requires
        !(a is Passthrough),
        a.same_options(b),
        exists|exe: Words| #[trigger] divided(a.words(), cargo, exe),
        exists|exe: Words| #[trigger] divided(b.words(), cargo, exe),
    ensures
        a.cargo_arg_words(custom_runner) == b.cargo_arg_words(custom_runner),
{
    let exe_a = choose|exe: Words| #[trigger] divided(a.words(), cargo, exe);
    let exe_b = choose|exe: Words| #[trigger] divided(b.words(), cargo, exe);
    law_cargo_gets_its_arguments(a, cargo, exe_a, custom_runner);
    law_cargo_gets_its_arguments(b, cargo, exe_b, custom_runner);
}

/// A command that is passed through is called by its first word with all the others, a `--`
/// among them or not.
pub proof fn law_passed_through_word_for_word(args: Vec<String>, custom_runner: bool)
    requires
        args@.len() > 0,
    ensures
        ({
            let cmd = CargoCmd::Passthrough(args);
            &&& cmd.name(custom_runner) == args@[0]@
            &&& cmd.cargo_arg_words(custom_runner).len() == args@.len() - 1
            &&& forall|i: int|
                0 < i < args@.len() ==> cmd.cargo_arg_words(custom_runner)[i - 1]
                    == #[trigger] args@[i]@
        }),
{
    let words = words_of(args@);
    assert forall|i: int| 0 < i < args@.len() implies CargoCmd::Passthrough(
        args,
    ).cargo_arg_words(custom_runner)[i - 1] == #[trigger] args@[i]@ by {
        assert(words.skip(1)[i - 1] == words[i]);
    }
}

/// The names under which `cargo` knows the commands.
pub proof fn law_names(cmd: CargoCmd, custom_runner: bool)
    requires
        !(cmd is Passthrough),
    ensures
        cmd.name(custom_runner) == "build"@ <==> cmd is Build || (cmd is Run && !custom_runner),
        cmd.name(custom_runner) == "run"@ <==> cmd is Run && custom_runner,
        cmd.name(custom_runner) == "test"@ <==> cmd is Test,
        cmd.name(custom_runner) == "new"@ <==> cmd is New,
{
    reveal_strlit("build");
    reveal_strlit("run");
    reveal_strlit("test");
    reveal_strlit("new");
    assert("build"@.len() == 5 && "run"@.len() == 3 && "test"@.len() == 4 && "new"@.len() == 3);
    assert("run"@[0] == 'r' && "new"@[0] == 'n');
}

/// Tests are run by `cargo` only with a custom runner and without `--no-run`, and rustdoc is
/// told not to run them in every other case.
pub proof fn law_who_runs_tests(test: Test, custom_runner: bool)
    ensures
        test.runs(custom_runner) <==> custom_runner && !test.no_run,
        custom_runner && !test.no_run ==> test.rustdoc_text(custom_runner) == ""@,
        !custom_runner || test.no_run ==> test.rustdoc_text(custom_runner) == " --no-run"@,
{
}

/// What a command is for: all but `new` compile; `build` and `run` build a 3dsx file, and so
/// does `test` unless for documentation tests; a run and a test that has to be run are sent
/// to the device, unless a custom runner takes their place.
pub proof fn law_what_commands_are_for(cmd: CargoCmd, custom_runner: bool)
    ensures
        cmd.compiles() <==> cmd is Build || cmd is Run || cmd is Test || cmd is Passthrough,
        cmd.is_doc_test() <==> (cmd matches CargoCmd::Test(test) && test.doc),
        cmd.builds_3dsx() <==> cmd is Build || cmd is Run || (cmd matches CargoCmd::Test(test)
            && !test.doc),
        cmd.links(custom_runner) <==> !custom_runner && (cmd is Run || (cmd matches CargoCmd::Test(
            test,
        ) && !test.doc && !test.no_run)),
{
}

/// Nothing is sent that is not built, what is built is compiled, and documentation tests
/// build no 3dsx file.
pub proof fn law_purposes_agree(cmd: CargoCmd, custom_runner: bool)
    ensures
        cmd.links(custom_runner) ==> cmd.builds_3dsx(),
        cmd.builds_3dsx() ==> cmd.compiles(),
        cmd.is_doc_test() ==> !cmd.builds_3dsx(),
{
}

/// The user is told that no 3dsx file will be built exactly where documentation tests are
/// requested.
pub proof fn law_doc_tests_are_announced(cmd: CargoCmd, notice: Option<&'static str>)
    requires
        call_ensures(CargoCmd::build_3dsx_notice, (&cmd,), notice),
    ensures
        notice is Some <==> (cmd matches CargoCmd::Test(test) && test.doc),
        notice matches Some(line) ==> line@
            == "Documentation tests requested, no 3dsx will be built"@,
{
}

/// `cargo` is asked about the runner for a run, but for its arguments, and for a test where
/// it might be run; never for another command.
pub proof fn law_who_asks_for_the_runner(cmd: CargoCmd)
    ensures
        match cmd {
            CargoCmd::Run(_) => {
                &&& cmd.consults(Decision::SubcommandName)
                &&& !cmd.consults(Decision::CargoArgs)
                &&& cmd.consults(Decision::LinkToDevice)
                &&& cmd.consults(Decision::Callback)
            },
            CargoCmd::Test(test) => {
                &&& !cmd.consults(Decision::SubcommandName)
                &&& cmd.consults(Decision::CargoArgs) == !test.doc
                &&& cmd.consults(Decision::LinkToDevice) == (!test.no_run && !test.doc)
                &&& cmd.consults(Decision::Callback) == !test.no_run
            },
            _ => forall|decision: Decision| !(#[trigger] cmd.consults(decision)),
        },
{
}

/// While nothing is known of the runner, the one right reply is a question to `cargo` for
/// the runner of the 3DS target, with the configuration of the command line, printed for
/// verbose runs.
pub proof fn law_question_to_cargo(run: Run, reply: RunnerReply)
    requires
        run.is_runner_reply(None, reply),
    ensures
        reply matches RunnerReply::Ask(query) && {
            &&& query.args@.len() == 5
            &&& query.args@[0]@ == "-Z"@
            &&& query.args@[1]@ == "unstable-options"@
            &&& query.args@[2]@ == "config"@
            &&& query.args@[3]@ == "get"@
            &&& query.args@[4]@ == "target.armv6k-nintendo-3ds.runner"@
            &&& query.config@.len() == run.config@.len()
            &&& forall|i: int|
                0 <= i < run.config@.len() ==> #[trigger] query.config@[i]@ == run.config@[i]@
            &&& query.print == run.build_args.verbose
        },
{
    if let RunnerReply::Ask(query) = reply {
        let words = words_of(query.args@);
        assert(words.len() == query.args@.len());
        assert(words[0] == query.args@[0]@ && words[1] == query.args@[1]@);
        assert(words[2] == query.args@[2]@ && words[3] == query.args@[3]@);
        assert(words[4] == query.args@[4]@);
        assert(words_of(query.config@).len() == query.config@.len());
        assert forall|i: int| 0 <= i < run.config@.len() implies #[trigger] query.config@[i]@
            == run.config@[i]@ by {
            assert(words_of(query.config@)[i] == query.config@[i]@);
            assert(words_of(run.config@)[i] == run.config@[i]@);
        }
    }
}

/// Once the answer is known, the one right reply is that answer, and verbose runs tell the
/// user which it is.
pub proof fn law_answer_of_cargo(run: Run, answer: bool, reply: RunnerReply)
    requires
        run.is_runner_reply(Some(answer), reply),
    ensures
        reply matches RunnerReply::Known { custom_runner, notice } && {
            &&& custom_runner == answer
            &&& notice is Some <==> run.build_args.verbose
            &&& notice matches Some(line) ==> (answer ==> line@ == "Custom runner is configured"@)
                && (!answer ==> line@ == "Custom runner is not configured"@)
        },
{
}

/// Only a `cargo` that was run and exited with success says that a runner is configured, and
/// only the first one counts.
pub proof fn law_exit_of_cargo(known: Option<bool>, success: Option<bool>)
    ensures
        known matches Some(answer) ==> recorded(known, success) == Some(answer),
        known is None && success == Some(true) ==> recorded(known, success) == Some(true),
        known is None && success != Some(true) ==> recorded(known, success) == Some(false),
{
}

} // verus!
