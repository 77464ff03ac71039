//! Laws on the steps that follow a cargo command.
use vstd::prelude::*;
use crate::callback::{steps_of, Event, Step, StepView};
use crate::command::{Build, CargoCmd, New, Run, Test};
use crate::text::words_of;

verus! {

/// A step says all that it holds.
pub proof fn law_steps_say_what_they_hold(step: Step)
    ensures
        match step {
            Step::GetMetadata => step@ == StepView::GetMetadata,
            Step::BuildSmdh => step@ == StepView::BuildSmdh,
            Step::Build3dsx { verbose } => step@ == (StepView::Build3dsx { verbose }),
            Step::CheckRunner => step@ == StepView::CheckRunner,
            Step::Link { args, verbose } => step@ == (StepView::Link {
                args: words_of(args@),
                verbose,
            }),
            Step::OpenProject { project } => step@ == (StepView::OpenProject { project: project@ }),
            Step::CreateDir { path } => step@ == (StepView::CreateDir { path: path@ }),
            Step::EditManifest { path } => step@ == (StepView::EditManifest { path: path@ }),
            Step::WriteFile { path, text } => step@ == (StepView::WriteFile {
                path: path@,
                text: text@,
            }),
        },
{
}

/// A list of steps says what its steps say, one for one.
pub proof fn law_lists_say_what_their_steps_say(steps: Seq<Step>)
    ensures
        steps_of(steps).len() == steps.len(),
        forall|i: int| 0 <= i < steps.len() ==> #[trigger] steps_of(steps)[i] == steps[i]@,
{
}

/// A build makes the smdh file and then the 3dsx file, as verbosely as it is told; without
/// metadata it makes nothing.
pub proof fn law_build_makes_both_files(build: Build)
    ensures
        build.callback_steps(false).len() == 0,
        build.callback_steps(true).len() == 2,
        build.callback_steps(true)[0] is BuildSmdh,
        build.callback_steps(true)[1] matches StepView::Build3dsx { verbose } && verbose
            == build.verbose,
{
}

/// A run does what a build does and then asks for the runner. When the answer is there, the
/// executable is sent with exactly the arguments for `3dslink` that follow from the options,
/// unless a custom runner is configured or there is no metadata.
pub proof fn law_run_builds_and_sends(run: Run, has_config: bool, custom_runner: bool)
    ensures
        ({
            let start = run.callback_steps(has_config, Event::CargoFinished);
            let end = run.callback_steps(has_config, Event::RunnerChecked { custom_runner });
            &&& start.len() > 0
            &&& start.drop_last() == run.build_args.callback_steps(has_config)
            &&& start.last() is CheckRunner
            &&& custom_runner || !has_config ==> end.len() == 0
            &&& !custom_runner && has_config ==> end.len() == 1 && (end[0] matches StepView::Link {
                args,
                verbose,
            } && args == run.link_words() && verbose == run.build_args.verbose)
        }),
{
    assert(run.callback_steps(has_config, Event::CargoFinished).drop_last()
        == run.build_args.callback_steps(has_config));
}

/// A test that has to be run does what a run does, and one that has not does what a build
/// does and no more.
pub proof fn law_test_is_a_run_or_a_build(test: Test, has_config: bool, event: Event)
    ensures
        !test.no_run ==> test.callback_steps(has_config, event) == test.run_args.callback_steps(
            has_config,
            event,
        ),
        test.no_run && event is CargoFinished ==> test.callback_steps(has_config, event)
            == test.run_args.build_args.callback_steps(has_config),
        test.no_run && event is RunnerChecked ==> test.callback_steps(has_config, event).len() == 0,
{
}

/// After a command the steps are those of its kind, with metadata where a 3dsx file is to be
/// built. Reading the metadata is the step in front of them.
pub proof fn law_command_follows_its_kind(cmd: CargoCmd)
    ensures
        ({
            let start = cmd.callback_steps(Event::CargoFinished);
            match cmd {
                CargoCmd::Build(build) => start == seq![StepView::GetMetadata]
                    + build.callback_steps(true),
                CargoCmd::Run(run) => start == seq![StepView::GetMetadata] + run.callback_steps(
                    true,
                    Event::CargoFinished,
                ),
                CargoCmd::Test(test) if !test.doc => start == seq![StepView::GetMetadata]
                    + test.callback_steps(true, Event::CargoFinished),
                CargoCmd::Test(test) => start == test.callback_steps(false, Event::CargoFinished),
                CargoCmd::New(new) => start == new.callback_steps(),
                CargoCmd::Passthrough(_) => start.len() == 0,
            }
        }),
        forall|custom_runner: bool|
            {
                let end = #[trigger] cmd.callback_steps(Event::RunnerChecked { custom_runner });
                match cmd {
                    CargoCmd::Run(run) => end == run.callback_steps(
                        true,
                        Event::RunnerChecked { custom_runner },
                    ),
                    CargoCmd::Test(test) => end == test.callback_steps(
                        !test.doc,
                        Event::RunnerChecked { custom_runner },
                    ),
                    _ => end.len() == 0,
                }
            },
{
    assert forall|custom_runner: bool|
        {
            let end = #[trigger] cmd.callback_steps(Event::RunnerChecked { custom_runner });
            match cmd {
                CargoCmd::Run(run) => end == run.callback_steps(
                    true,
                    Event::RunnerChecked { custom_runner },
                ),
                CargoCmd::Test(test) => end == test.callback_steps(
                    !test.doc,
                    Event::RunnerChecked { custom_runner },
                ),
                _ => end.len() == 0,
            }
        } by {
        let event = Event::RunnerChecked { custom_runner };
        match cmd {
            CargoCmd::Run(run) => {
                assert(cmd.callback_steps(event) == run.callback_steps(true, event));
            },
            CargoCmd::Test(test) => {
                assert(cmd.callback_steps(event) == test.callback_steps(!test.doc, event));
            },
            _ => {},
        }
    }
    let start = cmd.callback_steps(Event::CargoFinished);
    match cmd {
        CargoCmd::Test(test) if test.doc => {
            assert(start == test.callback_steps(false, Event::CargoFinished));
        },
        CargoCmd::New(new) => {
            assert(start == new.callback_steps());
        },
        _ => {},
    }
}

/// What is sent to the device is sent as the options say: every link, after whatever command
/// and answer, carries the arguments for `3dslink` and the verbosity of its run, and only a
/// run or a test has one.
pub proof fn law_links_carry_the_run_options(cmd: CargoCmd, event: Event)
    ensures
        forall|i: int|
            0 <= i < cmd.callback_steps(event).len() ==> (#[trigger] cmd.callback_steps(
                event,
            )[i] matches StepView::Link { args, verbose } ==> match cmd {
                CargoCmd::Run(run) => args == run.link_words() && verbose == run.build_args.verbose,
                CargoCmd::Test(test) => args == test.run_args.link_words() && verbose
                    == test.run_args.build_args.verbose,
                _ => false,
            }),
{
}

/// A project is left as `cargo` made it if any of the arguments, at whatever place, is
/// `--lib`, and only then.
pub proof fn law_libraries_are_left_alone(new: New)
    ensures
        (exists|i: int|
            0 <= i < new.cargo_args.args@.len() && #[trigger] new.cargo_args.args@[i]@ == "--lib"@)
            <==> new.callback_steps().len() == 0,
        new.callback_steps().len() == 0 <==> CargoCmd::New(new).callback_steps(
            Event::CargoFinished,
        ).len() == 0,
{
    let args = new.cargo_args.args@;
    let words = new.cargo_args@;
    if words.contains("--lib"@) {
        let i = words.index_of("--lib"@);
        assert(args[i]@ == words[i]);
    }
    if exists|i: int| 0 <= i < args.len() && #[trigger] args[i]@ == "--lib"@ {
        let i = choose|i: int| 0 <= i < args.len() && #[trigger] args[i]@ == "--lib"@;
        assert(words[i] == "--lib"@);
    }
}

/// Any other project becomes one for the 3DS, at the path that was given: with a directory
/// for its files, a manifest that names it, and a main file that waits for the start button.
pub proof fn law_binaries_are_set_up(new: New)
    requires
        forall|i: int|
            0 <= i < new.cargo_args.args@.len() ==> #[trigger] new.cargo_args.args@[i]@ != "--lib"@,
    ensures
        ({
            let steps = new.callback_steps();
            &&& steps.len() == 4
            &&& steps[0] matches StepView::OpenProject { project } && project == new.path@
            &&& steps[1] matches StepView::CreateDir { path } && path == "romfs"@
            &&& steps[2] matches StepView::EditManifest { path } && path == "Cargo.toml"@
            &&& steps[3] matches StepView::WriteFile { path, text } && path == "src/main.rs"@
                && text == r#"use ctru::prelude::*;

fn main() {
    ctru::use_panic_handler();

    let apt = Apt::new().unwrap();
    let mut hid = Hid::new().unwrap();
    let gfx = Gfx::new().unwrap();
    let _console = Console::new(gfx.top_screen.borrow_mut());

    println!("Hello, World!");
    println!("\x1b[29;16HPress Start to exit");

    while apt.main_loop() {
        gfx.wait_for_vblank();

        hid.scan_input();
        if hid.keys_down().contains(KeyPad::START) {
            break;
        }
    }
}
"#@
        }),
{
    let words = new.cargo_args@;
    if words.contains("--lib"@) {
        let i = words.index_of("--lib"@);
        assert(new.cargo_args.args@[i]@ == words[i]);
    }
}

/// A manifest loses nothing, and what it gains does not depend on what it holds.
pub proof fn law_manifests_only_grow(a: String, b: String, edited_a: String, edited_b: String)
    requires
        call_ensures(New::edit_manifest, (a,), edited_a),
        call_ensures(New::edit_manifest, (b,), edited_b),
    ensures
        a@.is_prefix_of(edited_a@),
        edited_a@.skip(a@.len() as int) == edited_b@.skip(b@.len() as int),
        edited_a@.skip(a@.len() as int)
            == r#"ctru-rs = { git = "https://github.com/rust3ds/ctru-rs" }

[package.metadata.cargo-3ds]
romfs_dir = "romfs"
"#@,
{
    assert(edited_a@.take(a@.len() as int) == a@);
    assert(edited_a@.skip(a@.len() as int) == crate::project::TOML_CHANGES@);
    assert(edited_b@.skip(b@.len() as int) == crate::project::TOML_CHANGES@);
}

} // verus!
