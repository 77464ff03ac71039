use cargo_3ds::args::RemainingArgs;
use cargo_3ds::callback::{Event, Step};
use cargo_3ds::command::{Build, CargoCmd, New, Run, Test};
use cargo_3ds::project::{CUSTOM_MAIN_RS, TOML_CHANGES};

fn words(list: &[&str]) -> Vec<String> {
    list.iter().map(ToString::to_string).collect()
}

fn build(verbose: bool) -> Build {
    Build {
        verbose,
        passthrough: RemainingArgs {
            args: words(&["--release", "--", "-x"]),
        },
    }
}

fn run(verbose: bool) -> Run {
    Run {
        address: None,
        argv0: None,
        server: true,
        retries: None,
        build_args: build(verbose),
        config: vec![],
    }
}

fn test(no_run: bool, doc: bool) -> Test {
    Test {
        no_run,
        doc,
        run_args: run(true),
    }
}

fn new(list: &[&str]) -> New {
    New {
        path: "some/where".to_string(),
        cargo_args: RemainingArgs { args: words(list) },
    }
}

fn checked(custom_runner: bool) -> Event {
    Event::RunnerChecked { custom_runner }
}

fn link(verbose: bool) -> Step {
    Step::Link {
        args: words(&["--server", "--args", "--", "--", "-x"]),
        verbose,
    }
}

#[test]
fn steps_of_a_build() {
    for verbose in [false, true] {
        let cmd = CargoCmd::Build(build(verbose));
        assert_eq!(
            cmd.run_callback(Event::CargoFinished),
            [Step::GetMetadata, Step::BuildSmdh, Step::Build3dsx { verbose }]
        );
        assert!(cmd.run_callback(checked(false)).is_empty());
    }
    assert!(build(true).callback(false).is_empty());
}

#[test]
fn steps_of_a_run() {
    for verbose in [false, true] {
        let cmd = CargoCmd::Run(run(verbose));
        assert_eq!(
            cmd.run_callback(Event::CargoFinished),
            [
                Step::GetMetadata,
                Step::BuildSmdh,
                Step::Build3dsx { verbose },
                Step::CheckRunner,
            ]
        );
        assert_eq!(cmd.run_callback(checked(false)), [link(verbose)]);
        assert!(cmd.run_callback(checked(true)).is_empty());
    }
    assert_eq!(run(true).callback(false, Event::CargoFinished), [Step::CheckRunner]);
    assert!(run(true).callback(false, checked(false)).is_empty());
}

#[test]
fn steps_of_a_test() {
    let cmd = CargoCmd::Test(test(false, false));
    assert_eq!(
        cmd.run_callback(Event::CargoFinished),
        [
            Step::GetMetadata,
            Step::BuildSmdh,
            Step::Build3dsx { verbose: true },
            Step::CheckRunner,
        ]
    );
    assert_eq!(cmd.run_callback(checked(false)), [link(true)]);
    assert!(cmd.run_callback(checked(true)).is_empty());

    let cmd = CargoCmd::Test(test(true, false));
    assert_eq!(
        cmd.run_callback(Event::CargoFinished),
        [Step::GetMetadata, Step::BuildSmdh, Step::Build3dsx { verbose: true }]
    );
    assert!(cmd.run_callback(checked(false)).is_empty());
}

#[test]
fn doc_tests_build_nothing() {
    let cmd = CargoCmd::Test(test(false, true));
    assert_eq!(cmd.run_callback(Event::CargoFinished), [Step::CheckRunner]);
    assert!(cmd.run_callback(checked(false)).is_empty());
    assert!(cmd.run_callback(checked(true)).is_empty());

    let cmd = CargoCmd::Test(test(true, true));
    assert!(cmd.run_callback(Event::CargoFinished).is_empty());
}

#[test]
fn steps_of_a_new_binary() {
    let steps = [
        Step::OpenProject {
            project: "some/where".to_string(),
        },
        Step::CreateDir { path: "romfs" },
        Step::EditManifest { path: "Cargo.toml" },
        Step::WriteFile {
            path: "src/main.rs",
            text: CUSTOM_MAIN_RS,
        },
    ];
    assert_eq!(new(&["--bin", "--library"]).callback(), steps);
    let cmd = CargoCmd::New(new(&[]));
    assert_eq!(cmd.run_callback(Event::CargoFinished), steps);
    assert!(cmd.run_callback(checked(false)).is_empty());
}

#[test]
fn new_library_is_left_alone() {
    assert!(new(&["--lib"]).callback().is_empty());
    assert!(new(&["--name", "x", "--lib"]).callback().is_empty());
    assert!(CargoCmd::New(new(&["--lib"])).run_callback(Event::CargoFinished).is_empty());
}

#[test]
fn passthrough_has_no_steps() {
    let cmd = CargoCmd::Passthrough(words(&["clippy"]));
    assert!(cmd.run_callback(Event::CargoFinished).is_empty());
    assert!(cmd.run_callback(checked(false)).is_empty());
}

#[test]
fn manifest_is_kept_and_extended() {
    assert_eq!(
        New::edit_manifest("[dependencies]\n".to_string()),
        format!("[dependencies]\n{TOML_CHANGES}")
    );
    assert_eq!(
        TOML_CHANGES,
        "ctru-rs = { git = \"https://github.com/rust3ds/ctru-rs\" }\n\n\
         [package.metadata.cargo-3ds]\nromfs_dir = \"romfs\"\n"
    );
}

#[test]
fn main_file_waits_for_start() {
    assert!(CUSTOM_MAIN_RS.starts_with("use ctru::prelude::*;\n\nfn main() {\n"));
    assert!(CUSTOM_MAIN_RS.contains("println!(\"\\x1b[29;16HPress Start to exit\");\n"));
    assert!(CUSTOM_MAIN_RS.ends_with("            break;\n        }\n    }\n}\n"));
}
