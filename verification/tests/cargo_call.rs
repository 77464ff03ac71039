use cargo_3ds::args::RemainingArgs;
use cargo_3ds::cargo_call::Decision;
use cargo_3ds::command::{Build, Cargo, CargoCmd, Input, New, Run, Test};

fn words(list: &[&str]) -> Vec<String> {
    list.iter().map(ToString::to_string).collect()
}

fn build(list: &[&str]) -> Build {
    Build {
        verbose: false,
        passthrough: RemainingArgs { args: words(list) },
    }
}

fn run(list: &[&str]) -> Run {
    Run {
        address: None,
        argv0: None,
        server: false,
        retries: None,
        build_args: build(list),
        config: vec![],
    }
}

fn test(no_run: bool, doc: bool, list: &[&str]) -> Test {
    Test {
        no_run,
        doc,
        run_args: run(list),
    }
}

fn new(path: &str, list: &[&str]) -> CargoCmd {
    CargoCmd::New(New {
        path: path.to_string(),
        cargo_args: RemainingArgs { args: words(list) },
    })
}

#[test]
fn cargo_args_of_each_command() {
    let list = ["--release", "--", "exe"];
    for custom_runner in [false, true] {
        assert_eq!(CargoCmd::Build(build(&list)).cargo_args(custom_runner), ["--release"]);
        assert_eq!(CargoCmd::Run(run(&list)).cargo_args(custom_runner), ["--release"]);
        assert_eq!(
            new("there", &["--bin", "--", "x"]).cargo_args(custom_runner),
            ["--bin", "there"]
        );
        assert_eq!(
            CargoCmd::Passthrough(words(&["clippy", "--fix", "--", "-D", "x"]))
                .cargo_args(custom_runner),
            ["--fix", "--", "-D", "x"]
        );
        assert!(CargoCmd::Passthrough(words(&["clippy"])).cargo_args(custom_runner).is_empty());
    }
}

#[test]
fn cargo_args_of_tests() {
    let list = ["--lib", "--", "exe"];
    let plain = CargoCmd::Test(test(false, false, &list));
    assert_eq!(plain.cargo_args(false), ["--lib", "--no-run"]);
    assert_eq!(plain.cargo_args(true), ["--lib"]);

    let no_run = CargoCmd::Test(test(true, false, &list));
    assert_eq!(no_run.cargo_args(false), ["--lib", "--no-run"]);
    assert_eq!(no_run.cargo_args(true), ["--lib", "--no-run"]);

    for no_run in [false, true] {
        for custom_runner in [false, true] {
            assert_eq!(
                CargoCmd::Test(test(no_run, true, &list)).cargo_args(custom_runner),
                ["--lib", "--doc", "-Z", "doctest-xcompile"]
            );
        }
    }
}

#[test]
fn rustdocflags_keep_doc_tests_from_running() {
    for doc in [false, true] {
        assert_eq!(test(false, doc, &[]).rustdocflags(false), " --no-run");
        assert_eq!(test(true, doc, &[]).rustdocflags(false), " --no-run");
        assert_eq!(test(true, doc, &[]).rustdocflags(true), " --no-run");
        assert_eq!(test(false, doc, &[]).rustdocflags(true), "");
        assert!(test(false, doc, &[]).should_run(true));
        assert!(!test(false, doc, &[]).should_run(false));
        assert!(!test(true, doc, &[]).should_run(true));
    }
}

#[test]
fn names_of_subcommands() {
    for custom_runner in [false, true] {
        assert_eq!(CargoCmd::Build(build(&[])).subcommand_name(custom_runner), "build");
        assert_eq!(
            CargoCmd::Test(test(false, false, &[])).subcommand_name(custom_runner),
            "test"
        );
        assert_eq!(new("p", &[]).subcommand_name(custom_runner), "new");
        assert_eq!(
            CargoCmd::Passthrough(words(&["clippy", "x"])).subcommand_name(custom_runner),
            "clippy"
        );
    }
    assert_eq!(CargoCmd::Run(run(&[])).subcommand_name(false), "build");
    assert_eq!(CargoCmd::Run(run(&[])).subcommand_name(true), "run");
}

#[test]
fn passthrough_needs_a_name() {
    assert!(!CargoCmd::Passthrough(vec![]).is_named());
    assert!(CargoCmd::Passthrough(words(&["doc"])).is_named());
    assert!(new("p", &[]).is_named());
}

#[test]
fn only_new_does_not_compile() {
    assert!(CargoCmd::Build(build(&[])).should_compile());
    assert!(CargoCmd::Run(run(&[])).should_compile());
    assert!(CargoCmd::Test(test(true, true, &[])).should_compile());
    assert!(CargoCmd::Passthrough(words(&["doc"])).should_compile());
    assert!(!new("p", &[]).should_compile());
}

#[test]
fn which_commands_build_a_3dsx() {
    assert!(CargoCmd::Build(build(&[])).should_build_3dsx());
    assert!(CargoCmd::Run(run(&[])).should_build_3dsx());
    assert!(CargoCmd::Test(test(true, false, &[])).should_build_3dsx());
    assert!(!CargoCmd::Test(test(false, true, &[])).should_build_3dsx());
    assert!(!CargoCmd::Passthrough(words(&["doc"])).should_build_3dsx());
    assert!(!new("p", &[]).should_build_3dsx());
    assert_eq!(
        CargoCmd::Test(test(false, true, &[])).build_3dsx_notice(),
        Some("Documentation tests requested, no 3dsx will be built")
    );
    assert_eq!(CargoCmd::Test(test(true, false, &[])).build_3dsx_notice(), None);
    assert_eq!(CargoCmd::Build(build(&[])).build_3dsx_notice(), None);
}

#[test]
fn which_commands_link() {
    assert!(CargoCmd::Run(run(&[])).should_link_to_device(false));
    assert!(!CargoCmd::Run(run(&[])).should_link_to_device(true));
    assert!(CargoCmd::Test(test(false, false, &[])).should_link_to_device(false));
    assert!(!CargoCmd::Test(test(false, false, &[])).should_link_to_device(true));
    for custom_runner in [false, true] {
        for cmd in [
            CargoCmd::Test(test(true, false, &[])),
            CargoCmd::Test(test(false, true, &[])),
            CargoCmd::Test(test(true, true, &[])),
            CargoCmd::Build(build(&[])),
            CargoCmd::Passthrough(words(&["doc"])),
            new("p", &[]),
        ] {
            assert!(!cmd.should_link_to_device(custom_runner));
        }
    }
}

#[test]
fn runner_is_consulted_where_it_matters() {
    use_of(CargoCmd::Build(build(&[])), [false, false, false, false]);
    use_of(CargoCmd::Run(run(&[])), [true, false, true, true]);
    use_of(CargoCmd::Test(test(false, false, &[])), [false, true, true, true]);
    use_of(CargoCmd::Test(test(true, false, &[])), [false, true, false, false]);
    use_of(CargoCmd::Test(test(false, true, &[])), [false, false, false, true]);
    use_of(CargoCmd::Test(test(true, true, &[])), [false, false, false, false]);
    use_of(new("p", &[]), [false, false, false, false]);
    use_of(CargoCmd::Passthrough(words(&["doc"])), [false, false, false, false]);
}

fn use_of(cmd: CargoCmd, expected: [bool; 4]) {
    let decisions = [
        Decision::SubcommandName,
        Decision::CargoArgs,
        Decision::LinkToDevice,
        Decision::Callback,
    ];
    for (decision, expected) in decisions.into_iter().zip(expected) {
        assert_eq!(cmd.consults_runner(decision), expected, "{cmd:?} {decision:?}");
    }
}

#[test]
fn command_line_holds_its_command() {
    let Cargo::Input(input) = Cargo::Input(Input {
        cmd: CargoCmd::Run(run(&["a"])),
        verbose: true,
        config: words(&["net.offline=true"]),
    });
    assert_eq!(input.cmd.subcommand_name(false), "build");
    assert_eq!(input.cmd.cargo_args(false), ["a"]);
}
