use cargo_3ds::args::RemainingArgs;
use clap::{Arg, ArgAction, Command};

struct TestParam {
    input: &'static [&'static str],
    expected_cargo: &'static [&'static str],
    expected_exe: &'static [&'static str],
}

fn remaining(words: &[&str]) -> RemainingArgs {
    RemainingArgs {
        args: words.iter().map(ToString::to_string).collect(),
    }
}

/// What the command line leaves to the `run` subcommand.
fn parse_run(input: &[&str]) -> RemainingArgs {
    let passthrough = Arg::new("args")
        .trailing_var_arg(true)
        .allow_hyphen_values(true)
        .value_name("CARGO_ARGS")
        .num_args(1..)
        .action(ArgAction::Append);
    let run = Command::new("run")
        .arg(Arg::new("address").long("address").short('a'))
        .arg(Arg::new("argv0").long("argv0").short('0'))
        .arg(Arg::new("server").long("server").short('s').action(ArgAction::SetTrue))
        .arg(Arg::new("retries").long("retries"))
        .arg(passthrough);
    let matches = Command::new("cargo")
        .bin_name("cargo")
        .subcommand(Command::new("3ds").subcommand(run))
        .try_get_matches_from(input)
        .unwrap_or_else(|e| panic!("{e}"));
    let run = matches
        .subcommand_matches("3ds")
        .and_then(|m| m.subcommand_matches("run"));
    let Some(run) = run else {
        panic!("parsed as something other than `run` subcommand")
    };
    RemainingArgs {
        args: run
            .get_many::<String>("args")
            .map(|words| words.cloned().collect())
            .unwrap_or_default(),
    }
}

#[test]
fn split_run_args() {
    for param in [
        TestParam {
            input: &["--example", "hello-world", "--no-default-features"],
            expected_cargo: &["--example", "hello-world", "--no-default-features"],
            expected_exe: &[],
        },
        TestParam {
            input: &["--example", "hello-world", "--", "--do-stuff", "foo"],
            expected_cargo: &["--example", "hello-world"],
            expected_exe: &["--do-stuff", "foo"],
        },
        TestParam {
            input: &["--lib", "--", "foo"],
            expected_cargo: &["--lib"],
            expected_exe: &["foo"],
        },
        TestParam {
            input: &["foo", "--", "bar"],
            expected_cargo: &["foo"],
            expected_exe: &["bar"],
        },
    ] {
        let input: Vec<&str> = ["cargo", "3ds", "run"]
            .iter()
            .chain(param.input)
            .copied()
            .collect();

        let passthrough = parse_run(&input);
        assert_eq!(passthrough.cargo_args(), param.expected_cargo);
        assert_eq!(passthrough.exe_args(), param.expected_exe);

        let passthrough = remaining(param.input);
        assert_eq!(passthrough.cargo_args(), param.expected_cargo);
        assert_eq!(passthrough.exe_args(), param.expected_exe);
    }
}

#[test]
fn second_separator_reaches_the_executable() {
    let passthrough = parse_run(&["cargo", "3ds", "run", "--", "--", "xyz"]);
    assert!(passthrough.cargo_args().is_empty());
    assert_eq!(passthrough.exe_args(), ["xyz"]);
}

#[test]
fn separator_at_the_ends() {
    let first = remaining(&["--", "a"]);
    assert!(first.cargo_args().is_empty());
    assert_eq!(first.exe_args(), ["a"]);

    let last = remaining(&["a", "--"]);
    assert_eq!(last.cargo_args(), ["a"]);
    assert!(last.exe_args().is_empty());

    let none = remaining(&[]);
    assert!(none.cargo_args().is_empty());
    assert!(none.exe_args().is_empty());
}

#[test]
fn only_the_first_separator_splits() {
    let (cargo, exe) = remaining(&["a", "--", "b", "--", "c"]).split_args();
    assert_eq!(cargo, ["a"]);
    assert_eq!(exe, ["b", "--", "c"]);
}

#[test]
fn longer_dashes_do_not_split() {
    let (cargo, exe) = remaining(&["---", "--x", "-"]).split_args();
    assert_eq!(cargo, ["---", "--x", "-"]);
    assert!(exe.is_empty());
}
