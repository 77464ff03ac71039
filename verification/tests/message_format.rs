use cargo_3ds::args::RemainingArgs;
use cargo_3ds::command::{Build, CargoCmd, New, Run, Test};

fn words(list: &[&str]) -> Vec<String> {
    list.iter().map(ToString::to_string).collect()
}

fn build(list: &[&str]) -> Build {
    Build {
        verbose: false,
        passthrough: RemainingArgs { args: words(list) },
    }
}

fn run(list: &[&str]) -> Run {
    Run {
        address: None,
        argv0: Some("zero".to_string()),
        server: true,
        retries: Some(3),
        build_args: build(list),
        config: words(&["net.offline=true"]),
    }
}

fn doc_test(doc: bool, list: &[&str]) -> CargoCmd {
    CargoCmd::Test(Test {
        no_run: false,
        doc,
        run_args: run(list),
    })
}

#[test]
fn extract_format() {
    const CASES: &[(&[&str], Option<&str>)] = &[
        (&["--foo", "--message-format=json", "bar"], Some("json")),
        (&["--foo", "--message-format", "json", "bar"], Some("json")),
        (
            &[
                "--foo",
                "--message-format",
                "json-render-diagnostics",
                "bar",
            ],
            Some("json-render-diagnostics"),
        ),
        (
            &["--foo", "--message-format=json-render-diagnostics", "bar"],
            Some("json-render-diagnostics"),
        ),
        (&["--foo", "bar"], None),
    ];

    for (args, expected) in CASES {
        let mut cmd = CargoCmd::Build(Build {
            passthrough: RemainingArgs {
                args: args.iter().map(ToString::to_string).collect(),
            },
            verbose: false,
        });

        assert!(!cmd.message_format_missing());
        assert_eq!(
            cmd.extract_message_format().unwrap(),
            expected.map(|s| s.to_string())
        );

        if let CargoCmd::Build(build) = cmd {
            assert_eq!(build.passthrough.args, vec!["--foo", "bar"]);
        } else {
            unreachable!();
        }
    }
}

#[test]
fn extract_format_err() {
    for args in [&["--message-format=foo"][..], &["--message-format", "foo"]] {
        let mut cmd = CargoCmd::Build(Build {
            passthrough: RemainingArgs {
                args: args.iter().map(ToString::to_string).collect(),
            },
            verbose: false,
        });

        assert!(cmd.extract_message_format().is_err());
    }
}

#[test]
fn refused_format_is_taken_out() {
    let mut cmd = CargoCmd::Build(build(&["a", "--message-format", "human", "b"]));
    assert_eq!(
        cmd.extract_message_format(),
        Err("error: non-JSON `message-format` is not supported".to_string())
    );
    assert_eq!(cmd, CargoCmd::Build(build(&["a", "b"])));
}

#[test]
fn json_must_come_first() {
    let mut cmd = CargoCmd::Build(build(&["--message-format=not-json"]));
    assert!(cmd.extract_message_format().is_err());
    let mut cmd = CargoCmd::Build(build(&["--message-format=jso"]));
    assert!(cmd.extract_message_format().is_err());
    let mut cmd = CargoCmd::Build(build(&["--message-format="]));
    assert!(cmd.extract_message_format().is_err());
}

#[test]
fn first_equals_sign_counts() {
    let mut args = words(&["--message-format=json=x"]);
    assert_eq!(
        CargoCmd::extract_message_format_from_args(&mut args),
        Ok(Some("json=x".to_string()))
    );
    assert!(args.is_empty());
}

#[test]
fn flag_is_told_by_its_beginning() {
    let mut args = words(&["x", "--message-formats", "json", "--message-format=json-b"]);
    assert_eq!(
        CargoCmd::extract_message_format_from_args(&mut args),
        Ok(Some("json".to_string()))
    );
    assert_eq!(args, ["x", "--message-format=json-b"]);
    assert_eq!(
        CargoCmd::extract_message_format_from_args(&mut args),
        Ok(Some("json-b".to_string()))
    );
    assert_eq!(args, ["x"]);
    assert_eq!(CargoCmd::extract_message_format_from_args(&mut args), Ok(None));
    assert_eq!(args, ["x"]);
}

#[test]
fn format_may_hold_any_characters() {
    let mut args = words(&["\u{e9}\u{4e16}=", "--message-format=json-\u{4e16}"]);
    assert_eq!(
        CargoCmd::extract_message_format_from_args(&mut args),
        Ok(Some("json-\u{4e16}".to_string()))
    );
    assert_eq!(args, ["\u{e9}\u{4e16}="]);
}

#[test]
fn doc_tests_default_to_human() {
    let mut cmd = doc_test(true, &["a"]);
    assert_eq!(cmd.extract_message_format(), Ok(Some("human".to_string())));
    assert_eq!(cmd, doc_test(true, &["a"]));

    let mut cmd = doc_test(true, &["--message-format", "json", "a"]);
    assert_eq!(cmd.extract_message_format(), Ok(Some("json".to_string())));
    assert_eq!(cmd, doc_test(true, &["a"]));

    let mut cmd = doc_test(true, &["--message-format", "human"]);
    assert!(cmd.extract_message_format().is_err());

    let mut cmd = doc_test(false, &["a"]);
    assert_eq!(cmd.extract_message_format(), Ok(None));
}

#[test]
fn every_command_gives_up_its_format() {
    let mut cmd = CargoCmd::Run(run(&["--message-format=json", "--", "b"]));
    assert_eq!(cmd.extract_message_format(), Ok(Some("json".to_string())));
    assert_eq!(cmd, CargoCmd::Run(run(&["--", "b"])));

    let mut cmd = CargoCmd::New(New {
        path: "p".to_string(),
        cargo_args: RemainingArgs {
            args: words(&["--message-format=json", "--lib"]),
        },
    });
    assert_eq!(cmd.extract_message_format(), Ok(Some("json".to_string())));
    assert_eq!(
        cmd,
        CargoCmd::New(New {
            path: "p".to_string(),
            cargo_args: RemainingArgs {
                args: words(&["--lib"]),
            },
        })
    );

    let mut cmd = CargoCmd::Passthrough(words(&["clippy", "--message-format", "json"]));
    assert_eq!(cmd.extract_message_format(), Ok(Some("json".to_string())));
    assert_eq!(cmd, CargoCmd::Passthrough(words(&["clippy"])));
    assert_eq!(cmd.subcommand_name(false), "clippy");
}

#[test]
fn missing_format_is_noticed() {
    assert!(CargoCmd::Build(build(&["a", "--message-format"])).message_format_missing());
    assert!(!CargoCmd::Build(build(&["a", "--message-format="])).message_format_missing());
    assert!(!CargoCmd::Build(build(&["--message-format", "a"])).message_format_missing());
    assert!(!CargoCmd::Build(build(&["a"])).message_format_missing());
    assert!(!CargoCmd::Build(build(&[])).message_format_missing());
}

#[test]
fn default_message_format() {
    assert_eq!(CargoCmd::DEFAULT_MESSAGE_FORMAT, "json-render-diagnostics");
}
