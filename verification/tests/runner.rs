use cargo_3ds::args::RemainingArgs;
use cargo_3ds::command::{Build, Run};
use cargo_3ds::runner::{RunnerCheck, RunnerQuery, RunnerReply};

fn run(verbose: bool, config: &[&str]) -> Run {
    Run {
        address: None,
        argv0: None,
        server: false,
        retries: None,
        build_args: Build {
            verbose,
            passthrough: RemainingArgs { args: vec![] },
        },
        config: config.iter().map(ToString::to_string).collect(),
    }
}

#[test]
fn cargo_is_asked_first() {
    let args = ["-Z", "unstable-options", "config", "get", "target.armv6k-nintendo-3ds.runner"];
    for verbose in [false, true] {
        assert_eq!(
            run(verbose, &["a=1", "b=2"]).use_custom_runner(&RunnerCheck::new()),
            RunnerReply::Ask(RunnerQuery {
                config: vec!["a=1".to_string(), "b=2".to_string()],
                args: args.iter().map(ToString::to_string).collect(),
                print: verbose,
            })
        );
    }
}

#[test]
fn exit_of_cargo_is_the_answer() {
    for (success, expected) in [(Some(true), true), (Some(false), false), (None, false)] {
        let mut check = RunnerCheck::new();
        check.record(success);
        assert_eq!(
            run(false, &[]).use_custom_runner(&check),
            RunnerReply::Known {
                custom_runner: expected,
                notice: None,
            }
        );
    }
}

#[test]
fn runner_is_checked_once() {
    for (first, expected) in [(true, true), (false, false)] {
        let mut check = RunnerCheck::new();
        check.record(Some(first));
        for later in [Some(true), Some(false), None] {
            check.record(later);
            for config in [&[][..], &["x=1"]] {
                assert_eq!(
                    run(false, config).use_custom_runner(&check),
                    RunnerReply::Known {
                        custom_runner: expected,
                        notice: None,
                    }
                );
            }
        }
    }
}

#[test]
fn verbose_runs_tell_of_the_runner() {
    for (success, notice) in [
        (true, "Custom runner is configured"),
        (false, "Custom runner is not configured"),
    ] {
        let mut check = RunnerCheck::new();
        check.record(Some(success));
        assert_eq!(
            run(true, &[]).use_custom_runner(&check),
            RunnerReply::Known {
                custom_runner: success,
                notice: Some(notice),
            }
        );
    }
}
