//! Whether a custom runner is configured for the 3DS target. The real `cargo` is asked,
//! once: its answer holds for the rest of the program.
use vstd::prelude::*;
use crate::command::Run;
use crate::text::{words_of, Words};

verus! {

/// The answer of `cargo`, once it is known.
#[derive(Debug)]
pub struct RunnerCheck {
    answer: Option<bool>,
}

impl View for RunnerCheck {
    type V = Option<bool>;

    closed spec fn view(&self) -> Option<bool> {
        self.answer
    }
}

/// A question to `cargo`.
#[derive(Debug, PartialEq, Eq)]
pub struct RunnerQuery {
    /// The configuration from the command line that `cargo` takes into account.
    pub config: Vec<String>,
    /// The arguments of `cargo`.
    pub args: Vec<String>,
    /// Whether to print the command.
    pub print: bool,
}

/// What is known of the custom runner.
#[derive(Debug, PartialEq, Eq)]
pub enum RunnerReply {
    /// Nothing yet: `cargo` has to be asked, and how it exits is to be handed to
    /// [`RunnerCheck::record`].
    Ask(RunnerQuery),
    /// Whether it is configured, and what to tell the user about it.
    Known {
        /// Whether a custom runner is configured.
        custom_runner: bool,
        /// A line for the user, if there is anything to say.
        notice: Option<&'static str>,
    },
}

/// The arguments with which `cargo` is asked.
pub open spec fn query_words() -> Words {
    seq![
        "-Z"@,
        "unstable-options"@,
        "config"@,
        "get"@,
        "target.armv6k-nintendo-3ds.runner"@,
    ]
}

/// The answer after `cargo` has exited: the first one stays. `cargo` exits with success
/// if and only if a runner is configured; `None` stands for a `cargo` that could not be
/// run.
pub open spec fn recorded(known: Option<bool>, success: Option<bool>) -> Option<bool> {
    match known {
        Some(answer) => Some(answer),
        None => Some(success == Some(true)),
    }
}

impl RunnerCheck {
    /// Nothing is known yet.
    pub fn new() -> (res: Self)
        ensures
            res@ is None,
    {
        RunnerCheck { answer: None }
    }

    /// Takes down how `cargo` has exited, with success or without, or `None` where it
    /// could not be run. Later answers change nothing.
    pub fn record(&mut self, success: Option<bool>)
        ensures
            final(self)@ == recorded(old(self)@, success),
    {
        if self.answer.is_none() {
            self.answer = match success {
                Some(success) => Some(success),
                None => Some(false),
            };
        }
    }
}

impl Run {
    /// Whether `reply` is right for these options, where `known` is the answer so far.
    pub open spec fn is_runner_reply(self, known: Option<bool>, reply: RunnerReply) -> bool {
        match (known, reply) {
            (None, RunnerReply::Ask(query)) => {
                &&& words_of(query.config@) == words_of(self.config@)
                &&& words_of(query.args@) == query_words()
                &&& query.print == self.build_args.verbose
            },
            (Some(answer), RunnerReply::Known { custom_runner, notice }) => {
                &&& custom_runner == answer
                &&& match notice {
                    Some(line) => self.build_args.verbose && line@ == (if answer {
                        "Custom runner is configured"@
                    } else {
                        "Custom runner is not configured"@
                    }),
                    None => !self.build_args.verbose,
                }
            },
            _ => false,
        }
    }

    /// Returns whether the cargo environment has `target.armv6k-nintendo-3ds.runner`
    /// configured, or how to find out. This is only checked once during the lifetime of
    /// `check`, and takes into account the usual ways Cargo looks for its
    /// [configuration](https://doc.rust-lang.org/cargo/reference/config.html):
    ///
    /// - `.cargo/config.toml`
    /// - Environment variables
    /// - Command-line `--config` overrides
    pub fn use_custom_runner(&self, check: &RunnerCheck) -> (reply: RunnerReply)
        ensures
            self.is_runner_reply(check@, reply),
    {
        match check.answer {
            None => {
                let config = self.config.clone();
                assert(words_of(config@) == words_of(self.config@));
                let args = vec![
                    "-Z".to_owned(),
                    "unstable-options".to_owned(),
                    "config".to_owned(),
                    "get".to_owned(),
                    "target.armv6k-nintendo-3ds.runner".to_owned(),
                ];
                assert(words_of(args@) == query_words());
                RunnerReply::Ask(RunnerQuery { config, args, print: self.build_args.verbose })
            },
            Some(custom_runner) => {
                let notice = if !self.build_args.verbose {
                    None
                } else if custom_runner {
                    Some("Custom runner is configured")
                } else {
                    Some("Custom runner is not configured")
                };
                RunnerReply::Known { custom_runner, notice }
            },
        }
    }
}

} // verus!
