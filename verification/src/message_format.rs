//! The `--message-format` option, which is taken out of the arguments for `cargo`.
use vstd::prelude::*;
use crate::command::{CargoCmd, Test};
use crate::text::{
    after_first, before, lemma_before, lemma_before_is, split_after, starts_with, words_of, Text,
    Words,
};

verus! {

/// The property of beginning with `--message-format`.
pub open spec fn is_flag() -> spec_fn(Text) -> bool {
    |w: Text| "--message-format"@.is_prefix_of(w)
}

/// Where the first `--message-format` stands, or the number of words where there is
/// none.
pub open spec fn flag_at(words: Words) -> int {
    before(words, is_flag())
}

/// Whether the last word is the `--message-format` that would be read, with no format
/// behind it.
pub open spec fn format_missing(words: Words) -> bool {
    let at = flag_at(words);
    at + 1 == words.len() && after_first(words[at], '=') is None
}

/// The format that is asked for: what follows the `=`, or else the next word.
pub open spec fn asked_format(words: Words) -> Option<Text> {
    let at = flag_at(words);
    if at == words.len() {
        None
    } else {
        match after_first(words[at], '=') {
            Some(format) => Some(format),
            None => Some(words[at + 1]),
        }
    }
}

/// The words without the option, and without the word that holds its format.
pub open spec fn without_format(words: Words) -> Words {
    let at = flag_at(words);
    if at == words.len() {
        words
    } else if after_first(words[at], '=') is Some {
        words.remove(at)
    } else {
        words.remove(at).remove(at)
    }
}

/// Whether the messages of a format are JSON.
pub open spec fn is_json(format: Text) -> bool {
    "json"@.is_prefix_of(format)
}

/// What comes of the format that is asked for: other formats than JSON are refused.
pub open spec fn checked_format(asked: Option<Text>) -> Result<Option<Text>, Text> {
    match asked {
        Some(format) => if is_json(format) {
            Ok(Some(format))
        } else {
            Err("error: non-JSON `message-format` is not supported"@)
        },
        None => Ok(None),
    }
}

/// What the extraction gives for a command. Documentation tests build nothing that JSON
/// messages would describe, so their messages are for people unless JSON is asked for.
pub open spec fn extracted_format(cmd: CargoCmd) -> Result<Option<Text>, Text> {
    match checked_format(asked_format(cmd.words())) {
        Ok(None) if cmd.is_doc_test() => Ok(Some("human"@)),
        res => res,
    }
}

/// The texts that a result of the extraction holds.
pub open spec fn result_text(res: Result<Option<String>, String>) -> Result<Option<Text>, Text> {
    match res {
        Ok(Some(format)) => Ok(Some(format@)),
        Ok(None) => Ok(None),
        Err(message) => Err(message@),
    }
}

/// Finds the first `--message-format`.
fn find_flag(args: &Vec<String>) -> (at: usize)
    ensures
        at == flag_at(words_of(args@)),
{
    let ghost words = words_of(args@);
    let mut at: usize = 0;
    while at < args.len()
        invariant
            at <= args@.len(),
            words == words_of(args@),
            forall|j: int| 0 <= j < at ==> !"--message-format"@.is_prefix_of(#[trigger] words[j]),
        decreases args.len() - at,
    {
        if starts_with(&args[at], "--message-format") {
            proof {
                lemma_before_is(words, is_flag(), at as int);
            }
            return at;
        }
        at = at + 1;
    }
    proof {
        lemma_before_is(words, is_flag(), at as int);
    }
    at
}

impl CargoCmd {
    /// The message format where none is asked for.
    pub const DEFAULT_MESSAGE_FORMAT: &'static str = "json-render-diagnostics";

    /// Takes the message format out of the arguments: the format that is asked for, or
    /// `human` where none is and documentation tests are requested.
    ///
    /// Nothing else of the command changes, whether a format is returned or an error.
    pub fn extract_message_format(&mut self) -> (res: Result<Option<String>, String>)
        requires
            !format_missing(old(self).words()),
        ensures
            final(self).words() == without_format(old(self).words()),
            final(self).same_options(*old(self)),
            result_text(res) == extracted_format(*old(self)),
    {
        let cargo_args = match self {
            Self::Build(build) => &mut build.passthrough.args,
            Self::Run(run) => &mut run.build_args.passthrough.args,
            Self::New(new) => &mut new.cargo_args.args,
            Self::Test(test) => &mut test.run_args.build_args.passthrough.args,
            Self::Passthrough(args) => args,
        };
        let format = Self::extract_message_format_from_args(cargo_args)?;
        if format.is_some() {
            return Ok(format);
        }
        if let Self::Test(Test { doc: true, .. }) = self {
            Ok(Some("human".to_owned()))
        } else {
            Ok(None)
        }
    }

    /// Whether the option stands last, without the format that belongs to it.
    pub fn message_format_missing(&self) -> (res: bool)
        ensures
            res == format_missing(self.words()),
    {
        let cargo_args = match self {
            Self::Build(build) => &build.passthrough.args,
            Self::Run(run) => &run.build_args.passthrough.args,
            Self::New(new) => &new.cargo_args.args,
            Self::Test(test) => &test.run_args.build_args.passthrough.args,
            Self::Passthrough(args) => args,
        };
        let pos = find_flag(cargo_args);
        pos < cargo_args.len() && pos + 1 == cargo_args.len() && split_after(
            &cargo_args[pos],
            '=',
        ).is_none()
    }

    /// Takes the first `--message-format` and its format out of `cargo_args`. Both
    /// `--message-format=<format>` and `--message-format <format>` are understood.
    ///
    /// Non-JSON formats are not supported: there the error is returned, and the option
    /// is gone all the same.
    pub fn extract_message_format_from_args(cargo_args: &mut Vec<String>) -> (res: Result<
        Option<String>,
        String,
    >)
        requires
            !format_missing(words_of(old(cargo_args)@)),
        ensures
            words_of(final(cargo_args)@) == without_format(words_of(old(cargo_args)@)),
            result_text(res) == checked_format(asked_format(words_of(old(cargo_args)@))),
    {
        let ghost words = words_of(cargo_args@);
        let pos = find_flag(cargo_args);
        proof {
            lemma_before(words, is_flag());
        }
        if pos < cargo_args.len() {
            let arg = cargo_args.remove(pos);
            assert(words_of(cargo_args@) == words.remove(pos as int));
            let format = match split_after(&arg, '=') {
                Some(format) => format,
                None => {
                    let format = cargo_args.remove(pos);
                    assert(words_of(cargo_args@) == words.remove(pos as int).remove(pos as int));
                    format
                },
            };
            if starts_with(&format, "json") {
                Ok(Some(format))
            } else {
                Err("error: non-JSON `message-format` is not supported".to_owned())
            }
        } else {
            Ok(None)
        }
    }
}

} // verus!
