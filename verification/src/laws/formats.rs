//! Laws on the `--message-format` option: which word is read as the option, which format
//! is found, what comes of it, and what is left.
use vstd::prelude::*;
use crate::command::CargoCmd;
use crate::laws::law_no_option_no_change;
use crate::laws::reading::law_text_behind_a_mark;
use crate::message_format::{
    asked_format, checked_format, extracted_format, format_missing, is_flag, result_text,
    without_format,
};
use crate::text::{lemma_before, lemma_before_is, Text, Words};

verus! {

/// Whether no word begins with `--message-format`.
pub open spec fn optionless(words: Words) -> bool {
    forall|i: int|
        0 <= i < words.len() ==> !"--message-format"@.is_prefix_of(#[trigger] words[i])
}

/// What is owed to whoever asks for a format: that format, to the letter, if it begins with
/// `json`, and else the error.
pub open spec fn owed(format: Text) -> Result<Option<Text>, Text> {
    if "json"@.is_prefix_of(format) {
        Ok(Some(format))
    } else {
        Err("error: non-JSON `message-format` is not supported"@)
    }
}

/// Where the first word that begins with `--message-format` stands.
proof fn lemma_first_option(first: Words, word: Text, rest: Words)
    requires
        optionless(first),
        "--message-format"@.is_prefix_of(word),
    ensures
        crate::message_format::flag_at(first + seq![word] + rest) == first.len(),
        (first + seq![word] + rest)[first.len() as int] == word,
{
    let words = first + seq![word] + rest;
    let at = first.len() as int;
    assert forall|j: int| 0 <= j < at implies !is_flag()(#[trigger] words[j]) by {
        assert(words[j] == first[j]);
    }
    assert(is_flag()(words[at]));
    lemma_before_is(words, is_flag(), at);
}

/// A format that is joined to the option with `=` is given back to the letter, if it is
/// JSON, and refused if not. All that stands before the option and behind it is left.
pub proof fn law_joined_format(cmd: CargoCmd, first: Words, name: Text, format: Text, rest: Words)
    requires
        optionless(first),
        "--message-format"@.is_prefix_of(name),
        !name.contains('='),
        cmd.words() == first + seq![name.push('=') + format] + rest,
    ensures
        !format_missing(cmd.words()),
        extracted_format(cmd) == owed(format),
        checked_format(asked_format(cmd.words())) == owed(format),
        without_format(cmd.words()) == first + rest,
{
    let word = name.push('=') + format;
    let n = "--message-format"@.len() as int;
    assert(word.subrange(0, n) == name.subrange(0, n));
    lemma_first_option(first, word, rest);
    law_text_behind_a_mark(name, '=', format);
    assert(cmd.words().remove(first.len() as int) == first + rest);
}

/// A format in the word behind the option is given back to the letter, if it is JSON, and
/// refused if not. All that stands before the option and behind the format is left.
pub proof fn law_spaced_format(cmd: CargoCmd, first: Words, name: Text, format: Text, rest: Words)
    requires
        optionless(first),
        "--message-format"@.is_prefix_of(name),
        !name.contains('='),
        cmd.words() == first + seq![name, format] + rest,
    ensures
        !format_missing(cmd.words()),
        extracted_format(cmd) == owed(format),
        checked_format(asked_format(cmd.words())) == owed(format),
        without_format(cmd.words()) == first + rest,
{
    let at = first.len() as int;
    let words = cmd.words();
    assert(words == first + seq![name] + (seq![format] + rest));
    lemma_first_option(first, name, seq![format] + rest);
    law_text_behind_a_mark(name, '=', format);
    assert(words[at + 1] == format);
    assert(words.remove(at).remove(at) == first + rest);
}

/// Without the option no format is found and no word is lost; only documentation tests
/// have a format of their own then.
pub proof fn law_no_format_asked(cmd: CargoCmd)
    requires
        optionless(cmd.words()),
    ensures
        !format_missing(cmd.words()),
        without_format(cmd.words()) == cmd.words(),
        checked_format(asked_format(cmd.words())) == Ok::<Option<Text>, Text>(None),
        match cmd {
            CargoCmd::Test(test) if test.doc => extracted_format(cmd) == Ok::<Option<Text>, Text>(
                Some("human"@),
            ),
            _ => extracted_format(cmd) == Ok::<Option<Text>, Text>(None),
        },
{
    assert forall|i: int| 0 <= i < cmd.words().len() implies !is_flag()(
        #[trigger] cmd.words()[i],
    ) by {}
    law_no_option_no_change(cmd.words());
}

/// A format is missing exactly where the first option is the last word and holds no `=`.
pub proof fn law_format_is_missing(words: Words)
    ensures
        format_missing(words) <==> words.len() > 0 && optionless(words.drop_last())
            && "--message-format"@.is_prefix_of(words.last()) && !words.last().contains('='),
{
    lemma_before(words, is_flag());
    let at = crate::message_format::flag_at(words);
    if words.len() > 0 {
        let first = words.drop_last();
        let word = words.last();
        let marked = crate::text::before(word, crate::text::is_mark('='));
        lemma_before(word, crate::text::is_mark('='));
        if word.contains('=') {
            let i = word.index_of('=');
            assert(crate::text::is_mark('=')(word[i]));
        } else if marked < word.len() {
            assert(word.contains(word[marked]));
        }
        if format_missing(words) {
            assert forall|i: int| 0 <= i < first.len() implies !"--message-format"@.is_prefix_of(
                #[trigger] first[i],
            ) by {
                assert(first[i] == words[i]);
            }
        } else if optionless(first) && "--message-format"@.is_prefix_of(word) {
            assert(words == first + seq![word] + Seq::<Text>::empty());
            lemma_first_option(first, word, seq![]);
        }
    }
}

/// A JSON format is given back as it was asked for, and a format that is not JSON never is.
pub proof fn law_the_format_is_the_one_asked_for(cmd: CargoCmd, format: Text)
    requires
        asked_format(cmd.words()) == Some(format),
    ensures
        extracted_format(cmd) == owed(format),
        checked_format(asked_format(cmd.words())) == owed(format),
{
}

/// The result of an extraction is read as it is.
pub proof fn law_results_hold_their_texts(format: String, message: String)
    ensures
        result_text(Ok(Some(format))) == Ok::<Option<Text>, Text>(Some(format@)),
        result_text(Ok(None)) == Ok::<Option<Text>, Text>(None),
        result_text(Err(message)) == Err::<Option<Text>, Text>(message@),
{
}

/// Two commands with the same options differ at most in the words that they hand on.
pub proof fn law_same_options_are_the_same(a: CargoCmd, b: CargoCmd)
    requires
        a.same_options(b),
    ensures
        match (a, b) {
            (CargoCmd::Build(x), CargoCmd::Build(y)) => x.verbose == y.verbose,
            (CargoCmd::Run(x), CargoCmd::Run(y)) => {
                &&& x.address == y.address && x.argv0 == y.argv0 && x.server == y.server
                &&& x.retries == y.retries && x.config == y.config
                &&& x.build_args.verbose == y.build_args.verbose
            },
            (CargoCmd::Test(x), CargoCmd::Test(y)) => {
                let (p, q) = (x.run_args, y.run_args);
                &&& x.no_run == y.no_run && x.doc == y.doc
                &&& p.address == q.address && p.argv0 == q.argv0 && p.server == q.server
                &&& p.retries == q.retries && p.config == q.config
                &&& p.build_args.verbose == q.build_args.verbose
            },
            (CargoCmd::New(x), CargoCmd::New(y)) => x.path == y.path,
            (CargoCmd::Passthrough(_), CargoCmd::Passthrough(_)) => true,
            _ => false,
        },
{
}

} // verus!
