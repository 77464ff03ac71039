//! What `3dslink` is told when it sends an executable to the device.
use vstd::prelude::*;
use crate::args::exe_words;
use crate::command::Run;
use crate::text::{
    before, decimal, lemma_before_is, starts_with, to_decimal, words_of, Text, Words,
};

verus! {

/// An IPv4 address.
#[derive(Debug, Clone, Copy, PartialEq, Eq)]
pub struct Ipv4Addr {
    /// The four bytes of the address, in the order in which they are written.
    pub octets: [u8; 4],
}

impl View for Ipv4Addr {
    type V = Text;

    /// The address in dotted decimal notation.
    open spec fn view(&self) -> Text {
        decimal(self.octets@[0] as nat).push('.') + decimal(self.octets@[1] as nat).push('.')
            + decimal(self.octets@[2] as nat).push('.') + decimal(self.octets@[3] as nat)
    }
}

impl Ipv4Addr {
    /// Writes the address in dotted decimal notation.
    pub fn to_text(&self) -> (res: String)
        ensures
            res@ == self@,
    {
        proof {
            reveal_strlit(".");
        }
        let mut res = to_decimal(self.octets[0] as usize);
        res.append(".");
        res.append(&to_decimal(self.octets[1] as usize));
        res.append(".");
        res.append(&to_decimal(self.octets[2] as usize));
        res.append(".");
        res.append(&to_decimal(self.octets[3] as usize));
        assert(res@ == self@);
        res
    }
}

/// The property of beginning with a hyphen.
pub open spec fn is_hyphenated() -> spec_fn(Text) -> bool {
    |w: Text| "-"@.is_prefix_of(w)
}

/// The arguments of the executable with a `--` before the first that begins with a
/// hyphen.
pub open spec fn escaped(words: Words) -> Words {
    let at = before(words, is_hyphenated());
    if at < words.len() {
        words.insert(at, "--"@)
    } else {
        words
    }
}

/// An option with its value, where it has one.
pub open spec fn option_words(name: Text, value: Option<Text>) -> Words {
    match value {
        Some(value) => seq![name, value],
        None => seq![],
    }
}

/// What an optional string holds.
pub open spec fn option_text(value: Option<String>) -> Option<Text> {
    match value {
        Some(value) => Some(value@),
        None => None,
    }
}

/// Adds an option with its value, where it has one.
fn push_option(args: &mut Vec<String>, name: &str, value: Option<String>)
    ensures
        words_of(final(args)@) == words_of(old(args)@) + option_words(name@, option_text(value)),
{
    if let Some(value) = value {
        args.push(name.to_owned());
        args.push(value);
    }
    assert(words_of(args@) == words_of(old(args)@) + option_words(name@, option_text(value)));
}

/// Puts a `--` before the first argument that begins with a hyphen.
fn escape_args(args: Vec<String>) -> (res: Vec<String>)
    ensures
        words_of(res@) == escaped(words_of(args@)),
{
    let ghost words = words_of(args@);
    let mut res: Vec<String> = Vec::new();
    let mut marked: bool = false;
    let mut at: usize = 0;
    while at < args.len()
        invariant
            at <= args@.len(),
            words == words_of(args@),
            !marked ==> words_of(res@) == words.take(at as int),
            !marked ==> forall|j: int| 0 <= j < at ==> !"-"@.is_prefix_of(#[trigger] words[j]),
            marked ==> 0 <= before(words, is_hyphenated()) < at,
            marked ==> words_of(res@) == words.take(at as int).insert(
                before(words, is_hyphenated()),
                "--"@,
            ),
        decreases args.len() - at,
    {
        let arg = args[at].clone();
        let ghost done = words_of(res@);
        if starts_with(&arg, "-") && !marked {
            proof {
                lemma_before_is(words, is_hyphenated(), at as int);
            }
            res.push("--".to_owned());
            res.push(arg);
            marked = true;
            assert(words_of(res@) == done.push("--"@).push(words[at as int]));
        } else {
            res.push(arg);
            assert(words_of(res@) == done.push(words[at as int]));
        }
        at = at + 1;
    }
    assert(words.take(at as int) == words);
    proof {
        if !marked {
            lemma_before_is(words, is_hyphenated(), at as int);
        }
    }
    res
}

impl Run {
    /// The address of the device, where one is given.
    pub open spec fn address_text(self) -> Option<Text> {
        match self.address {
            Some(address) => Some(address@),
            None => None,
        }
    }

    /// The number of tries, where one is given.
    pub open spec fn retries_text(self) -> Option<Text> {
        match self.retries {
            Some(retries) => Some(decimal(retries as nat)),
            None => None,
        }
    }

    /// The options for `3dslink` itself.
    pub open spec fn link_options(self) -> Words {
        option_words("--address"@, self.address_text()) + option_words(
            "--argv0"@,
            option_text(self.argv0),
        ) + option_words("--retries"@, self.retries_text()) + (if self.server {
            seq!["--server"@]
        } else {
            seq![]
        })
    }

    /// The arguments for `3dslink`: its own options, and then those of the executable.
    pub open spec fn link_words(self) -> Words {
        let exe = exe_words(self.build_args.passthrough@);
        if exe.len() > 0 {
            self.link_options() + seq!["--args"@, "--"@] + escaped(exe)
        } else {
            self.link_options()
        }
    }

    /// Get the args to pass to `3dslink` based on these options.
    pub fn get_3dslink_args(&self) -> (res: Vec<String>)
        ensures
            words_of(res@) == self.link_words(),
    {
        let mut args: Vec<String> = Vec::new();
        assert(words_of(args@) == Seq::<Text>::empty());
        let address = match &self.address {
            Some(address) => Some(address.to_text()),
            None => None,
        };
        push_option(&mut args, "--address", address);
        push_option(&mut args, "--argv0", self.argv0.clone());
        let retries = match self.retries {
            Some(retries) => Some(to_decimal(retries)),
            None => None,
        };
        push_option(&mut args, "--retries", retries);
        let ghost before_server = words_of(args@);
        if self.server {
            args.push("--server".to_owned());
        }
        assert(words_of(args@) == before_server + (if self.server {
            seq!["--server"@]
        } else {
            seq![]
        }));
        assert(words_of(args@) == self.link_options());
        let exe_args = self.build_args.passthrough.exe_args();
        if !exe_args.is_empty() {
            // `3dslink` wants a `--` in front of all of the args, and one before the
            // first that begins with a hyphen.
            args.push("--args".to_owned());
            args.push("--".to_owned());
            assert(words_of(args@) == self.link_options() + seq!["--args"@, "--"@]);
            let ghost head = args@;
            let mut escaped_args = escape_args(exe_args);
            let ghost tail = escaped_args@;
            args.append(&mut escaped_args);
            assert(words_of(args@) == words_of(head) + words_of(tail));
        }
        args
    }
}

} // verus!
