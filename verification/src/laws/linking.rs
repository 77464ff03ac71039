//! Laws on the arguments for `3dslink`.
use vstd::prelude::*;
use crate::command::Run;
use crate::laws::law_decimal_reads_back;
use crate::laws::number;
use crate::laws::reading::{divided, law_division_is_read_back};
use crate::link::{is_hyphenated, Ipv4Addr};
use crate::text::{decimal, lemma_before_is, words_of, Text, Words};

verus! {

/// Whether `3dslink` is to be told the same, apart from its own options.
pub open spec fn same_words(a: Run, b: Run) -> bool {
    words_of(a.build_args.passthrough.args@) == words_of(b.build_args.passthrough.args@)
}

/// How many words an option with a value takes.
pub open spec fn width<T>(value: Option<T>) -> int {
    if value is Some {
        2
    } else {
        0
    }
}

/// Without options of its own and without arguments for the executable, `3dslink` is told
/// nothing; with arguments for the executable, it is told those, whole and in order, with a
/// `--` in front.
pub proof fn law_plain_exe_args(run: Run, cargo: Words, exe: Words)
    requires
        run.address is None && run.argv0 is None && run.retries is None && !run.server,
        divided(words_of(run.build_args.passthrough.args@), cargo, exe),
        forall|i: int| 0 <= i < exe.len() ==> !"-"@.is_prefix_of(#[trigger] exe[i]),
    ensures
        exe.len() == 0 ==> run.link_words() == Seq::<Text>::empty(),
        exe.len() > 0 ==> run.link_words() == seq!["--args"@, "--"@] + exe,
{
    law_division_is_read_back(words_of(run.build_args.passthrough.args@), cargo, exe);
    lemma_before_is(exe, is_hyphenated(), exe.len() as int);
    assert(run.link_options() == Seq::<Text>::empty());
}

/// One more `--` stands before the first argument of the executable that begins with a
/// hyphen, and none before a later one.
pub proof fn law_hyphenated_exe_args(run: Run, cargo: Words, plain: Words, word: Text, rest: Words)
    requires
        run.address is None && run.argv0 is None && run.retries is None && !run.server,
        divided(
            words_of(run.build_args.passthrough.args@),
            cargo,
            plain + seq![word] + rest,
        ),
        forall|i: int| 0 <= i < plain.len() ==> !"-"@.is_prefix_of(#[trigger] plain[i]),
        "-"@.is_prefix_of(word),
    ensures
        run.link_words() == seq!["--args"@, "--"@] + plain + seq!["--"@, word] + rest,
{
    let exe = plain + seq![word] + rest;
    let at = plain.len() as int;
    law_division_is_read_back(words_of(run.build_args.passthrough.args@), cargo, exe);
    assert forall|j: int| 0 <= j < at implies !is_hyphenated()(#[trigger] exe[j]) by {
        assert(exe[j] == plain[j]);
    }
    assert(is_hyphenated()(exe[at]));
    lemma_before_is(exe, is_hyphenated(), at);
    assert(run.link_options() == Seq::<Text>::empty());
    assert(run.link_words() == seq!["--args"@, "--"@] + plain + seq!["--"@, word] + rest);
}

/// To give an address adds it in front, and changes nothing else.
pub proof fn law_address_is_added(with: Run, without: Run, address: Ipv4Addr)
    requires
        with.address == Some(address) && without.address is None,
        with.argv0 == without.argv0 && with.retries == without.retries,
        with.server == without.server && same_words(with, without),
    ensures
        with.link_words() == seq!["--address"@, address@] + without.link_words(),
{
    assert(with.link_words() == seq!["--address"@, address@] + without.link_words());
}

/// To give a 0th argument adds it behind the address, and changes nothing else.
pub proof fn law_argv0_is_added(with: Run, without: Run, argv0: String)
    requires
        with.argv0 == Some(argv0) && without.argv0 is None,
        with.address == without.address && with.retries == without.retries,
        with.server == without.server && same_words(with, without),
    ensures
        ({
            let at = width(with.address);
            with.link_words() == without.link_words().take(at) + seq!["--argv0"@, argv0@]
                + without.link_words().skip(at)
        }),
{
    let at = width(with.address);
    assert(with.link_words() == without.link_words().take(at) + seq!["--argv0"@, argv0@]
        + without.link_words().skip(at));
}

/// To give a number of tries adds it behind the 0th argument, and changes nothing else.
pub proof fn law_retries_are_added(with: Run, without: Run, retries: usize)
    requires
        with.retries == Some(retries) && without.retries is None,
        with.address == without.address && with.argv0 == without.argv0,
        with.server == without.server && same_words(with, without),
    ensures
        ({
            let at = width(with.address) + width(with.argv0);
            with.link_words() == without.link_words().take(at) + seq![
                "--retries"@,
                decimal(retries as nat),
            ] + without.link_words().skip(at)
        }),
{
    let at = width(with.address) + width(with.argv0);
    assert(with.link_words() == without.link_words().take(at) + seq![
        "--retries"@,
        decimal(retries as nat),
    ] + without.link_words().skip(at));
}

/// To ask for the server adds `--server` behind the other options, and changes nothing else.
pub proof fn law_server_is_added(with: Run, without: Run)
    requires
        with.server && !without.server,
        with.address == without.address && with.argv0 == without.argv0,
        with.retries == without.retries && same_words(with, without),
    ensures
        ({
            let at = width(with.address) + width(with.argv0) + width(with.retries);
            with.link_words() == without.link_words().take(at) + seq!["--server"@]
                + without.link_words().skip(at)
        }),
{
    let at = width(with.address) + width(with.argv0) + width(with.retries);
    assert(with.link_words() == without.link_words().take(at) + seq!["--server"@]
        + without.link_words().skip(at));
}

/// Each option reaches `3dslink`, whatever the others are: it stands behind those before it
/// in order, and where all of them end the arguments of the executable begin.
pub proof fn law_each_option_reaches_3dslink(run: Run, cargo: Words, exe: Words)
    requires
        divided(words_of(run.build_args.passthrough.args@), cargo, exe),
    ensures
        ({
            let all = run.link_words();
            let a = width(run.address);
            let b = a + width(run.argv0);
            let c = b + width(run.retries);
            let d = c + (if run.server {
                1int
            } else {
                0
            });
            &&& run.address matches Some(address) ==> all[0] == "--address"@ && all[1] == address@
            &&& run.argv0 matches Some(argv0) ==> all[a] == "--argv0"@ && all[a + 1] == argv0@
            &&& run.retries matches Some(retries) ==> all[b] == "--retries"@ && number(all[b + 1])
                == retries
            &&& run.server ==> all[c] == "--server"@
            &&& exe.len() == 0 ==> all.len() == d
            &&& exe.len() > 0 ==> all.len() >= d + 2 + exe.len() && all[d] == "--args"@ && all[d
                + 1] == "--"@
        }),
{
    law_division_is_read_back(words_of(run.build_args.passthrough.args@), cargo, exe);
    crate::text::lemma_before(exe, is_hyphenated());
    if let Some(retries) = run.retries {
        law_decimal_reads_back(retries as nat);
    }
}

/// An address is written as its four bytes in decimal notation, with a dot between each two.
pub proof fn law_address_is_dotted(address: Ipv4Addr)
    ensures
        ({
            let part = |i: int| decimal(address.octets@[i] as nat);
            address@ == part(0) + seq!['.'] + part(1) + seq!['.'] + part(2) + seq!['.'] + part(3)
        }),
{
    let part = |i: int| decimal(address.octets@[i] as nat);
    assert(address@ == part(0) + seq!['.'] + part(1) + seq!['.'] + part(2) + seq!['.'] + part(3));
}

/// The first part of a dotted text and what follows it.
proof fn lemma_first_part(p: nat, q: nat, r: Text, s: Text)
    requires
        decimal(p).push('.') + r == decimal(q).push('.') + s,
    ensures
        p == q,
        r == s,
{
    let (a, b) = (decimal(p), decimal(q));
    let whole = a.push('.') + r;
    law_decimal_reads_back(p);
    law_decimal_reads_back(q);
    assert(whole[a.len() as int] == '.');
    assert(whole[b.len() as int] == '.') by {
        assert((b.push('.') + s)[b.len() as int] == '.');
    }
    if a.len() < b.len() {
        assert((b.push('.') + s)[a.len() as int] == b[a.len() as int]);
    } else if b.len() < a.len() {
        assert(whole[b.len() as int] == a[b.len() as int]);
    }
    assert(a == whole.take(a.len() as int));
    assert(b == (b.push('.') + s).take(b.len() as int));
    assert(r == whole.skip(a.len() as int + 1));
    assert(s == (b.push('.') + s).skip(b.len() as int + 1));
}

/// Two addresses are never written alike.
pub proof fn law_addresses_are_told_apart(a: Ipv4Addr, b: Ipv4Addr)
    requires
        a@ == b@,
    ensures
        a.octets@ == b.octets@,
{
    let p = |i: int| decimal(a.octets@[i] as nat);
    let q = |i: int| decimal(b.octets@[i] as nat);
    let a2 = p(2).push('.') + p(3);
    let b2 = q(2).push('.') + q(3);
    let a1 = p(1).push('.') + a2;
    let b1 = q(1).push('.') + b2;
    assert(a@ == p(0).push('.') + a1);
    assert(b@ == q(0).push('.') + b1);
    lemma_first_part(a.octets@[0] as nat, b.octets@[0] as nat, a1, b1);
    lemma_first_part(a.octets@[1] as nat, b.octets@[1] as nat, a2, b2);
    lemma_first_part(a.octets@[2] as nat, b.octets@[2] as nat, p(3), q(3));
    law_decimal_reads_back(a.octets@[3] as nat);
    law_decimal_reads_back(b.octets@[3] as nat);
    assert(a.octets@ == b.octets@);
}

} // verus!
