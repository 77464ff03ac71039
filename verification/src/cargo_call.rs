//! How the real `cargo` is called for a command, and what is to follow.
//!
//! Some of it depends on whether a custom runner is configured for the 3DS target. These
//! functions take the answer as an argument; [`CargoCmd::consults_runner`] says where it
//! is needed.
use vstd::prelude::*;
use crate::args::cargo_words;
use crate::command::{CargoCmd, Test};
use crate::text::{words_of, Text, Words};

verus! {

/// A decision that may depend on whether a custom runner is configured.
#[derive(Debug, Clone, Copy, PartialEq, Eq, Structural)]
pub enum Decision {
    /// [`CargoCmd::subcommand_name`].
    SubcommandName,
    /// [`CargoCmd::cargo_args`].
    CargoArgs,
    /// [`CargoCmd::should_link_to_device`].
    LinkToDevice,
    /// [`CargoCmd::run_callback`].
    Callback,
}

impl Test {
    /// Whether the tests are run by `cargo` itself.
    pub open spec fn runs(self, custom_runner: bool) -> bool {
        custom_runner && !self.no_run
    }

    /// What `cargo test` is told beyond the arguments of the command line.
    pub open spec fn added_words(self, custom_runner: bool) -> Words {
        if self.doc {
            seq!["--doc"@, "-Z"@, "doctest-xcompile"@]
        } else if !self.runs(custom_runner) {
            seq!["--no-run"@]
        } else {
            seq![]
        }
    }

    /// The arguments for `cargo test`.
    pub open spec fn cargo_arg_words(self, custom_runner: bool) -> Words {
        cargo_words(self.run_args.build_args.passthrough@) + self.added_words(custom_runner)
    }

    /// The flags for rustdoc.
    pub open spec fn rustdoc_text(self, custom_runner: bool) -> Text {
        if self.runs(custom_runner) {
            ""@
        } else {
            " --no-run"@
        }
    }

    /// Whether `cargo` itself is to run the tests: with a custom runner, unless the
    /// command line says otherwise.
    pub fn should_run(&self, custom_runner: bool) -> (res: bool)
        ensures
            res == self.runs(custom_runner),
    {
        custom_runner && !self.no_run
    }

    /// The args to pass to the underlying `cargo test` command.
    ///
    /// 3DS executables cannot be run on the host, so `--no-run` is added unless a custom
    /// runner is configured. `cargo` rejects `--no-run` for documentation tests: there it
    /// is left to [`Test::rustdocflags`].
    pub fn cargo_args(&self, custom_runner: bool) -> (res: Vec<String>)
        ensures
            words_of(res@) == self.cargo_arg_words(custom_runner),
    {
        let mut cargo_args = self.run_args.build_args.passthrough.cargo_args();
        let ghost given = words_of(cargo_args@);
        if self.doc {
            cargo_args.push("--doc".to_owned());
            cargo_args.push("-Z".to_owned());
            cargo_args.push("doctest-xcompile".to_owned());
        } else if !self.should_run(custom_runner) {
            cargo_args.push("--no-run".to_owned());
        }
        assert(words_of(cargo_args@) == given + self.added_words(custom_runner));
        cargo_args
    }

    /// Flags to pass to rustdoc via RUSTDOCFLAGS: documentation tests are not run unless
    /// a custom runner is configured.
    pub fn rustdocflags(&self, custom_runner: bool) -> (res: &'static str)
        ensures
            res@ == self.rustdoc_text(custom_runner),
    {
        if self.should_run(custom_runner) {
            ""
        } else {
            " --no-run"
        }
    }
}

impl CargoCmd {
    /// The arguments for the cargo subcommand.
    pub open spec fn cargo_arg_words(self, custom_runner: bool) -> Words {
        match self {
            CargoCmd::Build(build) => cargo_words(build.passthrough@),
            CargoCmd::Run(run) => cargo_words(run.build_args.passthrough@),
            CargoCmd::Test(test) => test.cargo_arg_words(custom_runner),
            CargoCmd::New(new) => cargo_words(new.cargo_args@).push(new.path@),
            CargoCmd::Passthrough(words) => words_of(words@).skip(1),
        }
    }

    /// The name of the cargo subcommand.
    pub open spec fn name(self, custom_runner: bool) -> Text {
        match self {
            CargoCmd::Build(_) => "build"@,
            CargoCmd::Run(_) => if custom_runner {
                "run"@
            } else {
                "build"@
            },
            CargoCmd::Test(_) => "test"@,
            CargoCmd::New(_) => "new"@,
            CargoCmd::Passthrough(words) => words@[0]@,
        }
    }

    /// Whether code is compiled.
    pub open spec fn compiles(self) -> bool {
        !(self is New)
    }

    /// Whether documentation tests are requested.
    pub open spec fn is_doc_test(self) -> bool {
        match self {
            CargoCmd::Test(test) => test.doc,
            _ => false,
        }
    }

    /// Whether a 3DSX executable is built.
    pub open spec fn builds_3dsx(self) -> bool {
        match self {
            CargoCmd::Build(_) | CargoCmd::Run(_) => true,
            CargoCmd::Test(test) => !test.doc,
            _ => false,
        }
    }

    /// Whether the executable is sent to the device.
    pub open spec fn links(self, custom_runner: bool) -> bool {
        match self {
            CargoCmd::Run(_) => !custom_runner,
            CargoCmd::Test(test) => !test.no_run && !test.doc && !custom_runner,
            _ => false,
        }
    }

    /// Whether it has to be known for a decision if a custom runner is configured.
    pub open spec fn consults(self, decision: Decision) -> bool {
        match (self, decision) {
            (CargoCmd::Run(_), Decision::SubcommandName) => true,
            (CargoCmd::Run(_), Decision::LinkToDevice) => true,
            (CargoCmd::Run(_), Decision::Callback) => true,
            (CargoCmd::Test(test), Decision::CargoArgs) => !test.doc,
            (CargoCmd::Test(test), Decision::LinkToDevice) => !test.no_run && !test.doc,
            (CargoCmd::Test(test), Decision::Callback) => !test.no_run,
            _ => false,
        }
    }

    /// Whether this command has a name: one that is passed through is named by its first
    /// word.
    pub fn is_named(&self) -> (res: bool)
        ensures
            res == self.well_formed(),
    {
        match self {
            CargoCmd::Passthrough(words) => !words.is_empty(),
            _ => true,
        }
    }

    /// Whether it has to be known for a decision if a custom runner is configured. Where
    /// it has not, the decision is the same either way.
    pub fn consults_runner(&self, decision: Decision) -> (res: bool)
        ensures
            res == self.consults(decision),
    {
        match (self, decision) {
            (CargoCmd::Run(_), Decision::CargoArgs) => false,
            (CargoCmd::Run(_), _) => true,
            (CargoCmd::Test(test), Decision::CargoArgs) => !test.doc,
            (CargoCmd::Test(test), Decision::LinkToDevice) => !test.no_run && !test.doc,
            (CargoCmd::Test(test), Decision::Callback) => !test.no_run,
            _ => false,
        }
    }

    /// Returns the additional arguments run by the "official" cargo subcommand.
    pub fn cargo_args(&self, custom_runner: bool) -> (res: Vec<String>)
        requires
            self.well_formed(),
        ensures
            words_of(res@) == self.cargo_arg_words(custom_runner),
    {
        match self {
            CargoCmd::Build(build) => build.passthrough.cargo_args(),
            CargoCmd::Run(run) => run.build_args.passthrough.cargo_args(),
            CargoCmd::Test(test) => test.cargo_args(custom_runner),
            CargoCmd::New(new) => {
                // The path was captured in [`New`], so it is given back here.
                let mut cargo_args = new.cargo_args.cargo_args();
                let ghost given = words_of(cargo_args@);
                cargo_args.push(new.path.clone());
                assert(words_of(cargo_args@) == given.push(new.path@));
                cargo_args
            },
            CargoCmd::Passthrough(other) => {
                let mut words = other.clone();
                let res = words.split_off(1);
                assert(words_of(res@) == words_of(other@).skip(1));
                res
            },
        }
    }

    /// Returns the cargo subcommand run by `cargo-3ds` when handling a [`CargoCmd`].
    ///
    /// # Notes
    ///
    /// This is not equivalent to the lowercase name of the [`CargoCmd`] variant.
    /// Commands may use different commands under the hood to function (e.g.
    /// [`CargoCmd::Run`] uses `build` if no custom runner is configured).
    pub fn subcommand_name(&self, custom_runner: bool) -> (res: &str)
        requires
            self.well_formed(),
        ensures
            res@ == self.name(custom_runner),
    {
        match self {
            CargoCmd::Build(_) => "build",
            CargoCmd::Run(_) => {
                if custom_runner {
                    "run"
                } else {
                    "build"
                }
            },
            CargoCmd::Test(_) => "test",
            CargoCmd::New(_) => "new",
            CargoCmd::Passthrough(cmd) => cmd[0].as_str(),
        }
    }

    /// Whether or not this command should compile any code, and thus needs import the
    /// custom environment configuration (e.g. target spec).
    pub fn should_compile(&self) -> (res: bool)
        ensures
            res == self.compiles(),
    {
        matches!(self, Self::Build(_) | Self::Run(_) | Self::Test(_) | Self::Passthrough(_))
    }

    /// Whether or not this command should build a 3DSX executable file.
    pub fn should_build_3dsx(&self) -> (res: bool)
        ensures
            res == self.builds_3dsx(),
    {
        match self {
            Self::Build(_) | CargoCmd::Run(_) => true,
            Self::Test(Test { doc, .. }) => !*doc,
            _ => false,
        }
    }

    /// What to tell the user about [`CargoCmd::should_build_3dsx`], if anything.
    pub fn build_3dsx_notice(&self) -> (res: Option<&'static str>)
        ensures
            match res {
                Some(notice) => self.is_doc_test() && notice@
                    == "Documentation tests requested, no 3dsx will be built"@,
                None => !self.is_doc_test(),
            },
    {
        match self {
            Self::Test(Test { doc: true, .. }) => {
                Some("Documentation tests requested, no 3dsx will be built")
            },
            _ => None,
        }
    }

    /// Whether or not the resulting executable should be sent to the 3DS with
    /// `3dslink`. A custom runner takes its place, and documentation tests imply
    /// `--no-run`.
    pub fn should_link_to_device(&self, custom_runner: bool) -> (res: bool)
        ensures
            res == self.links(custom_runner),
    {
        match self {
            Self::Test(Test { no_run: true, .. }) | Self::Test(Test { doc: true, .. }) => false,
            Self::Run(_) | Self::Test(_) => !custom_runner,
            _ => false,
        }
    }
}

} // verus!
