//! The command line of `cargo 3ds`, as values.
use vstd::prelude::*;
use crate::args::RemainingArgs;
use crate::link::Ipv4Addr;
use crate::text::{words_of, Words};

verus! {

/// The whole command line: `cargo 3ds ...`.
#[derive(Debug, PartialEq, Eq)]
pub enum Cargo {
    /// What follows `cargo 3ds`.
    Input(Input),
}

/// A subcommand, and the options that hold for every subcommand.
#[derive(Debug, PartialEq, Eq)]
pub struct Input {
    /// The subcommand to run.
    pub cmd: CargoCmd,
    /// Print the exact commands `cargo-3ds` is running. Note that this does not
    /// set the verbose flag for cargo itself. To set cargo's verbosity flag, add
    /// `-- -v` to the end of the command line.
    pub verbose: bool,
    /// Set cargo configuration on the command line. This is equivalent to
    /// cargo's `--config` option.
    pub config: Vec<String>,
}

/// Run a cargo command. COMMAND will be forwarded to the real
/// `cargo` with the appropriate arguments for the 3DS target.
///
/// If an unrecognized COMMAND is used, it will be passed through unmodified
/// to `cargo` with the appropriate flags set for the 3DS target.
#[derive(Debug, PartialEq, Eq)]
pub enum CargoCmd {
    /// Builds an executable suitable to run on a 3DS (3dsx).
    Build(Build),
    /// Builds an executable and sends it to a device with `3dslink`.
    Run(Run),
    /// Builds a test executable and sends it to a device with `3dslink`.
    ///
    /// This can be used with `--test` for integration tests, or `--lib` for
    /// unit tests (which require a custom test runner).
    Test(Test),
    /// Sets up a new cargo project suitable to run on a 3DS.
    New(New),
    /// Run any other `cargo` command with custom building tailored for the 3DS.
    /// The first word is the name of the command.
    Passthrough(Vec<String>),
}

/// The options of `cargo 3ds build`.
#[derive(Debug, PartialEq, Eq)]
pub struct Build {
    /// Print the commands that are run.
    pub verbose: bool,
    /// Passthrough cargo options.
    pub passthrough: RemainingArgs,
}

/// The options of `cargo 3ds run`.
#[derive(Debug, PartialEq, Eq)]
pub struct Run {
    /// Specify the IP address of the device to send the executable to.
    ///
    /// Corresponds to 3dslink's `--address` arg, which defaults to automatically
    /// finding the device.
    pub address: Option<Ipv4Addr>,
    /// Set the 0th argument of the executable when running it. Corresponds to
    /// 3dslink's `--argv0` argument.
    pub argv0: Option<String>,
    /// Start the 3dslink server after sending the executable. Corresponds to
    /// 3dslink's `--server` argument.
    pub server: bool,
    /// Set the number of tries when connecting to the device to send the executable.
    /// Corresponds to 3dslink's `--retries` argument.
    pub retries: Option<usize>,
    /// Passthrough `cargo build` options.
    pub build_args: Build,
    /// Cargo configuration from the command line.
    pub config: Vec<String>,
}

/// The options of `cargo 3ds test`.
#[derive(Debug, PartialEq, Eq)]
pub struct Test {
    /// If set, the built executable will not be sent to the device to run it.
    pub no_run: bool,
    /// If set, documentation tests will be built instead of unit tests.
    /// This implies `--no-run`, unless Cargo's `target.armv6k-nintendo-3ds.runner`
    /// is configured.
    pub doc: bool,
    /// The test command uses a superset of the same arguments as [`Run`].
    pub run_args: Run,
}

/// The options of `cargo 3ds new`.
#[derive(Debug, PartialEq, Eq)]
pub struct New {
    /// Path of the new project.
    pub path: String,
    /// Passthrough `cargo new` options.
    pub cargo_args: RemainingArgs,
}

impl CargoCmd {
    /// A command that is passed through has a name.
    pub open spec fn well_formed(self) -> bool {
        match self {
            CargoCmd::Passthrough(words) => words@.len() > 0,
            _ => true,
        }
    }

    /// The words of the command line that belong to `cargo` or to the executable.
    pub open spec fn words(self) -> Words {
        match self {
            CargoCmd::Build(build) => build.passthrough@,
            CargoCmd::Run(run) => run.build_args.passthrough@,
            CargoCmd::Test(test) => test.run_args.build_args.passthrough@,
            CargoCmd::New(new) => new.cargo_args@,
            CargoCmd::Passthrough(words) => words_of(words@),
        }
    }

    /// Whether this is the command `other`, apart from `words`.
    pub open spec fn same_options(self, other: CargoCmd) -> bool {
        match (self, other) {
            (CargoCmd::Build(a), CargoCmd::Build(b)) => a.same_options(b),
            (CargoCmd::Run(a), CargoCmd::Run(b)) => a.same_options(b),
            (CargoCmd::Test(a), CargoCmd::Test(b)) => {
                a.no_run == b.no_run && a.doc == b.doc && a.run_args.same_options(b.run_args)
            },
            (CargoCmd::New(a), CargoCmd::New(b)) => a.path == b.path,
            (CargoCmd::Passthrough(_), CargoCmd::Passthrough(_)) => true,
            _ => false,
        }
    }
}

impl Build {
    /// Whether these are the options `other`, apart from the passthrough words.
    pub open spec fn same_options(self, other: Build) -> bool {
        self.verbose == other.verbose
    }
}

impl Run {
    /// Whether these are the options `other`, apart from the passthrough words.
    pub open spec fn same_options(self, other: Run) -> bool {
        &&& self.address == other.address
        &&& self.argv0 == other.argv0
        &&& self.server == other.server
        &&& self.retries == other.retries
        &&& self.build_args.same_options(other.build_args)
        &&& self.config == other.config
    }
}

} // verus!
