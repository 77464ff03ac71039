//! What follows the cargo command: the steps that build the final `.3dsx` file and link
//! it, or that make a new project one for the 3DS.
use vstd::prelude::*;
use crate::command::{Build, CargoCmd, New, Run, Test};
use crate::text::{words_of, Text, Words};

verus! {

/// One step. They are done in order.
#[derive(Debug, PartialEq, Eq)]
pub enum Step {
    /// Read the metadata of the executable from the messages of `cargo`.
    GetMetadata,
    /// Build the smdh file that the metadata describes.
    BuildSmdh,
    /// Build the 3dsx file that the metadata describes.
    Build3dsx {
        /// Print the command that is run.
        verbose: bool,
    },
    /// Find out whether a custom runner is configured, and go on with
    /// [`Event::RunnerChecked`].
    CheckRunner,
    /// Send the 3dsx file to the device with `3dslink`.
    Link {
        /// The arguments for `3dslink`.
        args: Vec<String>,
        /// Print the command that is run.
        verbose: bool,
    },
    /// Go to the directory of the new project. The paths of the steps that follow are
    /// relative to it.
    OpenProject {
        /// The path of the project.
        project: String,
    },
    /// Create a directory.
    CreateDir {
        /// Its path.
        path: &'static str,
    },
    /// Replace the manifest by what [`New::edit_manifest`] makes of it.
    EditManifest {
        /// Its path.
        path: &'static str,
    },
    /// Write a file.
    WriteFile {
        /// Its path.
        path: &'static str,
        /// All that the file holds.
        text: &'static str,
    },
}

/// What a [`Step`] says.
pub enum StepView {
    GetMetadata,
    BuildSmdh,
    Build3dsx { verbose: bool },
    CheckRunner,
    Link { args: Words, verbose: bool },
    OpenProject { project: Text },
    CreateDir { path: Text },
    EditManifest { path: Text },
    WriteFile { path: Text, text: Text },
}

impl View for Step {
    type V = StepView;

    open spec fn view(&self) -> StepView {
        match *self {
            Step::GetMetadata => StepView::GetMetadata,
            Step::BuildSmdh => StepView::BuildSmdh,
            Step::Build3dsx { verbose } => StepView::Build3dsx { verbose },
            Step::CheckRunner => StepView::CheckRunner,
            Step::Link { args, verbose } => StepView::Link { args: words_of(args@), verbose },
            Step::OpenProject { project } => StepView::OpenProject { project: project@ },
            Step::CreateDir { path } => StepView::CreateDir { path: path@ },
            Step::EditManifest { path } => StepView::EditManifest { path: path@ },
            Step::WriteFile { path, text } => StepView::WriteFile { path: path@, text: text@ },
        }
    }
}

/// What a list of steps says.
pub open spec fn steps_of(steps: Seq<Step>) -> Seq<StepView> {
    steps.map_values(|step: Step| step@)
}

/// What has happened, so that there are steps to do.
#[derive(Debug, Clone, Copy, PartialEq, Eq, Structural)]
pub enum Event {
    /// The cargo command has ended.
    CargoFinished,
    /// After [`Step::CheckRunner`]: it is known whether a custom runner is configured.
    RunnerChecked {
        /// Whether it is.
        custom_runner: bool,
    },
}

impl Build {
    /// The steps after `cargo 3ds build`. Without metadata there is nothing to build.
    pub open spec fn callback_steps(self, has_config: bool) -> Seq<StepView> {
        if has_config {
            seq![StepView::BuildSmdh, StepView::Build3dsx { verbose: self.verbose }]
        } else {
            seq![]
        }
    }

    /// Callback for `cargo 3ds build`.
    ///
    /// This callback handles building the application as a `.3dsx` file.
    pub fn callback(&self, has_config: bool) -> (res: Vec<Step>)
        ensures
            steps_of(res@) == self.callback_steps(has_config),
    {
        let mut steps: Vec<Step> = Vec::new();
        if has_config {
            steps.push(Step::BuildSmdh);
            steps.push(Step::Build3dsx { verbose: self.verbose });
        }
        assert(steps_of(steps@) == self.callback_steps(has_config));
        steps
    }
}

impl Run {
    /// The steps after `cargo 3ds run`: those of a build, and then, unless a custom runner
    /// has run the executable, to send it to the device.
    pub open spec fn callback_steps(self, has_config: bool, event: Event) -> Seq<StepView> {
        match event {
            Event::CargoFinished => self.build_args.callback_steps(has_config).push(
                StepView::CheckRunner,
            ),
            Event::RunnerChecked { custom_runner } => if !custom_runner && has_config {
                seq![StepView::Link { args: self.link_words(), verbose: self.build_args.verbose }]
            } else {
                seq![]
            },
        }
    }

    /// Callback for `cargo 3ds run`.
    ///
    /// This callback handles launching the application via `3dslink`.
    pub fn callback(&self, has_config: bool, event: Event) -> (res: Vec<Step>)
        ensures
            steps_of(res@) == self.callback_steps(has_config, event),
    {
        match event {
            Event::CargoFinished => {
                let mut steps = self.build_args.callback(has_config);
                let ghost build = steps_of(steps@);
                steps.push(Step::CheckRunner);
                assert(steps_of(steps@) == build.push(StepView::CheckRunner));
                steps
            },
            Event::RunnerChecked { custom_runner } => {
                let mut steps: Vec<Step> = Vec::new();
                if !custom_runner {
                    if has_config {
                        let args = self.get_3dslink_args();
                        steps.push(Step::Link { args, verbose: self.build_args.verbose });
                    }
                }
                assert(steps_of(steps@) == self.callback_steps(has_config, event));
                steps
            },
        }
    }
}

impl Test {
    /// The steps after `cargo 3ds test`: those of a build if the tests don't have to run,
    /// and otherwise those of a run.
    pub open spec fn callback_steps(self, has_config: bool, event: Event) -> Seq<StepView> {
        if !self.no_run {
            self.run_args.callback_steps(has_config, event)
        } else if event == Event::CargoFinished {
            self.run_args.build_args.callback_steps(has_config)
        } else {
            seq![]
        }
    }

    /// Callback for `cargo 3ds test`.
    ///
    /// This callback handles launching the application via `3dslink`.
    pub fn callback(&self, has_config: bool, event: Event) -> (res: Vec<Step>)
        ensures
            steps_of(res@) == self.callback_steps(has_config, event),
    {
        if self.no_run {
            match event {
                // If the tests don't have to run, use the "build" callback
                Event::CargoFinished => self.run_args.build_args.callback(has_config),
                Event::RunnerChecked { .. } => {
                    let steps: Vec<Step> = Vec::new();
                    assert(steps_of(steps@) == Seq::<StepView>::empty());
                    steps
                },
            }
        } else {
            // If the tests have to run, use the "run" callback
            self.run_args.callback(has_config, event)
        }
    }
}

impl CargoCmd {
    /// The steps after a cargo command. Metadata is read only where it is used.
    pub open spec fn callback_steps(self, event: Event) -> Seq<StepView> {
        let has_config = self.builds_3dsx();
        let start = event == Event::CargoFinished;
        (if start && has_config {
            seq![StepView::GetMetadata]
        } else {
            seq![]
        }) + match self {
            CargoCmd::Build(build) => if start {
                build.callback_steps(has_config)
            } else {
                seq![]
            },
            CargoCmd::Run(run) => run.callback_steps(has_config, event),
            CargoCmd::Test(test) => test.callback_steps(has_config, event),
            CargoCmd::New(new) => if start {
                new.callback_steps()
            } else {
                seq![]
            },
            CargoCmd::Passthrough(_) => seq![],
        }
    }

    /// What the custom callback does *after* the cargo command, depending on the type of
    /// command launched.
    ///
    /// # Examples
    ///
    /// - `cargo 3ds build` and other "build" commands will use their callbacks to build the
    ///   final `.3dsx` file and link it.
    /// - `cargo 3ds new` and other generic commands will use their callbacks to make
    ///   3ds-specific changes to the environment.
    pub fn run_callback(&self, event: Event) -> (res: Vec<Step>)
        ensures
            steps_of(res@) == self.callback_steps(event),
    {
        let has_config = self.should_build_3dsx();
        let start = match event {
            Event::CargoFinished => true,
            Event::RunnerChecked { .. } => false,
        };
        let mut steps: Vec<Step> = Vec::new();
        if start && has_config {
            steps.push(Step::GetMetadata);
        }
        let ghost head = steps@;
        let mut rest: Vec<Step> = match self {
            Self::Build(cmd) if start => cmd.callback(has_config),
            Self::Run(cmd) => cmd.callback(has_config, event),
            Self::Test(cmd) => cmd.callback(has_config, event),
            Self::New(cmd) if start => cmd.callback(),
            _ => Vec::new(),
        };
        let ghost tail = rest@;
        steps.append(&mut rest);
        assert(steps_of(steps@) == steps_of(head) + steps_of(tail));
        assert(steps_of(steps@) == self.callback_steps(event));
        steps
    }
}

} // verus!
