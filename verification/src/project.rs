//! What makes a new cargo project one for the 3DS.
use vstd::prelude::*;
use crate::callback::{steps_of, Step, StepView};
use crate::command::New;
use crate::text::{words_of, Text};

verus! {

/// What is added to the manifest of a new project.
pub const TOML_CHANGES: &'static str = r#"ctru-rs = { git = "https://github.com/rust3ds/ctru-rs" }

[package.metadata.cargo-3ds]
romfs_dir = "romfs"
"#;

/// The main file of a new project.
pub const CUSTOM_MAIN_RS: &'static str = r#"use ctru::prelude::*;

fn main() {
    ctru::use_panic_handler();

    let apt = Apt::new().unwrap();
    let mut hid = Hid::new().unwrap();
    let gfx = Gfx::new().unwrap();
    let _console = Console::new(gfx.top_screen.borrow_mut());

    println!("Hello, World!");
    println!("\x1b[29;16HPress Start to exit");

    while apt.main_loop() {
        gfx.wait_for_vblank();

        hid.scan_input();
        if hid.keys_down().contains(KeyPad::START) {
            break;
        }
    }
}
"#;

impl New {
    /// Whether the new project is a library.
    pub open spec fn is_lib(self) -> bool {
        self.cargo_args@.contains("--lib"@)
    }

    /// The steps after `cargo 3ds new`: a library is left as `cargo` made it.
    pub open spec fn callback_steps(self) -> Seq<StepView> {
        if self.is_lib() {
            seq![]
        } else {
            seq![
                StepView::OpenProject { project: self.path@ },
                StepView::CreateDir { path: "romfs"@ },
                StepView::EditManifest { path: "Cargo.toml"@ },
                StepView::WriteFile { path: "src/main.rs"@, text: CUSTOM_MAIN_RS@ },
            ]
        }
    }

    /// Callback for `cargo 3ds new`.
    ///
    /// This callback handles the custom environment modifications when creating a new 3DS
    /// project.
    pub fn callback(&self) -> (res: Vec<Step>)
        ensures
            steps_of(res@) == self.callback_steps(),
    {
        let ghost words = self.cargo_args@;
        let lib = "--lib".to_owned();
        let mut at: usize = 0;
        // Commit changes to the project only if it is meant to be a binary
        while at < self.cargo_args.args.len()
            invariant
                at <= self.cargo_args.args@.len(),
                words == words_of(self.cargo_args.args@),
                lib@ == "--lib"@,
                forall|j: int| 0 <= j < at ==> words[j] != "--lib"@,
            decreases self.cargo_args.args.len() - at,
        {
            if self.cargo_args.args[at] == lib {
                assert(words[at as int] == "--lib"@);
                let none: Vec<Step> = Vec::new();
                assert(steps_of(none@) == Seq::<StepView>::empty());
                return none;
            }
            at = at + 1;
        }
        let steps = vec![
            Step::OpenProject { project: self.path.clone() },
            Step::CreateDir { path: "romfs" },
            Step::EditManifest { path: "Cargo.toml" },
            Step::WriteFile { path: "src/main.rs", text: CUSTOM_MAIN_RS },
        ];
        assert(steps_of(steps@) == self.callback_steps());
        steps
    }

    /// Adds the custom changes to the TOML.
    pub fn edit_manifest(manifest: String) -> (res: String)
        ensures
            res@ == manifest@ + TOML_CHANGES@,
    {
        manifest.concat(TOML_CHANGES)
    }
}

} // verus!
