//! The per-title descriptor: what to run, how to obtain it, and its one-time setup.
use vstd::prelude::*;
use crate::pattern::Pattern;

verus! {

/// The character sequences held by a list of strings.
pub open spec fn strings_view(v: Seq<String>) -> Seq<Seq<char>> {
    v.map_values(|s: String| s@)
}

/// A program and the arguments placed before the forwarded ones.
pub struct CommandSpec {
    pub program: String,
    pub args: Vec<String>,
}

impl CommandSpec {
    /// The same as `self` as far as program and arguments go.
    pub open spec fn same_as(&self, o: &CommandSpec) -> bool {
        self.program@ == o.program@ && strings_view(self.args@) == strings_view(o.args@)
    }

    /// A copy of this command.
    pub fn duplicate(&self) -> (r: CommandSpec)
        ensures
            r.same_as(self),
    {
        CommandSpec { program: self.program.clone(), args: copy_strings(&self.args) }
    }
}

/// A copy of a list of strings.
pub fn copy_strings(v: &Vec<String>) -> (r: Vec<String>)
    ensures
        strings_view(r@) == strings_view(v@),
{
    let mut r: Vec<String> = Vec::new();
    let mut i: usize = 0;
    while i < v.len()
        invariant
            i <= v.len(),
            r@.len() == i,
            forall|k: int| 0 <= k < i ==> (#[trigger] r@[k])@ == v@[k]@,
        decreases v.len() - i,
    {
        r.push(v[i].clone());
        i = i + 1;
    }
    proof {
        assert(strings_view(r@) =~= strings_view(v@));
    }
    r
}

/// One entry of the `commands` table: a pattern over the joined invocation
/// and the command used when it matches.
pub struct CommandRule {
    pub pattern: Pattern,
    pub command: CommandSpec,
}

/// A text-input prompt shown during setup; the answer is stored under `key`.
pub struct InputPrompt {
    pub title: String,
    pub label: String,
    pub key: String,
}

/// The one-time setup section of a descriptor.
pub struct SetupInfo {
    pub license_path: Option<String>,
    pub uninstall_command: Option<String>,
    pub prompts: Vec<InputPrompt>,
    pub command: String,
    pub complete_path: String,
}

/// A title's descriptor, after a strict parse.
pub struct Descriptor {
    /// Fixed override command; when present it wins over `commands`.
    pub command: Option<CommandSpec>,
    /// Ordered pattern table; the first rule whose pattern matches wins.
    pub commands: Option<Vec<CommandRule>>,
    /// The title offers several engines and needs a choice before use.
    pub has_choices: bool,
    /// The title declares packages to download and install.
    pub has_download: bool,
    pub setup: Option<SetupInfo>,
    pub use_original_command_directory: bool,
}

} // verus!
