//! The catalog of shell interpreters: which programs are shells, and which
//! of their flags make the shell run the argument that follows.

use vstd::prelude::*;
use crate::name::{
    base_offset, base_start, lemma_base_name_of_joined, lookup_name, names_match, tail_matches,
    Platform,
};
use crate::text::{chars_of, same_text};

verus! {

/// One shell interpreter.
#[derive(Clone, Debug, PartialEq, Eq)]
pub struct ShellSpec {
    /// The name under which the shell is reported.
    pub name: String,
    /// The executable names under which the shell is started.
    pub program_names: Vec<String>,
    /// The flags that make the shell parse and run the next argument. Flags
    /// that only select an option of the shell do not belong here.
    pub command_flags: Vec<String>,
}

/// The mathematical value of a [`ShellSpec`].
pub struct ShellModel {
    pub name: Seq<char>,
    pub program_names: Set<Seq<char>>,
    pub command_flags: Set<Seq<char>>,
}

impl View for ShellSpec {
    type V = ShellModel;

    open spec fn view(&self) -> ShellModel {
        ShellModel {
            name: self.name@,
            program_names: self.program_names.deep_view().to_set(),
            command_flags: self.command_flags.deep_view().to_set(),
        }
    }
}

impl DeepView for ShellSpec {
    type V = ShellModel;

    open spec fn deep_view(&self) -> ShellModel {
        self@
    }
}

impl ShellModel {
    /// Whether the program path `program` starts this shell.
    pub open spec fn recognizes(self, program: Seq<char>, platform: Platform) -> bool {
        exists|stored: Seq<char>| #[trigger]
            self.program_names.contains(stored) && names_match(stored, program, platform)
    }
}

impl ShellSpec {
    /// A shell reported as `name`, started under `program_names`, with the
    /// given command flags.
    pub fn new(name: &str, program_names: Vec<String>, command_flags: Vec<String>) -> (shell:
        ShellSpec)
        ensures
            shell.name@ == name@,
            shell.program_names == program_names,
            shell.command_flags == command_flags,
    {
        ShellSpec { name: String::from_str(name), program_names, command_flags }
    }

    /// Whether `token` is one of the flags that make this shell run the next
    /// argument. The comparison is exact.
    pub fn has_command_flag(&self, token: &str) -> (r: bool)
        ensures
            r == self@.command_flags.contains(token@),
    {
        let n = self.command_flags.len();
        for i in 0..n
            invariant
                n == self.command_flags.len(),
                forall|j: int| 0 <= j < i ==> self.command_flags.deep_view()[j] != token@,
        {
            if same_text(self.command_flags[i].as_str(), token) {
                assert(self.command_flags.deep_view()[i as int] == token@);
                return true;
            }
        }
        false
    }

    /// Whether the program path `program` starts this shell.
    pub fn recognizes_program(&self, program: &str, platform: Platform) -> (r: bool)
        ensures
            r == self@.recognizes(program@, platform),
    {
        let chars = chars_of(program);
        let start = base_offset(&chars, platform);
        self.recognizes_tail(&chars, start, platform)
    }

    /// `recognizes_program` on a path whose last component has been found.
    fn recognizes_tail(&self, program: &Vec<char>, start: usize, platform: Platform) -> (r: bool)
        requires
            start == base_start(program@, platform),
            start <= program.len(),
        ensures
            r == self@.recognizes(program@, platform),
    {
        let n = self.program_names.len();
        for i in 0..n
            invariant
                n == self.program_names.len(),
                start == base_start(program@, platform),
                start <= program.len(),
                forall|j: int|
                    0 <= j < i ==> !names_match(
                        #[trigger] self.program_names.deep_view()[j],
                        program@,
                        platform,
                    ),
        {
            if tail_matches(self.program_names[i].as_str(), program, start, platform) {
                assert(self@.program_names.contains(self.program_names.deep_view()[i as int]));
                return true;
            }
        }
        false
    }
}

/// The mathematical value of a [`Catalog`].
pub struct CatalogModel {
    /// The shells, in the order in which they are tried.
    pub shells: Seq<ShellModel>,
    pub platform: Platform,
}

impl CatalogModel {
    /// Whether the shell at position `i` is started by `program`.
    pub open spec fn recognizes_at(self, i: int, program: Seq<char>) -> bool {
        0 <= i < self.shells.len() && self.shells[i].recognizes(program, self.platform)
    }

    /// Whether `program` starts one of the shells.
    pub open spec fn knows(self, program: Seq<char>) -> bool {
        exists|i: int| self.recognizes_at(i, program)
    }

    /// Whether `i` is the first position of a shell that `program` starts.
    pub open spec fn is_shell_index(self, program: Seq<char>, i: int) -> bool {
        &&& self.recognizes_at(i, program)
        &&& forall|j: int| 0 <= j < i ==> !self.recognizes_at(j, program)
    }

    /// The first position of a shell that `program` starts, where it starts
    /// one.
    pub open spec fn shell_index(self, program: Seq<char>) -> int {
        choose|i: int| self.is_shell_index(program, i)
    }

    /// The shell that `program` starts: the first one in the catalog's order
    /// with a matching name.
    pub open spec fn lookup(self, program: Seq<char>) -> Option<ShellModel> {
        if self.knows(program) {
            Some(self.shells[self.shell_index(program)])
        } else {
            None
        }
    }
}

/// Among the positions up to `bound` that `program` starts a shell at, there
/// is a first one.
proof fn lemma_first_below(catalog: CatalogModel, program: Seq<char>, bound: int)
    requires
        catalog.recognizes_at(bound, program),
    ensures
        exists|i: int| 0 <= i <= bound && catalog.is_shell_index(program, i),
    decreases bound,
{
    if exists|j: int| 0 <= j < bound && catalog.recognizes_at(j, program) {
        let j = choose|j: int| 0 <= j < bound && catalog.recognizes_at(j, program);
        lemma_first_below(catalog, program, j);
    } else {
        assert(catalog.is_shell_index(program, bound));
    }
}

/// Where a catalog knows a program, `shell_index` is the one position that
/// `is_shell_index` describes.
pub proof fn lemma_shell_index(catalog: CatalogModel, program: Seq<char>)
    requires
        catalog.knows(program),
    ensures
        catalog.is_shell_index(program, catalog.shell_index(program)),
        forall|i: int|
            catalog.is_shell_index(program, i) ==> i == catalog.shell_index(program),
{
    lemma_first_below(catalog, program, choose|i: int| catalog.recognizes_at(i, program));
}

/// Lookup goes by the name under which a program is looked up, and by
/// nothing else: two paths with the same such name start the same shell.
pub proof fn lemma_lookup_by_name(catalog: CatalogModel, first: Seq<char>, second: Seq<char>)
    requires
        lookup_name(first, catalog.platform) == lookup_name(second, catalog.platform),
    ensures
        catalog.knows(first) == catalog.knows(second),
        catalog.knows(first) ==> catalog.shell_index(first) == catalog.shell_index(second),
        catalog.lookup(first) == catalog.lookup(second),
{
    assert(forall|i: int| catalog.recognizes_at(i, first) == catalog.recognizes_at(i, second));
    if catalog.knows(first) {
        lemma_shell_index(catalog, first);
        lemma_shell_index(catalog, second);
    }
}

/// Directories do not count in lookup: a program given with the directories
/// that lead to it starts the shell that its bare name starts.
pub proof fn lemma_lookup_ignores_directories(
    catalog: CatalogModel,
    directory: Seq<char>,
    separator: char,
    name: Seq<char>,
)
    requires
        catalog.platform.separates(separator),
        forall|i: int| 0 <= i < name.len() ==> !catalog.platform.separates(#[trigger] name[i]),
    ensures
        catalog.lookup(directory.push(separator) + name) == catalog.lookup(name),
{
    lemma_base_name_of_joined(directory, separator, name, catalog.platform);
    lemma_lookup_by_name(catalog, directory.push(separator) + name, name);
}

/// The shells of the standard catalog.
pub open spec fn standard_shells() -> Seq<ShellModel> {
    seq![
        ShellModel {
            name: "sh"@,
            program_names: set!["sh"@, "bash"@, "dash"@, "zsh"@],
            command_flags: set!["-c"@],
        },
        ShellModel { name: "cmd"@, program_names: set!["cmd"@], command_flags: set!["/c"@] },
        ShellModel {
            name: "powershell"@,
            program_names: set!["powershell"@],
            command_flags: set!["-Command"@],
        },
    ]
}

/// The table of known shells. It is built once and read from then on.
#[derive(Clone, Debug, PartialEq, Eq)]
pub struct Catalog {
    shells: Vec<ShellSpec>,
    platform: Platform,
}

impl View for Catalog {
    type V = CatalogModel;

    closed spec fn view(&self) -> CatalogModel {
        CatalogModel { shells: self.shells.deep_view(), platform: self.platform }
    }
}

impl Catalog {
    /// A catalog of the given shells, tried in their order.
    pub fn new(platform: Platform, shells: Vec<ShellSpec>) -> (catalog: Catalog)
        ensures
            catalog@ == (CatalogModel { shells: shells.deep_view(), platform }),
    {
        Catalog { shells, platform }
    }

    /// The catalog of the shells `sh`, `bash`, `dash` and `zsh` with `-c`,
    /// `cmd` with `/c`, and `powershell` with `-Command`.
    pub fn standard(platform: Platform) -> (catalog: Catalog)
        ensures
            catalog@ == (CatalogModel { shells: standard_shells(), platform }),
    {
        let mut posix_names: Vec<String> = Vec::new();
        posix_names.push(String::from_str("sh"));
        posix_names.push(String::from_str("bash"));
        posix_names.push(String::from_str("dash"));
        posix_names.push(String::from_str("zsh"));
        let mut posix_flags: Vec<String> = Vec::new();
        posix_flags.push(String::from_str("-c"));
        let posix = ShellSpec::new("sh", posix_names, posix_flags);

        let mut cmd_names: Vec<String> = Vec::new();
        cmd_names.push(String::from_str("cmd"));
        let mut cmd_flags: Vec<String> = Vec::new();
        cmd_flags.push(String::from_str("/c"));
        let cmd = ShellSpec::new("cmd", cmd_names, cmd_flags);

        let mut powershell_names: Vec<String> = Vec::new();
        powershell_names.push(String::from_str("powershell"));
        let mut powershell_flags: Vec<String> = Vec::new();
        powershell_flags.push(String::from_str("-Command"));
        let powershell = ShellSpec::new("powershell", powershell_names, powershell_flags);

        proof {
            let names = posix.program_names.deep_view();
            assert(names =~= seq!["sh"@, "bash"@, "dash"@, "zsh"@]);
            assert(names.to_set() =~= set!["sh"@, "bash"@, "dash"@, "zsh"@]);
            let flags = posix.command_flags.deep_view();
            assert(flags[0] == "-c"@);
            assert(flags.to_set() =~= set!["-c"@]);
            assert(cmd.program_names.deep_view()[0] == "cmd"@);
            assert(cmd.program_names.deep_view().to_set() =~= set!["cmd"@]);
            assert(cmd.command_flags.deep_view()[0] == "/c"@);
            assert(cmd.command_flags.deep_view().to_set() =~= set!["/c"@]);
            assert(powershell.program_names.deep_view()[0] == "powershell"@);
            assert(powershell.program_names.deep_view().to_set() =~= set!["powershell"@]);
            assert(powershell.command_flags.deep_view()[0] == "-Command"@);
            assert(powershell.command_flags.deep_view().to_set() =~= set!["-Command"@]);
        }

        let mut shells: Vec<ShellSpec> = Vec::new();
        shells.push(posix);
        shells.push(cmd);
        shells.push(powershell);
        assert(shells.deep_view() =~= standard_shells());
        Catalog { shells, platform }
    }

    /// The platform whose naming convention lookup follows.
    pub fn platform(&self) -> (platform: Platform)
        ensures
            platform == self@.platform,
    {
        self.platform
    }

    /// The shells, in the order in which they are tried.
    pub fn shells(&self) -> (shells: &Vec<ShellSpec>)
        ensures
            shells.deep_view() == self@.shells,
    {
        &self.shells
    }

    /// The position of the shell that `program` starts, or `None` where it
    /// starts none.
    pub fn lookup_index(&self, program: &str) -> (found: Option<usize>)
        ensures
            match found {
                Some(i) => self@.knows(program@) && i == self@.shell_index(program@),
                None => !self@.knows(program@),
            },
    {
        let chars = chars_of(program);
        let start = base_offset(&chars, self.platform);
        let n = self.shells.len();
        for i in 0..n
            invariant
                n == self.shells.len(),
                chars@ == program@,
                start == base_start(chars@, self.platform),
                start <= chars.len(),
                forall|j: int| 0 <= j < i ==> !self@.recognizes_at(j, program@),
        {
            if self.shells[i].recognizes_tail(&chars, start, self.platform) {
                assert(self@.is_shell_index(program@, i as int));
                return Some(i);
            }
        }
        None
    }

    /// The shell that `program` starts, or `None` where it starts none.
    pub fn lookup(&self, program: &str) -> (found: Option<&ShellSpec>)
        ensures
            found.deep_view() == self@.lookup(program@),
    {
        match self.lookup_index(program) {
            Some(i) => {
                proof {
                    lemma_shell_index(self@, program@);
                }
                Some(&self.shells[i])
            },
            None => None,
        }
    }
}

} // verus!
