use vstd::prelude::*;
use vstd::string::*;
use crate::error::{StepError, StepErrorModel};
use crate::text::{append_joined, joined, joined_lists_in_order, lists_in_order, same_text, texts};

verus! {

/// The kinds of build step, in the order in which they are declared and
/// in which messages list them.
#[derive(Clone, Copy, Debug, PartialEq, Eq, Structural)]
pub enum CommandName {
    Alpine,
    AlpineRepo,
    Ubuntu,
    UbuntuRepo,
    UbuntuRelease,
    UbuntuPPA,
    UbuntuUniverse,
    AptTrust,
    Repo,
    Install,
    BuildDeps,
    Git,
    GitInstall,
    GitDescribe,
    PipConfig,
    Py2Install,
    Py2Requirements,
    Py3Install,
    Py3Requirements,
    Tar,
    TarInstall,
    Unzip,
    Sh,
    Cmd,
    RunAs,
    Env,
    Text,
    Copy,
    Download,
    EnsureDir,
    CacheDirs,
    EmptyDir,
    Remove,
    Depends,
    Container,
    Build,
    SubConfig,
    NpmConfig,
    NpmDependencies,
    YarnDependencies,
    NpmInstall,
    GemInstall,
    GemBundle,
    GemConfig,
    ComposerInstall,
    ComposerDependencies,
    ComposerConfig,
}

/// How many kinds of build step there are.
pub const CATALOG_SIZE: usize = 47;

/// The kind that stands at place `i` of the catalog.
pub open spec fn catalog_entry(i: int) -> CommandName {
    if i == 0 {
        CommandName::Alpine
    } else if i == 1 {
        CommandName::AlpineRepo
    } else if i == 2 {
        CommandName::Ubuntu
    } else if i == 3 {
        CommandName::UbuntuRepo
    } else if i == 4 {
        CommandName::UbuntuRelease
    } else if i == 5 {
        CommandName::UbuntuPPA
    } else if i == 6 {
        CommandName::UbuntuUniverse
    } else if i == 7 {
        CommandName::AptTrust
    } else if i == 8 {
        CommandName::Repo
    } else if i == 9 {
        CommandName::Install
    } else if i == 10 {
        CommandName::BuildDeps
    } else if i == 11 {
        CommandName::Git
    } else if i == 12 {
        CommandName::GitInstall
    } else if i == 13 {
        CommandName::GitDescribe
    } else if i == 14 {
        CommandName::PipConfig
    } else if i == 15 {
        CommandName::Py2Install
    } else if i == 16 {
        CommandName::Py2Requirements
    } else if i == 17 {
        CommandName::Py3Install
    } else if i == 18 {
        CommandName::Py3Requirements
    } else if i == 19 {
        CommandName::Tar
    } else if i == 20 {
        CommandName::TarInstall
    } else if i == 21 {
        CommandName::Unzip
    } else if i == 22 {
        CommandName::Sh
    } else if i == 23 {
        CommandName::Cmd
    } else if i == 24 {
        CommandName::RunAs
    } else if i == 25 {
        CommandName::Env
    } else if i == 26 {
        CommandName::Text
    } else if i == 27 {
        CommandName::Copy
    } else if i == 28 {
        CommandName::Download
    } else if i == 29 {
        CommandName::EnsureDir
    } else if i == 30 {
        CommandName::CacheDirs
    } else if i == 31 {
        CommandName::EmptyDir
    } else if i == 32 {
        CommandName::Remove
    } else if i == 33 {
        CommandName::Depends
    } else if i == 34 {
        CommandName::Container
    } else if i == 35 {
        CommandName::Build
    } else if i == 36 {
        CommandName::SubConfig
    } else if i == 37 {
        CommandName::NpmConfig
    } else if i == 38 {
        CommandName::NpmDependencies
    } else if i == 39 {
        CommandName::YarnDependencies
    } else if i == 40 {
        CommandName::NpmInstall
    } else if i == 41 {
        CommandName::GemInstall
    } else if i == 42 {
        CommandName::GemBundle
    } else if i == 43 {
        CommandName::GemConfig
    } else if i == 44 {
        CommandName::ComposerInstall
    } else if i == 45 {
        CommandName::ComposerDependencies
    } else {
        CommandName::ComposerConfig
    }
}

/// The catalog: every kind once, in declaration order.
pub open spec fn catalog() -> Seq<CommandName> {
    Seq::new(CATALOG_SIZE as nat, |i: int| catalog_entry(i))
}

/// The names of the catalog's kinds, in catalog order.
pub open spec fn catalog_names() -> Seq<Seq<char>> {
    Seq::new(CATALOG_SIZE as nat, |i: int| catalog_entry(i).spec_name())
}

impl CommandName {
    /// The kind's name as a specification document writes it.
    pub open spec fn spec_name(self) -> Seq<char> {
        match self {
            CommandName::Alpine => "Alpine"@,
            CommandName::AlpineRepo => "AlpineRepo"@,
            CommandName::Ubuntu => "Ubuntu"@,
            CommandName::UbuntuRepo => "UbuntuRepo"@,
            CommandName::UbuntuRelease => "UbuntuRelease"@,
            CommandName::UbuntuPPA => "UbuntuPPA"@,
            CommandName::UbuntuUniverse => "UbuntuUniverse"@,
            CommandName::AptTrust => "AptTrust"@,
            CommandName::Repo => "Repo"@,
            CommandName::Install => "Install"@,
            CommandName::BuildDeps => "BuildDeps"@,
            CommandName::Git => "Git"@,
            CommandName::GitInstall => "GitInstall"@,
            CommandName::GitDescribe => "GitDescribe"@,
            CommandName::PipConfig => "PipConfig"@,
            CommandName::Py2Install => "Py2Install"@,
            CommandName::Py2Requirements => "Py2Requirements"@,
            CommandName::Py3Install => "Py3Install"@,
            CommandName::Py3Requirements => "Py3Requirements"@,
            CommandName::Tar => "Tar"@,
            CommandName::TarInstall => "TarInstall"@,
            CommandName::Unzip => "Unzip"@,
            CommandName::Sh => "Sh"@,
            CommandName::Cmd => "Cmd"@,
            CommandName::RunAs => "RunAs"@,
            CommandName::Env => "Env"@,
            CommandName::Text => "Text"@,
            CommandName::Copy => "Copy"@,
            CommandName::Download => "Download"@,
            CommandName::EnsureDir => "EnsureDir"@,
            CommandName::CacheDirs => "CacheDirs"@,
            CommandName::EmptyDir => "EmptyDir"@,
            CommandName::Remove => "Remove"@,
            CommandName::Depends => "Depends"@,
            CommandName::Container => "Container"@,
            CommandName::Build => "Build"@,
            CommandName::SubConfig => "SubConfig"@,
            CommandName::NpmConfig => "NpmConfig"@,
            CommandName::NpmDependencies => "NpmDependencies"@,
            CommandName::YarnDependencies => "YarnDependencies"@,
            CommandName::NpmInstall => "NpmInstall"@,
            CommandName::GemInstall => "GemInstall"@,
            CommandName::GemBundle => "GemBundle"@,
            CommandName::GemConfig => "GemConfig"@,
            CommandName::ComposerInstall => "ComposerInstall"@,
            CommandName::ComposerDependencies => "ComposerDependencies"@,
            CommandName::ComposerConfig => "ComposerConfig"@,
        }
    }

    /// The kind's place in the catalog.
    pub open spec fn spec_index(self) -> int {
        match self {
            CommandName::Alpine => 0,
            CommandName::AlpineRepo => 1,
            CommandName::Ubuntu => 2,
            CommandName::UbuntuRepo => 3,
            CommandName::UbuntuRelease => 4,
            CommandName::UbuntuPPA => 5,
            CommandName::UbuntuUniverse => 6,
            CommandName::AptTrust => 7,
            CommandName::Repo => 8,
            CommandName::Install => 9,
            CommandName::BuildDeps => 10,
            CommandName::Git => 11,
            CommandName::GitInstall => 12,
            CommandName::GitDescribe => 13,
            CommandName::PipConfig => 14,
            CommandName::Py2Install => 15,
            CommandName::Py2Requirements => 16,
            CommandName::Py3Install => 17,
            CommandName::Py3Requirements => 18,
            CommandName::Tar => 19,
            CommandName::TarInstall => 20,
            CommandName::Unzip => 21,
            CommandName::Sh => 22,
            CommandName::Cmd => 23,
            CommandName::RunAs => 24,
            CommandName::Env => 25,
            CommandName::Text => 26,
            CommandName::Copy => 27,
            CommandName::Download => 28,
            CommandName::EnsureDir => 29,
            CommandName::CacheDirs => 30,
            CommandName::EmptyDir => 31,
            CommandName::Remove => 32,
            CommandName::Depends => 33,
            CommandName::Container => 34,
            CommandName::Build => 35,
            CommandName::SubConfig => 36,
            CommandName::NpmConfig => 37,
            CommandName::NpmDependencies => 38,
            CommandName::YarnDependencies => 39,
            CommandName::NpmInstall => 40,
            CommandName::GemInstall => 41,
            CommandName::GemBundle => 42,
            CommandName::GemConfig => 43,
            CommandName::ComposerInstall => 44,
            CommandName::ComposerDependencies => 45,
            CommandName::ComposerConfig => 46,
        }
    }

    /// The kind's name as a specification document writes it.
    pub fn name(self) -> (text: &'static str)
        ensures
            text@ == self.spec_name(),
    {
        match self {
            CommandName::Alpine => "Alpine",
            CommandName::AlpineRepo => "AlpineRepo",
            CommandName::Ubuntu => "Ubuntu",
            CommandName::UbuntuRepo => "UbuntuRepo",
            CommandName::UbuntuRelease => "UbuntuRelease",
            CommandName::UbuntuPPA => "UbuntuPPA",
            CommandName::UbuntuUniverse => "UbuntuUniverse",
            CommandName::AptTrust => "AptTrust",
            CommandName::Repo => "Repo",
            CommandName::Install => "Install",
            CommandName::BuildDeps => "BuildDeps",
            CommandName::Git => "Git",
            CommandName::GitInstall => "GitInstall",
            CommandName::GitDescribe => "GitDescribe",
            CommandName::PipConfig => "PipConfig",
            CommandName::Py2Install => "Py2Install",
            CommandName::Py2Requirements => "Py2Requirements",
            CommandName::Py3Install => "Py3Install",
            CommandName::Py3Requirements => "Py3Requirements",
            CommandName::Tar => "Tar",
            CommandName::TarInstall => "TarInstall",
            CommandName::Unzip => "Unzip",
            CommandName::Sh => "Sh",
            CommandName::Cmd => "Cmd",
            CommandName::RunAs => "RunAs",
            CommandName::Env => "Env",
            CommandName::Text => "Text",
            CommandName::Copy => "Copy",
            CommandName::Download => "Download",
            CommandName::EnsureDir => "EnsureDir",
            CommandName::CacheDirs => "CacheDirs",
            CommandName::EmptyDir => "EmptyDir",
            CommandName::Remove => "Remove",
            CommandName::Depends => "Depends",
            CommandName::Container => "Container",
            CommandName::Build => "Build",
            CommandName::SubConfig => "SubConfig",
            CommandName::NpmConfig => "NpmConfig",
            CommandName::NpmDependencies => "NpmDependencies",
            CommandName::YarnDependencies => "YarnDependencies",
            CommandName::NpmInstall => "NpmInstall",
            CommandName::GemInstall => "GemInstall",
            CommandName::GemBundle => "GemBundle",
            CommandName::GemConfig => "GemConfig",
            CommandName::ComposerInstall => "ComposerInstall",
            CommandName::ComposerDependencies => "ComposerDependencies",
            CommandName::ComposerConfig => "ComposerConfig",
        }
    }

    /// The kind that stands at place `i` of the catalog.
    pub fn at(i: usize) -> (tag: CommandName)
        requires
            i < CATALOG_SIZE,
        ensures
            tag == catalog_entry(i as int),
            tag.spec_index() == i,
    {
        match i {
            0 => CommandName::Alpine,
            1 => CommandName::AlpineRepo,
            2 => CommandName::Ubuntu,
            3 => CommandName::UbuntuRepo,
            4 => CommandName::UbuntuRelease,
            5 => CommandName::UbuntuPPA,
            6 => CommandName::UbuntuUniverse,
            7 => CommandName::AptTrust,
            8 => CommandName::Repo,
            9 => CommandName::Install,
            10 => CommandName::BuildDeps,
            11 => CommandName::Git,
            12 => CommandName::GitInstall,
            13 => CommandName::GitDescribe,
            14 => CommandName::PipConfig,
            15 => CommandName::Py2Install,
            16 => CommandName::Py2Requirements,
            17 => CommandName::Py3Install,
            18 => CommandName::Py3Requirements,
            19 => CommandName::Tar,
            20 => CommandName::TarInstall,
            21 => CommandName::Unzip,
            22 => CommandName::Sh,
            23 => CommandName::Cmd,
            24 => CommandName::RunAs,
            25 => CommandName::Env,
            26 => CommandName::Text,
            27 => CommandName::Copy,
            28 => CommandName::Download,
            29 => CommandName::EnsureDir,
            30 => CommandName::CacheDirs,
            31 => CommandName::EmptyDir,
            32 => CommandName::Remove,
            33 => CommandName::Depends,
            34 => CommandName::Container,
            35 => CommandName::Build,
            36 => CommandName::SubConfig,
            37 => CommandName::NpmConfig,
            38 => CommandName::NpmDependencies,
            39 => CommandName::YarnDependencies,
            40 => CommandName::NpmInstall,
            41 => CommandName::GemInstall,
            42 => CommandName::GemBundle,
            43 => CommandName::GemConfig,
            44 => CommandName::ComposerInstall,
            45 => CommandName::ComposerDependencies,
            _ => CommandName::ComposerConfig,
        }
    }
}

/// Whether `text` is the name of a kind of the catalog.
pub open spec fn is_catalog_name(text: Seq<char>) -> bool {
    exists|tag: CommandName| tag.spec_name() == text
}

/// The kind that `text` names, if it names one. Names are matched whole
/// and by case.
pub open spec fn resolve_spec(text: Seq<char>) -> Option<CommandName> {
    if is_catalog_name(text) {
        Some(choose|tag: CommandName| tag.spec_name() == text)
    } else {
        None
    }
}

/// No two kinds of the catalog share a name.
pub proof fn names_are_distinct(a: CommandName, b: CommandName)
    requires
        a.spec_name() == b.spec_name(),
    ensures
        a == b,
{
    reveal_strlit("Alpine");
    reveal_strlit("AlpineRepo");
    reveal_strlit("Ubuntu");
    reveal_strlit("UbuntuRepo");
    reveal_strlit("UbuntuRelease");
    reveal_strlit("UbuntuPPA");
    reveal_strlit("UbuntuUniverse");
    reveal_strlit("AptTrust");
    reveal_strlit("Repo");
    reveal_strlit("Install");
    reveal_strlit("BuildDeps");
    reveal_strlit("Git");
    reveal_strlit("GitInstall");
    reveal_strlit("GitDescribe");
    reveal_strlit("PipConfig");
    reveal_strlit("Py2Install");
    reveal_strlit("Py2Requirements");
    reveal_strlit("Py3Install");
    reveal_strlit("Py3Requirements");
    reveal_strlit("Tar");
    reveal_strlit("TarInstall");
    reveal_strlit("Unzip");
    reveal_strlit("Sh");
    reveal_strlit("Cmd");
    reveal_strlit("RunAs");
    reveal_strlit("Env");
    reveal_strlit("Text");
    reveal_strlit("Copy");
    reveal_strlit("Download");
    reveal_strlit("EnsureDir");
    reveal_strlit("CacheDirs");
    reveal_strlit("EmptyDir");
    reveal_strlit("Remove");
    reveal_strlit("Depends");
    reveal_strlit("Container");
    reveal_strlit("Build");
    reveal_strlit("SubConfig");
    reveal_strlit("NpmConfig");
    reveal_strlit("NpmDependencies");
    reveal_strlit("YarnDependencies");
    reveal_strlit("NpmInstall");
    reveal_strlit("GemInstall");
    reveal_strlit("GemBundle");
    reveal_strlit("GemConfig");
    reveal_strlit("ComposerInstall");
    reveal_strlit("ComposerDependencies");
    reveal_strlit("ComposerConfig");
    let x = a.spec_name();
    let y = b.spec_name();
    assert(x.len() == y.len());
    assert(x[0] == y[0]);
    assert(x[1] == y[1]);
    assert(x[2] == y[2]);
    assert(x[3] == y[3]);
    assert(x[4] == y[4]);
    assert(x[5] == y[5]);
    assert(x[6] == y[6]);
    assert(x[7] == y[7]);
    assert(x[8] == y[8]);
    assert(x[9] == y[9]);
    assert(x[10] == y[10]);
    assert(x[11] == y[11]);
    assert(x[12] == y[12]);
    assert(x[13] == y[13]);
    assert(x[14] == y[14]);
    assert(x[15] == y[15]);
    assert(x[16] == y[16]);
    assert(x[17] == y[17]);
    assert(x[18] == y[18]);
    assert(x[19] == y[19]);
}

/// The names of the catalog's kinds, in catalog order.
pub fn commands() -> (names: Vec<&'static str>)
    ensures
        texts(names@) == catalog_names(),
{
    let mut names: Vec<&'static str> = Vec::new();
    let mut i: usize = 0;
    while i < CATALOG_SIZE
        invariant
            i <= CATALOG_SIZE,
            names@.len() == i,
            forall|k: int| 0 <= k < i ==> (#[trigger] names@[k])@ == catalog_entry(k).spec_name(),
        decreases CATALOG_SIZE - i,
    {
        names.push(CommandName::at(i).name());
        i += 1;
    }
    proof {
        assert(texts(names@) =~= catalog_names());
    }
    names
}

/// What is expected where a kind of build step is named: the whole
/// catalog, in catalog order.
pub open spec fn expecting_text() -> Seq<char> {
    "build step is one of "@ + joined(catalog_names(), ", "@)
}

/// Finds the kind that `val` names. The name is matched whole and by
/// case; a string that names no kind is handed back in the error.
pub fn resolve(val: &str) -> (found: Result<CommandName, StepError>)
    ensures
        match resolve_spec(val@) {
            Some(tag) => found == Ok::<CommandName, StepError>(tag),
            None => found is Err && found->Err_0@ == (StepErrorModel::UnknownTag { name: val@ }),
        },
{
    let mut i: usize = 0;
    while i < CATALOG_SIZE
        invariant
            i <= CATALOG_SIZE,
            forall|k: int| 0 <= k < i ==> catalog_entry(k).spec_name() != val@,
        decreases CATALOG_SIZE - i,
    {
        let tag = CommandName::at(i);
        if same_text(val, tag.name()) {
            proof {
                let chosen = choose|t: CommandName| t.spec_name() == val@;
                names_are_distinct(chosen, tag);
            }
            return Ok(tag);
        }
        i += 1;
    }
    proof {
        assert forall|t: CommandName| t.spec_name() != val@ by {
            assert(catalog_entry(t.spec_index()) == t);
        }
    }
    Err(StepError::UnknownTag { name: val.to_owned() })
}

/// Reads the name of a kind of build step.
pub struct NameVisitor;

impl NameVisitor {
    /// What is expected where a kind of build step is named.
    pub fn expecting(&self) -> (words: String)
        ensures
            words@ == expecting_text(),
    {
        let mut out = String::from_str("build step is one of ");
        let names = commands();
        append_joined(&mut out, &names, ", ");
        out
    }

    /// The kind that `val` names; see `resolve`.
    pub fn visit_str(&self, val: &str) -> (found: Result<CommandName, StepError>)
        ensures
            match resolve_spec(val@) {
                Some(tag) => found == Ok::<CommandName, StepError>(tag),
                None => found is Err && found->Err_0@ == (StepErrorModel::UnknownTag { name: val@ }),
            },
    {
        resolve(val)
    }
}

/// Every kind's name resolves to that kind.
pub proof fn resolve_round_trip(tag: CommandName)
    ensures
        resolve_spec(tag.spec_name()) == Some(tag),
{
    let chosen = choose|t: CommandName| t.spec_name() == tag.spec_name();
    names_are_distinct(chosen, tag);
}

/// A string that names no kind resolves to none, and the message of the
/// error that says so holds every name of the catalog, in catalog order.
pub proof fn unknown_tag_lists_catalog(text: Seq<char>)
    requires
        !is_catalog_name(text),
    ensures
        resolve_spec(text) is None,
        lists_in_order((StepErrorModel::UnknownTag { name: text }).message(), catalog_names()),
{
    let before = "unknown build step "@ + text + ": "@ + "build step is one of "@;
    joined_lists_in_order(before, catalog_names(), ", "@);
    assert((StepErrorModel::UnknownTag { name: text }).message() =~= before + joined(
        catalog_names(),
        ", "@,
    ));
}

} // verus!
