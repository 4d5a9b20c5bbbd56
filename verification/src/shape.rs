use vstd::prelude::*;
use crate::catalog::CommandName;

verus! {

/// The shapes that the configuration of a build step can have.
#[derive(Clone, Copy, Debug, PartialEq, Eq, Structural)]
pub enum Shape {
    /// No configuration at all.
    Nothing,
    /// One scalar value.
    Text,
    /// A sequence of scalar values.
    List,
    /// A mapping from names to scalar values.
    Table,
    /// A mapping from field names to values, each a scalar or a sequence
    /// of scalars.
    Record,
}

impl CommandName {
    /// The shape of this kind's configuration.
    pub open spec fn spec_shape(self) -> Shape {
        match self {
            CommandName::UbuntuUniverse => Shape::Nothing,
            CommandName::Alpine
            | CommandName::Ubuntu
            | CommandName::UbuntuPPA
            | CommandName::Repo
            | CommandName::Sh
            | CommandName::Container
            | CommandName::Py2Requirements
            | CommandName::Py3Requirements
            | CommandName::EnsureDir
            | CommandName::EmptyDir
            | CommandName::Remove => Shape::Text,
            CommandName::Install
            | CommandName::BuildDeps
            | CommandName::Py2Install
            | CommandName::Py3Install
            | CommandName::Cmd
            | CommandName::NpmInstall
            | CommandName::GemInstall
            | CommandName::ComposerInstall => Shape::List,
            CommandName::Env
            | CommandName::Text
            | CommandName::CacheDirs => Shape::Table,
            CommandName::AlpineRepo
            | CommandName::UbuntuRepo
            | CommandName::UbuntuRelease
            | CommandName::AptTrust
            | CommandName::Git
            | CommandName::GitInstall
            | CommandName::GitDescribe
            | CommandName::PipConfig
            | CommandName::Tar
            | CommandName::TarInstall
            | CommandName::Unzip
            | CommandName::RunAs
            | CommandName::Copy
            | CommandName::Download
            | CommandName::Depends
            | CommandName::Build
            | CommandName::SubConfig
            | CommandName::NpmConfig
            | CommandName::NpmDependencies
            | CommandName::YarnDependencies
            | CommandName::GemBundle
            | CommandName::GemConfig
            | CommandName::ComposerDependencies
            | CommandName::ComposerConfig => Shape::Record,
        }
    }

    /// The shape of this kind's configuration.
    pub fn shape(self) -> (shape: Shape)
        ensures
            shape == self.spec_shape(),
    {
        match self {
            CommandName::UbuntuUniverse => Shape::Nothing,
            CommandName::Alpine
            | CommandName::Ubuntu
            | CommandName::UbuntuPPA
            | CommandName::Repo
            | CommandName::Sh
            | CommandName::Container
            | CommandName::Py2Requirements
            | CommandName::Py3Requirements
            | CommandName::EnsureDir
            | CommandName::EmptyDir
            | CommandName::Remove => Shape::Text,
            CommandName::Install
            | CommandName::BuildDeps
            | CommandName::Py2Install
            | CommandName::Py3Install
            | CommandName::Cmd
            | CommandName::NpmInstall
            | CommandName::GemInstall
            | CommandName::ComposerInstall => Shape::List,
            CommandName::Env
            | CommandName::Text
            | CommandName::CacheDirs => Shape::Table,
            CommandName::AlpineRepo
            | CommandName::UbuntuRepo
            | CommandName::UbuntuRelease
            | CommandName::AptTrust
            | CommandName::Git
            | CommandName::GitInstall
            | CommandName::GitDescribe
            | CommandName::PipConfig
            | CommandName::Tar
            | CommandName::TarInstall
            | CommandName::Unzip
            | CommandName::RunAs
            | CommandName::Copy
            | CommandName::Download
            | CommandName::Depends
            | CommandName::Build
            | CommandName::SubConfig
            | CommandName::NpmConfig
            | CommandName::NpmDependencies
            | CommandName::YarnDependencies
            | CommandName::GemBundle
            | CommandName::GemConfig
            | CommandName::ComposerDependencies
            | CommandName::ComposerConfig => Shape::Record,
        }
    }
}

} // verus!
