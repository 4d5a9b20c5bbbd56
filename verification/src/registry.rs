use vstd::prelude::*;
use crate::catalog::{is_catalog_name, names_are_distinct, CommandName, CATALOG_SIZE};
use crate::shape::Shape;

verus! {

/// The tagged-choice validator of quire, `validate::Enum`. What it holds
/// is known here only through `enum_options`.
#[verifier::external_type_specification]
#[verifier::external_body]
pub struct ExEnum<'a>(quire::validate::Enum<'a>);

/// The options of a tagged-choice validator, in the order in which they
/// were added: each one's tag, and the shape that stands for the validator
/// it was added with. `Nothing` stands for quire's `Nothing`, `Text` for a
/// new `Scalar`, `List` for a `Sequence` of it, `Table` for a `Mapping`
/// from it to it, and `Record` for a `Mapping` from it to `Anything`.
pub uninterp spec fn enum_options(choice: quire::validate::Enum) -> Seq<(Seq<char>, Shape)>;

/// `Enum::new` of quire: a tagged-choice validator without options.
#[verifier::external_body]
fn empty_choice<'a>() -> (choice: quire::validate::Enum<'a>)
    ensures
        enum_options(choice) == Seq::<(Seq<char>, Shape)>::empty(),
{
    quire::validate::Enum::new()
}

/// `Enum::option` of quire, called with its `Nothing` validator: the
/// option is added under `name`, after the options already there.
#[verifier::external_body]
fn with_nothing<'a>(choice: quire::validate::Enum<'a>, name: &str) -> (grown: quire::validate::Enum<'a>)
    ensures
        enum_options(grown) == enum_options(choice).push((name@, Shape::Nothing)),
{
    choice.option(name, quire::validate::Nothing)
}

/// `Enum::option` of quire, called with a new `Scalar` validator: the
/// option is added under `name`, after the options already there.
#[verifier::external_body]
fn with_text<'a>(choice: quire::validate::Enum<'a>, name: &str) -> (grown: quire::validate::Enum<'a>)
    ensures
        enum_options(grown) == enum_options(choice).push((name@, Shape::Text)),
{
    choice.option(name, quire::validate::Scalar::new())
}

/// `Enum::option` of quire, called with a new `Sequence` validator over
/// a new `Scalar`: the option is added under `name`, after the options
/// already there.
#[verifier::external_body]
fn with_list<'a>(choice: quire::validate::Enum<'a>, name: &str) -> (grown: quire::validate::Enum<'a>)
    ensures
        enum_options(grown) == enum_options(choice).push((name@, Shape::List)),
{
    choice.option(name, quire::validate::Sequence::new(quire::validate::Scalar::new()))
}

/// `Enum::option` of quire, called with a new `Mapping` validator from a
/// new `Scalar` to a new `Scalar`: the option is added under `name`, after
/// the options already there.
#[verifier::external_body]
fn with_table<'a>(choice: quire::validate::Enum<'a>, name: &str) -> (grown: quire::validate::Enum<'a>)
    ensures
        enum_options(grown) == enum_options(choice).push((name@, Shape::Table)),
{
    choice.option(
        name,
        quire::validate::Mapping::new(quire::validate::Scalar::new(), quire::validate::Scalar::new()),
    )
}

/// `Enum::option` of quire, called with a new `Mapping` validator from a
/// new `Scalar` to `Anything`: the option is added under `name`, after the
/// options already there.
#[verifier::external_body]
fn with_record<'a>(choice: quire::validate::Enum<'a>, name: &str) -> (grown: quire::validate::Enum<'a>)
    ensures
        enum_options(grown) == enum_options(choice).push((name@, Shape::Record)),
{
    choice.option(
        name,
        quire::validate::Mapping::new(quire::validate::Scalar::new(), quire::validate::Anything),
    )
}

/// The option that registers `tag`: its name with the shape of its
/// configuration.
pub open spec fn option_of(tag: CommandName) -> (Seq<char>, Shape) {
    (tag.spec_name(), tag.spec_shape())
}

/// Adds the option that registers `tag` after those already there.
fn register<'a>(choice: quire::validate::Enum<'a>, tag: CommandName) -> (grown: quire::validate::Enum<'a>)
    ensures
        enum_options(grown) == enum_options(choice).push(option_of(tag)),
{
    match tag.shape() {
        Shape::Nothing => with_nothing(choice, tag.name()),
        Shape::Text => with_text(choice, tag.name()),
        Shape::List => with_list(choice, tag.name()),
        Shape::Table => with_table(choice, tag.name()),
        Shape::Record => with_record(choice, tag.name()),
    }
}

/// The kind that the validator registers at place `i`.
pub open spec fn registration_entry(i: int) -> CommandName {
    if i == 0 {
        CommandName::Alpine
    } else if i == 1 {
        CommandName::AlpineRepo
    } else if i == 2 {
        CommandName::Ubuntu
    } else if i == 3 {
        CommandName::UbuntuRelease
    } else if i == 4 {
        CommandName::UbuntuRepo
    } else if i == 5 {
        CommandName::UbuntuPPA
    } else if i == 6 {
        CommandName::UbuntuUniverse
    } else if i == 7 {
        CommandName::AptTrust
    } else if i == 8 {
        CommandName::Repo
    } else if i == 9 {
        CommandName::Install
    } else if i == 10 {
        CommandName::BuildDeps
    } else if i == 11 {
        CommandName::Container
    } else if i == 12 {
        CommandName::SubConfig
    } else if i == 13 {
        CommandName::Build
    } else if i == 14 {
        CommandName::Text
    } else if i == 15 {
        CommandName::Copy
    } else if i == 16 {
        CommandName::Sh
    } else if i == 17 {
        CommandName::Cmd
    } else if i == 18 {
        CommandName::RunAs
    } else if i == 19 {
        CommandName::Remove
    } else if i == 20 {
        CommandName::EnsureDir
    } else if i == 21 {
        CommandName::EmptyDir
    } else if i == 22 {
        CommandName::CacheDirs
    } else if i == 23 {
        CommandName::Env
    } else if i == 24 {
        CommandName::Depends
    } else if i == 25 {
        CommandName::Git
    } else if i == 26 {
        CommandName::GitInstall
    } else if i == 27 {
        CommandName::GitDescribe
    } else if i == 28 {
        CommandName::Tar
    } else if i == 29 {
        CommandName::TarInstall
    } else if i == 30 {
        CommandName::Unzip
    } else if i == 31 {
        CommandName::Download
    } else if i == 32 {
        CommandName::PipConfig
    } else if i == 33 {
        CommandName::Py2Install
    } else if i == 34 {
        CommandName::Py2Requirements
    } else if i == 35 {
        CommandName::Py3Install
    } else if i == 36 {
        CommandName::Py3Requirements
    } else if i == 37 {
        CommandName::NpmConfig
    } else if i == 38 {
        CommandName::NpmInstall
    } else if i == 39 {
        CommandName::NpmDependencies
    } else if i == 40 {
        CommandName::YarnDependencies
    } else if i == 41 {
        CommandName::ComposerConfig
    } else if i == 42 {
        CommandName::ComposerInstall
    } else if i == 43 {
        CommandName::ComposerDependencies
    } else if i == 44 {
        CommandName::GemConfig
    } else if i == 45 {
        CommandName::GemInstall
    } else {
        CommandName::GemBundle
    }
}

/// The place at which the validator registers a kind.
pub open spec fn registration_place(tag: CommandName) -> int {
    match tag {
        CommandName::Alpine => 0,
        CommandName::AlpineRepo => 1,
        CommandName::Ubuntu => 2,
        CommandName::UbuntuRelease => 3,
        CommandName::UbuntuRepo => 4,
        CommandName::UbuntuPPA => 5,
        CommandName::UbuntuUniverse => 6,
        CommandName::AptTrust => 7,
        CommandName::Repo => 8,
        CommandName::Install => 9,
        CommandName::BuildDeps => 10,
        CommandName::Container => 11,
        CommandName::SubConfig => 12,
        CommandName::Build => 13,
        CommandName::Text => 14,
        CommandName::Copy => 15,
        CommandName::Sh => 16,
        CommandName::Cmd => 17,
        CommandName::RunAs => 18,
        CommandName::Remove => 19,
        CommandName::EnsureDir => 20,
        CommandName::EmptyDir => 21,
        CommandName::CacheDirs => 22,
        CommandName::Env => 23,
        CommandName::Depends => 24,
        CommandName::Git => 25,
        CommandName::GitInstall => 26,
        CommandName::GitDescribe => 27,
        CommandName::Tar => 28,
        CommandName::TarInstall => 29,
        CommandName::Unzip => 30,
        CommandName::Download => 31,
        CommandName::PipConfig => 32,
        CommandName::Py2Install => 33,
        CommandName::Py2Requirements => 34,
        CommandName::Py3Install => 35,
        CommandName::Py3Requirements => 36,
        CommandName::NpmConfig => 37,
        CommandName::NpmInstall => 38,
        CommandName::NpmDependencies => 39,
        CommandName::YarnDependencies => 40,
        CommandName::ComposerConfig => 41,
        CommandName::ComposerInstall => 42,
        CommandName::ComposerDependencies => 43,
        CommandName::GemConfig => 44,
        CommandName::GemInstall => 45,
        CommandName::GemBundle => 46,
    }
}

/// The options of the validator of build steps: one for each kind, in
/// registration order.
pub open spec fn registered_options() -> Seq<(Seq<char>, Shape)> {
    Seq::new(CATALOG_SIZE as nat, |i: int| option_of(registration_entry(i)))
}

/// The tags under which the validator of build steps holds its options.
pub open spec fn registered_names() -> Seq<Seq<char>> {
    Seq::new(CATALOG_SIZE as nat, |i: int| registration_entry(i).spec_name())
}

fn registered(i: usize) -> (tag: CommandName)
    requires
        i < CATALOG_SIZE,
    ensures
        tag == registration_entry(i as int),
{
    match i {
        0 => CommandName::Alpine,
        1 => CommandName::AlpineRepo,
        2 => CommandName::Ubuntu,
        3 => CommandName::UbuntuRelease,
        4 => CommandName::UbuntuRepo,
        5 => CommandName::UbuntuPPA,
        6 => CommandName::UbuntuUniverse,
        7 => CommandName::AptTrust,
        8 => CommandName::Repo,
        9 => CommandName::Install,
        10 => CommandName::BuildDeps,
        11 => CommandName::Container,
        12 => CommandName::SubConfig,
        13 => CommandName::Build,
        14 => CommandName::Text,
        15 => CommandName::Copy,
        16 => CommandName::Sh,
        17 => CommandName::Cmd,
        18 => CommandName::RunAs,
        19 => CommandName::Remove,
        20 => CommandName::EnsureDir,
        21 => CommandName::EmptyDir,
        22 => CommandName::CacheDirs,
        23 => CommandName::Env,
        24 => CommandName::Depends,
        25 => CommandName::Git,
        26 => CommandName::GitInstall,
        27 => CommandName::GitDescribe,
        28 => CommandName::Tar,
        29 => CommandName::TarInstall,
        30 => CommandName::Unzip,
        31 => CommandName::Download,
        32 => CommandName::PipConfig,
        33 => CommandName::Py2Install,
        34 => CommandName::Py2Requirements,
        35 => CommandName::Py3Install,
        36 => CommandName::Py3Requirements,
        37 => CommandName::NpmConfig,
        38 => CommandName::NpmInstall,
        39 => CommandName::NpmDependencies,
        40 => CommandName::YarnDependencies,
        41 => CommandName::ComposerConfig,
        42 => CommandName::ComposerInstall,
        43 => CommandName::ComposerDependencies,
        44 => CommandName::GemConfig,
        45 => CommandName::GemInstall,
        _ => CommandName::GemBundle,
    }
}

/// The validator of build steps: a tagged choice with one option for each
/// kind of the catalog, under the kind's name, that admits what the kind's
/// configuration may be.
pub fn builder_validator<'x>() -> (choice: quire::validate::Enum<'x>)
    ensures
        enum_options(choice) == registered_options(),
{
    let mut choice = empty_choice();
    let mut i: usize = 0;
    while i < CATALOG_SIZE
        invariant
            i <= CATALOG_SIZE,
            enum_options(choice) == registered_options().take(i as int),
        decreases CATALOG_SIZE - i,
    {
        choice = register(choice, registered(i));
        proof {
            assert(registered_options().take(i as int).push(option_of(registration_entry(i as int)))
                =~= registered_options().take(i + 1));
        }
        i += 1;
    }
    proof {
        assert(registered_options().take(i as int) =~= registered_options());
    }
    choice
}

/// Whether `i` is the one place at which `items` holds `item`.
pub open spec fn is_only_place<T>(items: Seq<T>, item: T, i: int) -> bool {
    &&& 0 <= i < items.len()
    &&& items[i] == item
    &&& forall|j: int| 0 <= j < items.len() && items[j] == item ==> j == i
}

/// Whether `items` holds `item` at one place and no other.
pub open spec fn holds_once<T>(items: Seq<T>, item: T) -> bool {
    exists|i: int| is_only_place(items, item, i)
}

/// The validator of build steps holds, for every kind of the catalog,
/// exactly one option under the kind's name, and that option admits the
/// shape of the kind's configuration; it holds no option under any other
/// name.
pub proof fn every_kind_has_one_schema(tag: CommandName)
    ensures
        holds_once(registered_names(), tag.spec_name()),
        holds_once(registered_options(), option_of(tag)),
        forall|i: int|
            0 <= i < registered_names().len() ==> is_catalog_name(#[trigger] registered_names()[i]),
{
    let at = registration_place(tag);
    assert(registration_entry(at) == tag);
    assert forall|j: int|
        0 <= j < CATALOG_SIZE && registration_entry(j).spec_name() == tag.spec_name() implies j
        == at by {
        names_are_distinct(registration_entry(j), tag);
        assert(registration_place(registration_entry(j)) == j);
    }
    assert(is_only_place(registered_names(), tag.spec_name(), at));
    assert(is_only_place(registered_options(), option_of(tag), at));
    assert forall|i: int| 0 <= i < registered_names().len() implies is_catalog_name(
        #[trigger] registered_names()[i],
    ) by {
        assert(registration_entry(i).spec_name() == registered_names()[i]);
    }
}

} // verus!
