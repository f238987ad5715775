//! Creating a new version by the older procedure: number and name it, then
//! either copy an existing version (chosen by its index) and give its
//! package the new name, or create an empty directory.
use vstd::prelude::*;
use crate::cargo_toml::{apply_file_changes_for_new_version_name, with_package_name};
use crate::effects::{
    cargo_toml_path, cargo_toml_path_of, opt_command_view, Command, CommandView, Event, StepError,
};
use crate::lexical::lex_order;
use crate::paths::{join_path, path_join, string_seqs};
use crate::text::text;
use crate::versions::{
    dictionary_root_choice, extract_next_version_number, get_versions,
    get_nanuak_dictionary_root_dir_using_cwd_if_matches_or_parent_dir, is_valid_version_name,
    next_version_number_of, version_dirs, version_name_check, version_name_error_message,
};

verus! {

/// Where the procedure stands.
#[derive(Debug)]
pub enum NewVersionProcedure {
    LocateRoot,
    ListVersions { root_dir: String },
    NameVersion { root_dir: String, versions: Vec<String>, next_version_number: usize },
    ChooseStarter { versions: Vec<String>, next_version_name: String, next_version_dir: String },
    CopyTemplate { next_version_name: String, next_version_dir: String, template_dir: String },
    ApplyFileChanges { next_version_name: String, next_version_dir: String },
    CreateEmptyDirectory { next_version_dir: String },
    Done,
}

/// A `NewVersionProcedure`, as values.
pub enum NewVersionProcedureView {
    LocateRoot,
    ListVersions { root_dir: Seq<char> },
    NameVersion { root_dir: Seq<char>, versions: Seq<Seq<char>>, next_version_number: usize },
    ChooseStarter {
        versions: Seq<Seq<char>>,
        next_version_name: Seq<char>,
        next_version_dir: Seq<char>,
    },
    CopyTemplate { next_version_name: Seq<char>, next_version_dir: Seq<char>, template_dir: Seq<char> },
    ApplyFileChanges { next_version_name: Seq<char>, next_version_dir: Seq<char> },
    CreateEmptyDirectory { next_version_dir: Seq<char> },
    Done,
}

impl View for NewVersionProcedure {
    type V = NewVersionProcedureView;

    open spec fn view(&self) -> NewVersionProcedureView {
        match self {
            NewVersionProcedure::LocateRoot => NewVersionProcedureView::LocateRoot,
            NewVersionProcedure::ListVersions { root_dir } => NewVersionProcedureView::ListVersions {
                root_dir: root_dir@,
            },
            NewVersionProcedure::NameVersion { root_dir, versions, next_version_number } =>
                NewVersionProcedureView::NameVersion {
                root_dir: root_dir@,
                versions: string_seqs(versions@),
                next_version_number: *next_version_number,
            },
            NewVersionProcedure::ChooseStarter { versions, next_version_name, next_version_dir } =>
                NewVersionProcedureView::ChooseStarter {
                versions: string_seqs(versions@),
                next_version_name: next_version_name@,
                next_version_dir: next_version_dir@,
            },
            NewVersionProcedure::CopyTemplate { next_version_name, next_version_dir, template_dir } =>
                NewVersionProcedureView::CopyTemplate {
                next_version_name: next_version_name@,
                next_version_dir: next_version_dir@,
                template_dir: template_dir@,
            },
            NewVersionProcedure::ApplyFileChanges { next_version_name, next_version_dir } =>
                NewVersionProcedureView::ApplyFileChanges {
                next_version_name: next_version_name@,
                next_version_dir: next_version_dir@,
            },
            NewVersionProcedure::CreateEmptyDirectory { next_version_dir } =>
                NewVersionProcedureView::CreateEmptyDirectory { next_version_dir: next_version_dir@ },
            NewVersionProcedure::Done => NewVersionProcedureView::Done,
        }
    }
}

/// The command that starts the work of a state.
pub open spec fn procedure_entry_command(s: NewVersionProcedureView) -> Option<CommandView> {
    match s {
        NewVersionProcedureView::LocateRoot => Some(CommandView::LocateDictionaryRoot),
        NewVersionProcedureView::ListVersions { root_dir } => Some(
            CommandView::ListDirectory { dir: root_dir },
        ),
        NewVersionProcedureView::NameVersion { versions, next_version_number, .. } => Some(
            CommandView::PromptVersionName { next_version_number, warning: None },
        ),
        NewVersionProcedureView::ChooseStarter { .. } => Some(CommandView::AskCopyExisting),
        NewVersionProcedureView::CopyTemplate { next_version_dir, template_dir, .. } => Some(
            CommandView::CopyDirectory { from: template_dir, to: next_version_dir },
        ),
        NewVersionProcedureView::ApplyFileChanges { next_version_dir, .. } => Some(
            CommandView::ReadCargoToml { path: cargo_toml_path(next_version_dir) },
        ),
        NewVersionProcedureView::CreateEmptyDirectory { next_version_dir } => Some(
            CommandView::CreateDirectory { dir: next_version_dir },
        ),
        NewVersionProcedureView::Done => None,
    }
}

/// Moving to state `s`, with the command that starts its work.
pub open spec fn procedure_enter(s: NewVersionProcedureView) -> Result<
    (NewVersionProcedureView, Option<CommandView>),
    StepError,
> {
    Ok((s, procedure_entry_command(s)))
}

/// The state entered once a valid new version name is settled.
pub open spec fn starter_stage(root_dir: Seq<char>, versions: Seq<Seq<char>>, name: Seq<char>) -> NewVersionProcedureView {
    NewVersionProcedureView::ChooseStarter {
        versions,
        next_version_name: name,
        next_version_dir: path_join(root_dir, name),
    }
}

/// Whether `event` answers, within the list of versions of state `s`, an
/// index that is out of it.  The procedure indexes the list, so such an
/// answer is not taken.
pub open spec fn index_out_of_range(s: NewVersionProcedureView, event: Event) -> bool {
    match (s, event) {
        (NewVersionProcedureView::ChooseStarter { versions, .. }, Event::TemplateIndexEntered {
            index,
        }) => index >= versions.len(),
        _ => false,
    }
}

/// One step of the procedure.
pub open spec fn procedure_step(s: NewVersionProcedureView, event: Event) -> Result<
    (NewVersionProcedureView, Option<CommandView>),
    StepError,
> {
    match s {
        NewVersionProcedureView::LocateRoot => match event {
            Event::DictionaryRootProbed { current_dir, current_is_dir, parent_is_dir } => match
                dictionary_root_choice(current_dir@, current_is_dir, parent_is_dir) {
                Err(e) => Err(StepError::RootDir(e)),
                Ok(root) => procedure_enter(NewVersionProcedureView::ListVersions { root_dir: root }),
            },
            _ => Err(StepError::UnexpectedEvent),
        },
        NewVersionProcedureView::ListVersions { root_dir } => match event {
            Event::DirectoryListed { entries } => Ok(
                (
                    s,
                    Some(
                        CommandView::ShowVersions {
                            versions: version_dirs(root_dir, entries@).sort_by(lex_order()),
                            entries: entries@,
                        },
                    ),
                ),
            ),
            Event::VersionsShown { entries } => {
                let versions = version_dirs(root_dir, entries@).sort_by(lex_order());
                match next_version_number_of(versions) {
                    Err(e) => Err(StepError::NextVersion(e)),
                    Ok(n) => procedure_enter(
                        NewVersionProcedureView::NameVersion {
                            root_dir,
                            versions,
                            next_version_number: n,
                        },
                    ),
                }
            },
            _ => Err(StepError::UnexpectedEvent),
        },
        NewVersionProcedureView::NameVersion { root_dir, versions, next_version_number } => match event {
            Event::VersionNameEntered { name } => match version_name_check(name@) {
                Err(e) => Ok(
                    (
                        s,
                        Some(
                            CommandView::PromptVersionName {
                                next_version_number,
                                warning: Some(version_name_error_message(e)),
                            },
                        ),
                    ),
                ),
                Ok(_) => Ok(
                    (
                        s,
                        Some(
                            CommandView::CheckDirectoryExists {
                                name: name@,
                                dir: path_join(root_dir, name@),
                            },
                        ),
                    ),
                ),
            },
            Event::DirectoryExistence { name, exists } => if version_name_check(name@) is Err {
                Err(StepError::UnexpectedEvent)
            } else if exists {
                Ok(
                    (
                        s,
                        Some(
                            CommandView::ConfirmProceed {
                                name: name@,
                                dir: path_join(root_dir, name@),
                            },
                        ),
                    ),
                )
            } else {
                procedure_enter(starter_stage(root_dir, versions, name@))
            },
            Event::ProceedAnswered { name, proceed } => if version_name_check(name@) is Err {
                Err(StepError::UnexpectedEvent)
            } else if !proceed {
                Err(StepError::UserChoseNotToProceed)
            } else {
                procedure_enter(starter_stage(root_dir, versions, name@))
            },
            _ => Err(StepError::UnexpectedEvent),
        },
        NewVersionProcedureView::ChooseStarter { versions, next_version_name, next_version_dir } =>
            match event {
            Event::CopyExistingAnswered { copy } => if copy {
                Ok((s, Some(CommandView::PromptTemplateIndex { versions })))
            } else {
                procedure_enter(
                    NewVersionProcedureView::CreateEmptyDirectory { next_version_dir },
                )
            },
            Event::TemplateIndexEntered { index } => procedure_enter(
                NewVersionProcedureView::CopyTemplate {
                    next_version_name,
                    next_version_dir,
                    template_dir: versions[index as int],
                },
            ),
            _ => Err(StepError::UnexpectedEvent),
        },
        NewVersionProcedureView::CopyTemplate { next_version_name, next_version_dir, .. } =>
            match event {
            Event::DirectoryCopied => procedure_enter(
                NewVersionProcedureView::ApplyFileChanges { next_version_name, next_version_dir },
            ),
            _ => Err(StepError::UnexpectedEvent),
        },
        NewVersionProcedureView::ApplyFileChanges { next_version_name, next_version_dir } =>
            match event {
            Event::CargoTomlRead { manifest } => match with_package_name(
                manifest@,
                next_version_name,
            ) {
                Err(e) => Err(StepError::CargoToml(e)),
                Ok(m) => Ok(
                    (
                        s,
                        Some(
                            CommandView::WriteCargoToml {
                                path: cargo_toml_path(next_version_dir),
                                manifest: m,
                            },
                        ),
                    ),
                ),
            },
            Event::CargoTomlWritten => procedure_enter(NewVersionProcedureView::Done),
            _ => Err(StepError::UnexpectedEvent),
        },
        NewVersionProcedureView::CreateEmptyDirectory { .. } => match event {
            Event::DirectoryCreated => procedure_enter(NewVersionProcedureView::Done),
            _ => Err(StepError::UnexpectedEvent),
        },
        NewVersionProcedureView::Done => Ok((NewVersionProcedureView::Done, None)),
    }
}

/// Once a valid new version name is entered and its directory found to
/// exist, the answer to "proceed?" decides: a refusal ends the procedure with
/// `UserChoseNotToProceed`, a consent moves on to choosing a starter for that
/// name in the root directory, asking whether to copy an existing version.
/// A directory that does not exist moves on in the same way without asking.
pub proof fn lemma_procedure_proceed_answer(
    root_dir: Seq<char>,
    versions: Seq<Seq<char>>,
    next_version_number: usize,
    name: String,
    proceed: bool,
)
    requires
        version_name_check(name@) is Ok,
    ensures
        ({
            let s = NewVersionProcedureView::NameVersion { root_dir, versions, next_version_number };
            let chosen = NewVersionProcedureView::ChooseStarter {
                versions: versions,
                next_version_name: name@,
                next_version_dir: path_join(root_dir, name@),
            };
            &&& !proceed ==> procedure_step(s, Event::ProceedAnswered { name, proceed })
                == Err::<(NewVersionProcedureView, Option<CommandView>), StepError>(
                StepError::UserChoseNotToProceed,
            )
            &&& proceed ==> procedure_step(s, Event::ProceedAnswered { name, proceed })
                == Ok::<(NewVersionProcedureView, Option<CommandView>), StepError>(
                (chosen, Some(CommandView::AskCopyExisting)),
            )
            &&& (procedure_step(s, Event::ProceedAnswered { name, proceed }) is Err <==> !proceed)
            &&& procedure_step(s, Event::DirectoryExistence { name, exists: false })
                == Ok::<(NewVersionProcedureView, Option<CommandView>), StepError>(
                (chosen, Some(CommandView::AskCopyExisting)),
            )
        }),
{
}

/// Choosing how the new version starts: asked to copy, the procedure shows
/// the versions and copies the one at the index chosen from that list into
/// the new version's directory; asked not to, it creates the new version's
/// directory empty.
pub proof fn lemma_procedure_starter_choice(
    versions: Seq<Seq<char>>,
    next_version_name: Seq<char>,
    next_version_dir: Seq<char>,
    index: usize,
)
    ensures
        ({
            let s = NewVersionProcedureView::ChooseStarter {
                versions,
                next_version_name,
                next_version_dir,
            };
            &&& procedure_step(s, Event::CopyExistingAnswered { copy: true }) == Ok::<
                (NewVersionProcedureView, Option<CommandView>),
                StepError,
            >((s, Some(CommandView::PromptTemplateIndex { versions })))
            &&& index < versions.len() ==> procedure_step(s, Event::TemplateIndexEntered { index })
                == Ok::<(NewVersionProcedureView, Option<CommandView>), StepError>(
                (
                    NewVersionProcedureView::CopyTemplate {
                        next_version_name,
                        next_version_dir,
                        template_dir: versions[index as int],
                    },
                    Some(
                        CommandView::CopyDirectory {
                            from: versions[index as int],
                            to: next_version_dir,
                        },
                    ),
                ),
            )
            &&& procedure_step(s, Event::CopyExistingAnswered { copy: false }) == Ok::<
                (NewVersionProcedureView, Option<CommandView>),
                StepError,
            >(
                (
                    NewVersionProcedureView::CreateEmptyDirectory { next_version_dir },
                    Some(CommandView::CreateDirectory { dir: next_version_dir }),
                ),
            )
        }),
{
}

/// Naming a copied version's crate: a manifest with a package is written
/// back to the new version's `Cargo.toml` with the package renamed to the
/// new version's name and nothing else changed; one without a package stops
/// the procedure with `MissingPackage`.
pub proof fn lemma_procedure_renames_copied_crate(
    next_version_name: Seq<char>,
    next_version_dir: Seq<char>,
    manifest: crate::cargo_toml::CargoToml,
)
    ensures
        ({
            let s = NewVersionProcedureView::ApplyFileChanges { next_version_name, next_version_dir };
            let r = procedure_step(s, Event::CargoTomlRead { manifest });
            let m = manifest@;
            &&& m.package is None ==> r == Err::<(NewVersionProcedureView, Option<CommandView>), StepError>(
                StepError::CargoToml(crate::cargo_toml::CargoTomlError::MissingPackage),
            )
            &&& m.package is Some ==> r == Ok::<(NewVersionProcedureView, Option<CommandView>), StepError>(
                (
                    s,
                    Some(
                        CommandView::WriteCargoToml {
                            path: cargo_toml_path(next_version_dir),
                            manifest: crate::cargo_toml::CargoTomlView {
                                package: Some(
                                    crate::cargo_toml::PackageView {
                                        name: next_version_name,
                                        version: m.package->0.version,
                                        edition: m.package->0.edition,
                                    },
                                ),
                                workspace: m.workspace,
                                dependencies: m.dependencies,
                                dev_dependencies: m.dev_dependencies,
                            },
                        },
                    ),
                ),
            )
        }),
{
    crate::cargo_toml::lemma_rename_changes_name_only(manifest@, next_version_name);
}

/// Numbering the new version: once the versions are shown, the procedure
/// asks for the name of the version whose number is one more than that of
/// the version that comes last in lexicographic order among the root's
/// version directories; with none, it stops with `NoVersionsFound`.
pub proof fn lemma_procedure_numbers_after_greatest(
    root_dir: Seq<char>,
    entries: Vec<crate::versions::DirEntry>,
    m: usize,
)
    ensures
        ({
            let s = NewVersionProcedureView::ListVersions { root_dir };
            let r = procedure_step(s, Event::VersionsShown { entries });
            let dirs = version_dirs(root_dir, entries@);
            &&& dirs.len() == 0 ==> r == Err::<(NewVersionProcedureView, Option<CommandView>), StepError>(
                StepError::NextVersion(crate::versions::NextVersionError::NoVersionsFound),
            )
            &&& (r is Ok && r->Ok_0.0 is NameVersion && r->Ok_0.0->NameVersion_next_version_number
                == m) <==> (exists|d: Seq<char>|
                #[trigger] dirs.contains(d) && (forall|q: Seq<char>|
                    #[trigger] dirs.contains(q) ==> crate::lexical::lex_le(q, d))
                    && crate::paths::path_file_name_of(d) is Some
                    && crate::versions::version_number_of(crate::paths::path_file_name_of(d)->0) is Ok
                    && m == crate::versions::version_number_of(
                    crate::paths::path_file_name_of(d)->0,
                )->Ok_0 + 1)
        }),
{
    let dirs = version_dirs(root_dir, entries@);
    crate::versions::lemma_next_version_after_greatest(dirs, m);
    if exists|d: Seq<char>|
        #[trigger] dirs.contains(d) && (forall|q: Seq<char>|
            #[trigger] dirs.contains(q) ==> crate::lexical::lex_le(q, d))
            && crate::paths::path_file_name_of(d) is Some && crate::versions::version_number_of(
            crate::paths::path_file_name_of(d)->0,
        ) is Ok && m == crate::versions::version_number_of(crate::paths::path_file_name_of(d)->0)->Ok_0
            + 1 {
        let d = choose|d: Seq<char>|
            #[trigger] dirs.contains(d) && (forall|q: Seq<char>|
                #[trigger] dirs.contains(q) ==> crate::lexical::lex_le(q, d))
                && crate::paths::path_file_name_of(d) is Some && crate::versions::version_number_of(
                crate::paths::path_file_name_of(d)->0,
            ) is Ok && m == crate::versions::version_number_of(
                crate::paths::path_file_name_of(d)->0,
            )->Ok_0 + 1;
        crate::versions::lemma_greatest_is_last_sorted(dirs, d);
    }
}

/// Locating the dictionary's root: the root chosen from the current
/// directory and its parent is the directory listed next, and a directory
/// listed next is a directory named `Nanuak-Dictionary`, the current one or
/// its parent; where none is found, the step fails with the reason.
pub proof fn lemma_procedure_locates_root(
    current_dir: String,
    current_is_dir: bool,
    parent_is_dir: bool,
    root: Seq<char>,
    e: crate::versions::RootDirError,
)
    ensures
        ({
            let r = procedure_step(
                NewVersionProcedureView::LocateRoot,
                Event::DictionaryRootProbed { current_dir, current_is_dir, parent_is_dir },
            );
            let choice = dictionary_root_choice(current_dir@, current_is_dir, parent_is_dir);
            &&& choice == Ok::<Seq<char>, crate::versions::RootDirError>(root) ==> r == Ok::<
                (NewVersionProcedureView, Option<CommandView>),
                StepError,
            >(
                (
                    NewVersionProcedureView::ListVersions { root_dir: root },
                    Some(CommandView::ListDirectory { dir: root }),
                ),
            )
            &&& choice == Err::<Seq<char>, crate::versions::RootDirError>(e) ==> r == Err::<
                (NewVersionProcedureView, Option<CommandView>),
                StepError,
            >(StepError::RootDir(e))
            &&& r == Ok::<(NewVersionProcedureView, Option<CommandView>), StepError>(
                (
                    NewVersionProcedureView::ListVersions { root_dir: root },
                    Some(CommandView::ListDirectory { dir: root }),
                ),
            ) ==> crate::paths::path_file_name_of(root) == Some(
                crate::versions::dictionary_root_name(),
            ) && ((root == current_dir@ && current_is_dir) || (Some(root)
                == crate::paths::path_parent_of(current_dir@) && parent_is_dir))
        }),
{
    if dictionary_root_choice(current_dir@, current_is_dir, parent_is_dir) is Ok {
        crate::versions::lemma_dictionary_root_found(current_dir@, current_is_dir, parent_is_dir);
    }
}

/// Entering a name for the new version: a name that breaks a rule of
/// version names is asked for again, with the message of the rule it
/// breaks; a version name goes on to find whether its directory exists;
/// where it does, the user is asked whether to go on.
pub proof fn lemma_procedure_name_entry(
    dir: Seq<char>,
    versions: Seq<Seq<char>>,
    next_version_number: usize,
    name: String,
    err: crate::versions::VersionNameError,
)
    ensures
        ({
            let s = NewVersionProcedureView::NameVersion { root_dir: dir, versions, next_version_number };
            &&& version_name_check(name@) == Err::<(), crate::versions::VersionNameError>(err)
                ==> procedure_step(s, Event::VersionNameEntered { name }) == Ok::<
                (NewVersionProcedureView, Option<CommandView>),
                StepError,
            >(
                (
                    s,
                    Some(
                        CommandView::PromptVersionName {
                            next_version_number,
                            warning: Some(version_name_error_message(err)),
                        },
                    ),
                ),
            )
            &&& version_name_check(name@) is Ok ==> procedure_step(
                s,
                Event::VersionNameEntered { name },
            ) == Ok::<(NewVersionProcedureView, Option<CommandView>), StepError>(
                (s, Some(CommandView::CheckDirectoryExists { name: name@, dir: path_join(dir, name@) })),
            )
            &&& version_name_check(name@) is Ok ==> procedure_step(
                s,
                Event::DirectoryExistence { name, exists: true },
            ) == Ok::<(NewVersionProcedureView, Option<CommandView>), StepError>(
                (s, Some(CommandView::ConfirmProceed { name: name@, dir: path_join(dir, name@) })),
            )
        }),
{
}

/// Listing the versions: once the directory is listed, what is shown is
/// the listing itself and its version directories (the children that are
/// directories with version names, below the directory), each as often as
/// it is listed, in lexicographic order.
pub proof fn lemma_procedure_shows_versions(dir: Seq<char>, entries: Vec<crate::versions::DirEntry>)
    ensures
        ({
            let s = NewVersionProcedureView::ListVersions { root_dir: dir };
            let r = procedure_step(s, Event::DirectoryListed { entries });
            let dirs = version_dirs(dir, entries@);
            &&& r is Ok && r->Ok_0.0 == s
            &&& r->Ok_0.1 matches Some(CommandView::ShowVersions { versions, entries: shown })
                && shown == entries@ && versions.to_multiset() == dirs.to_multiset() && (forall|i: int, j: int|
                0 <= i < j < versions.len() ==> crate::lexical::lex_le(
                    #[trigger] versions[i],
                    #[trigger] versions[j],
                ))
        }),
{
    let dirs = version_dirs(dir, entries@);
    crate::lexical::lemma_sorted_lex(dirs);
}

/// How far along the procedure a state is.
pub open spec fn procedure_stage(s: NewVersionProcedureView) -> nat {
    match s {
        NewVersionProcedureView::LocateRoot => 0,
        NewVersionProcedureView::ListVersions { .. } => 1,
        NewVersionProcedureView::NameVersion { .. } => 2,
        NewVersionProcedureView::ChooseStarter { .. } => 3,
        NewVersionProcedureView::CopyTemplate { .. } => 4,
        NewVersionProcedureView::CreateEmptyDirectory { .. } => 4,
        NewVersionProcedureView::ApplyFileChanges { .. } => 5,
        NewVersionProcedureView::Done => 6,
    }
}

/// What every state reachable from the start promises: the versions on
/// offer are in lexicographic order, and a chosen new version name is a
/// version name.
pub open spec fn procedure_state_consistent(s: NewVersionProcedureView) -> bool {
    match s {
        NewVersionProcedureView::NameVersion { versions, .. } => vstd::relations::sorted_by(
            versions,
            lex_order(),
        ),
        NewVersionProcedureView::ChooseStarter { versions, next_version_name, .. } => {
            &&& vstd::relations::sorted_by(versions, lex_order())
            &&& version_name_check(next_version_name) is Ok
        },
        NewVersionProcedureView::CopyTemplate { next_version_name, .. } => version_name_check(
            next_version_name,
        ) is Ok,
        NewVersionProcedureView::ApplyFileChanges { next_version_name, .. } => version_name_check(
            next_version_name,
        ) is Ok,
        _ => true,
    }
}

/// Every state announces work to do exactly until the procedure is done.
pub proof fn lemma_procedure_entry_command_until_done(s: NewVersionProcedureView)
    ensures
        procedure_entry_command(s) is None <==> s is Done,
{
}

/// A step never goes back a stage; once done, the procedure stays done and
/// asks for nothing more; there is a next command exactly while it is not
/// done.
pub proof fn lemma_procedure_step_progress(s: NewVersionProcedureView, event: Event)
    requires
        procedure_step(s, event) is Ok,
    ensures
        procedure_stage(s) <= procedure_stage(procedure_step(s, event)->Ok_0.0),
        s is Done ==> procedure_step(s, event) == Ok::<
            (NewVersionProcedureView, Option<CommandView>),
            StepError,
        >((NewVersionProcedureView::Done, None)),
        (procedure_step(s, event)->Ok_0.1 is None) <==> (procedure_step(s, event)->Ok_0.0 is Done),
{
}

/// Every step keeps what the states promise.
pub proof fn lemma_procedure_step_keeps_consistency(s: NewVersionProcedureView, event: Event)
    requires
        procedure_state_consistent(s),
        procedure_step(s, event) is Ok,
    ensures
        procedure_state_consistent(procedure_step(s, event)->Ok_0.0),
{
    if let NewVersionProcedureView::ListVersions { root_dir } = s {
        if let Event::VersionsShown { entries } = event {
            crate::lexical::lemma_lex_total_ordering();
            version_dirs(root_dir, entries@).lemma_sort_by_ensures(lex_order());
        }
    }
}

/// The view of a step's result.
pub open spec fn procedure_step_view(r: Result<(NewVersionProcedure, Option<Command>), StepError>) -> Result<
    (NewVersionProcedureView, Option<CommandView>),
    StepError,
> {
    match r {
        Ok((s, c)) => Ok((s@, opt_command_view(c))),
        Err(e) => Err(e),
    }
}

/// A copy of a list of texts.
fn copy_strings(v: &Vec<String>) -> (r: Vec<String>)
    ensures
        string_seqs(r@) == string_seqs(v@),
{
    let mut r: Vec<String> = Vec::new();
    let mut i: usize = 0;
    while i < v.len()
        invariant
            i <= v.len(),
            string_seqs(r@) == string_seqs(v@).take(i as int),
        decreases v.len() - i,
    {
        let ghost before = r@;
        r.push(text(v[i].as_str()));
        assert(string_seqs(r@) =~= string_seqs(before).push(v@[i as int]@));
        i = i + 1;
        assert(string_seqs(r@) =~= string_seqs(v@).take(i as int));
    }
    assert(string_seqs(v@).take(i as int) =~= string_seqs(v@));
    r
}

impl NewVersionProcedure {
    /// The command that starts the work of this state (none once done).
    pub fn first_command(&self) -> (c: Option<Command>)
        ensures
            opt_command_view(c) == procedure_entry_command(self@),
    {
        match self {
            NewVersionProcedure::LocateRoot => Some(Command::LocateDictionaryRoot),
            NewVersionProcedure::ListVersions { root_dir } => Some(
                Command::ListDirectory { dir: text(root_dir.as_str()) },
            ),
            NewVersionProcedure::NameVersion { versions, next_version_number, .. } => Some(
                Command::PromptVersionName {
                    next_version_number: *next_version_number,
                    warning: None,
                },
            ),
            NewVersionProcedure::ChooseStarter { .. } => Some(Command::AskCopyExisting),
            NewVersionProcedure::CopyTemplate { next_version_dir, template_dir, .. } => Some(
                Command::CopyDirectory {
                    from: text(template_dir.as_str()),
                    to: text(next_version_dir.as_str()),
                },
            ),
            NewVersionProcedure::ApplyFileChanges { next_version_dir, .. } => Some(
                Command::ReadCargoToml { path: cargo_toml_path_of(next_version_dir.as_str()) },
            ),
            NewVersionProcedure::CreateEmptyDirectory { next_version_dir } => Some(
                Command::CreateDirectory { dir: text(next_version_dir.as_str()) },
            ),
            NewVersionProcedure::Done => None,
        }
    }

    fn enter_state(next: NewVersionProcedure) -> (r: Result<
        (NewVersionProcedure, Option<Command>),
        StepError,
    >)
        ensures
            procedure_step_view(r) == procedure_enter(next@),
    {
        let c = next.first_command();
        Ok((next, c))
    }

    /// One step: the state after `event` answered the last command, and the
    /// next command (none once done).  An index of a version to copy must
    /// lie within the list of versions that was shown.
    pub fn step(self, event: Event) -> (r: Result<(NewVersionProcedure, Option<Command>), StepError>)
        requires
            !index_out_of_range(self@, event),
        ensures
            procedure_step_view(r) == procedure_step(self@, event),
    {
        match self {
            NewVersionProcedure::LocateRoot => match event {
                Event::DictionaryRootProbed { current_dir, current_is_dir, parent_is_dir } => {
                    match get_nanuak_dictionary_root_dir_using_cwd_if_matches_or_parent_dir(
                        current_dir.as_str(),
                        current_is_dir,
                        parent_is_dir,
                    ) {
                        Err(e) => Err(StepError::RootDir(e)),
                        Ok(root) => Self::enter_state(
                            NewVersionProcedure::ListVersions { root_dir: root },
                        ),
                    }
                },
                _ => Err(StepError::UnexpectedEvent),
            },
            NewVersionProcedure::ListVersions { root_dir } => match event {
                Event::DirectoryListed { entries } => {
                    let versions = get_versions(root_dir.as_str(), entries.as_slice());
                    Ok(
                        (
                            NewVersionProcedure::ListVersions { root_dir },
                            Some(Command::ShowVersions { versions, entries }),
                        ),
                    )
                },
                Event::VersionsShown { entries } => {
                    let versions = get_versions(root_dir.as_str(), entries.as_slice());
                    match extract_next_version_number(versions.as_slice()) {
                        Err(e) => Err(StepError::NextVersion(e)),
                        Ok(n) => Self::enter_state(
                            NewVersionProcedure::NameVersion {
                                root_dir,
                                versions,
                                next_version_number: n,
                            },
                        ),
                    }
                },
                _ => Err(StepError::UnexpectedEvent),
            },
            NewVersionProcedure::NameVersion { root_dir, versions, next_version_number } => {
                match event {
                    Event::VersionNameEntered { name } => match is_valid_version_name(name.as_str()) {
                        Err(e) => {
                            Ok(
                                (
                                    NewVersionProcedure::NameVersion {
                                        root_dir,
                                        versions,
                                        next_version_number,
                                    },
                                    Some(
                                        Command::PromptVersionName {
                                            next_version_number,
                                            warning: Some(e.message()),
                                        },
                                    ),
                                ),
                            )
                        },
                        Ok(_) => {
                            let dir = join_path(root_dir.as_str(), name.as_str());
                            Ok(
                                (
                                    NewVersionProcedure::NameVersion {
                                        root_dir,
                                        versions,
                                        next_version_number,
                                    },
                                    Some(Command::CheckDirectoryExists { name, dir }),
                                ),
                            )
                        },
                    },
                    Event::DirectoryExistence { name, exists } => {
                        if is_valid_version_name(name.as_str()).is_err() {
                            return Err(StepError::UnexpectedEvent);
                        }
                        let dir = join_path(root_dir.as_str(), name.as_str());
                        if exists {
                            Ok(
                                (
                                    NewVersionProcedure::NameVersion {
                                        root_dir,
                                        versions,
                                        next_version_number,
                                    },
                                    Some(Command::ConfirmProceed { name, dir }),
                                ),
                            )
                        } else {
                            Self::enter_state(
                                NewVersionProcedure::ChooseStarter {
                                    versions,
                                    next_version_name: name,
                                    next_version_dir: dir,
                                },
                            )
                        }
                    },
                    Event::ProceedAnswered { name, proceed } => {
                        if is_valid_version_name(name.as_str()).is_err() {
                            return Err(StepError::UnexpectedEvent);
                        }
                        if !proceed {
                            return Err(StepError::UserChoseNotToProceed);
                        }
                        let dir = join_path(root_dir.as_str(), name.as_str());
                        Self::enter_state(
                            NewVersionProcedure::ChooseStarter {
                                versions,
                                next_version_name: name,
                                next_version_dir: dir,
                            },
                        )
                    },
                    _ => Err(StepError::UnexpectedEvent),
                }
            },
            NewVersionProcedure::ChooseStarter { versions, next_version_name, next_version_dir } => {
                match event {
                    Event::CopyExistingAnswered { copy } => {
                        if copy {
                            let shown = copy_strings(&versions);
                            Ok(
                                (
                                    NewVersionProcedure::ChooseStarter {
                                        versions,
                                        next_version_name,
                                        next_version_dir,
                                    },
                                    Some(Command::PromptTemplateIndex { versions: shown }),
                                ),
                            )
                        } else {
                            Self::enter_state(
                                NewVersionProcedure::CreateEmptyDirectory { next_version_dir },
                            )
                        }
                    },
                    Event::TemplateIndexEntered { index } => {
                        let template_dir = text(versions[index].as_str());
                        Self::enter_state(
                            NewVersionProcedure::CopyTemplate {
                                next_version_name,
                                next_version_dir,
                                template_dir,
                            },
                        )
                    },
                    _ => Err(StepError::UnexpectedEvent),
                }
            },
            NewVersionProcedure::CopyTemplate { next_version_name, next_version_dir, .. } => {
                match event {
                    Event::DirectoryCopied => Self::enter_state(
                        NewVersionProcedure::ApplyFileChanges { next_version_name, next_version_dir },
                    ),
                    _ => Err(StepError::UnexpectedEvent),
                }
            },
            NewVersionProcedure::ApplyFileChanges { next_version_name, next_version_dir } => {
                match event {
                    Event::CargoTomlRead { manifest } => match apply_file_changes_for_new_version_name(
                        manifest,
                        next_version_name.as_str(),
                    ) {
                        Err(e) => Err(StepError::CargoToml(e)),
                        Ok(m) => {
                            let path = cargo_toml_path_of(next_version_dir.as_str());
                            Ok(
                                (
                                    NewVersionProcedure::ApplyFileChanges {
                                        next_version_name,
                                        next_version_dir,
                                    },
                                    Some(Command::WriteCargoToml { path, manifest: m }),
                                ),
                            )
                        },
                    },
                    Event::CargoTomlWritten => Self::enter_state(NewVersionProcedure::Done),
                    _ => Err(StepError::UnexpectedEvent),
                }
            },
            NewVersionProcedure::CreateEmptyDirectory { next_version_dir } => match event {
                Event::DirectoryCreated => Self::enter_state(NewVersionProcedure::Done),
                _ => Err(StepError::UnexpectedEvent),
            },
            NewVersionProcedure::Done => Ok((NewVersionProcedure::Done, None)),
        }
    }
}

} // verus!
