//! Creating a new version from a template version, as a state machine:
//! find the workspace, number and name the new version, pick a template,
//! copy it, register the new crate in the workspace manifest, rename its
//! package, and rename it in its `main.rs`.
use vstd::prelude::*;
use crate::cargo_toml::{
    add_workspace_member, rename_package, with_package_name, with_workspace_member,
};
use crate::effects::{
    cargo_toml_path, cargo_toml_path_of, main_rs_path, main_rs_path_of, opt_command_view, Command,
    CommandView, Event, StepError,
};
use crate::lexical::lex_order;
use crate::state::State;
use crate::paths::{file_name, join_path, path_file_name_of, path_join, string_seqs};
use crate::text::{replace, replace_all, text};
use crate::versions::{
    dictionary_root_choice, extract_next_version_number, get_versions,
    get_nanuak_dictionary_root_dir_using_cwd_if_matches_or_parent_dir, is_valid_version_name,
    next_version_number_of, version_dirs, version_name_check, version_name_error_message,
};

verus! {

/// Where creating a new version stands.
#[derive(Debug)]
pub enum CreateNewVersionState {
    DetermineWorkspaceCargoTomlPath,
    IdentifyNextVersionNumber { workspace_dir: String },
    IdentifyNextVersionName { workspace_dir: String, next_version_number: usize },
    IdentifyTemplateVersion {
        workspace_dir: String,
        next_version_name: String,
        next_version_dir: String,
    },
    CreateNewVersionFromTemplate {
        workspace_dir: String,
        next_version_name: String,
        next_version_dir: String,
        template_version_name: String,
        template_version_dir: String,
    },
    UpdateWorkspaceCargoToml {
        workspace_dir: String,
        next_version_name: String,
        next_version_dir: String,
        template_version_name: String,
        template_version_dir: String,
    },
    UpdateVersionCargoToml {
        workspace_dir: String,
        next_version_name: String,
        next_version_dir: String,
        template_version_name: String,
        template_version_dir: String,
    },
    UpdateMain {
        workspace_dir: String,
        next_version_name: String,
        next_version_dir: String,
        template_version_name: String,
        template_version_dir: String,
    },
    Done,
}

/// What is known of a new version once its template is chosen.
#[derive(Debug)]
pub struct NewVersionBaseInformation {
    pub workspace_cargo_toml_path: String,
    pub next_version_number: usize,
    pub template_version_name: String,
    pub template_version_dir: String,
}

/// The new version and its template, as values.
pub struct PlanView {
    pub workspace_dir: Seq<char>,
    pub next_version_name: Seq<char>,
    pub next_version_dir: Seq<char>,
    pub template_version_name: Seq<char>,
    pub template_version_dir: Seq<char>,
}

/// A `CreateNewVersionState`, as values.
pub enum CreateNewVersionStateView {
    DetermineWorkspaceCargoTomlPath,
    IdentifyNextVersionNumber { workspace_dir: Seq<char> },
    IdentifyNextVersionName { workspace_dir: Seq<char>, next_version_number: usize },
    IdentifyTemplateVersion {
        workspace_dir: Seq<char>,
        next_version_name: Seq<char>,
        next_version_dir: Seq<char>,
    },
    CreateNewVersionFromTemplate(PlanView),
    UpdateWorkspaceCargoToml(PlanView),
    UpdateVersionCargoToml(PlanView),
    UpdateMain(PlanView),
    Done,
}

/// The plan held by a state's fields.
pub open spec fn plan_view(
    workspace_dir: String,
    next_version_name: String,
    next_version_dir: String,
    template_version_name: String,
    template_version_dir: String,
) -> PlanView {
    PlanView {
        workspace_dir: workspace_dir@,
        next_version_name: next_version_name@,
        next_version_dir: next_version_dir@,
        template_version_name: template_version_name@,
        template_version_dir: template_version_dir@,
    }
}

impl View for CreateNewVersionState {
    type V = CreateNewVersionStateView;

    open spec fn view(&self) -> CreateNewVersionStateView {
        match self {
            CreateNewVersionState::DetermineWorkspaceCargoTomlPath =>
                CreateNewVersionStateView::DetermineWorkspaceCargoTomlPath,
            CreateNewVersionState::IdentifyNextVersionNumber { workspace_dir } =>
                CreateNewVersionStateView::IdentifyNextVersionNumber {
                workspace_dir: workspace_dir@,
            },
            CreateNewVersionState::IdentifyNextVersionName {
                workspace_dir,
                next_version_number,
            } => CreateNewVersionStateView::IdentifyNextVersionName {
                workspace_dir: workspace_dir@,
                next_version_number: *next_version_number,
            },
            CreateNewVersionState::IdentifyTemplateVersion {
                workspace_dir,
                next_version_name,
                next_version_dir,
            } => CreateNewVersionStateView::IdentifyTemplateVersion {
                workspace_dir: workspace_dir@,
                next_version_name: next_version_name@,
                next_version_dir: next_version_dir@,
            },
            CreateNewVersionState::CreateNewVersionFromTemplate {
                workspace_dir,
                next_version_name,
                next_version_dir,
                template_version_name,
                template_version_dir,
            } => CreateNewVersionStateView::CreateNewVersionFromTemplate(
                plan_view(
                    *workspace_dir,
                    *next_version_name,
                    *next_version_dir,
                    *template_version_name,
                    *template_version_dir,
                ),
            ),
            CreateNewVersionState::UpdateWorkspaceCargoToml {
                workspace_dir,
                next_version_name,
                next_version_dir,
                template_version_name,
                template_version_dir,
            } => CreateNewVersionStateView::UpdateWorkspaceCargoToml(
                plan_view(
                    *workspace_dir,
                    *next_version_name,
                    *next_version_dir,
                    *template_version_name,
                    *template_version_dir,
                ),
            ),
            CreateNewVersionState::UpdateVersionCargoToml {
                workspace_dir,
                next_version_name,
                next_version_dir,
                template_version_name,
                template_version_dir,
            } => CreateNewVersionStateView::UpdateVersionCargoToml(
                plan_view(
                    *workspace_dir,
                    *next_version_name,
                    *next_version_dir,
                    *template_version_name,
                    *template_version_dir,
                ),
            ),
            CreateNewVersionState::UpdateMain {
                workspace_dir,
                next_version_name,
                next_version_dir,
                template_version_name,
                template_version_dir,
            } => CreateNewVersionStateView::UpdateMain(
                plan_view(
                    *workspace_dir,
                    *next_version_name,
                    *next_version_dir,
                    *template_version_name,
                    *template_version_dir,
                ),
            ),
            CreateNewVersionState::Done => CreateNewVersionStateView::Done,
        }
    }
}

/// What each state describes itself as.
pub open spec fn create_new_version_description(s: CreateNewVersionStateView) -> Seq<char> {
    match s {
        CreateNewVersionStateView::DetermineWorkspaceCargoTomlPath =>
            "Determine workspace Cargo.toml path"@,
        CreateNewVersionStateView::IdentifyNextVersionNumber { .. } =>
            "Identify next version number"@,
        CreateNewVersionStateView::IdentifyNextVersionName { .. } => "Identify next version name"@,
        CreateNewVersionStateView::IdentifyTemplateVersion { .. } => "Identify template version"@,
        CreateNewVersionStateView::CreateNewVersionFromTemplate(_) =>
            "Create new version from template"@,
        CreateNewVersionStateView::UpdateWorkspaceCargoToml(_) => "Update workspace Cargo.toml"@,
        CreateNewVersionStateView::UpdateVersionCargoToml(_) => "Update version Cargo.toml"@,
        CreateNewVersionStateView::UpdateMain(_) => "Update main"@,
        CreateNewVersionStateView::Done => "Done"@,
    }
}

/// The command that starts the work of a state.
pub open spec fn create_new_version_entry_command(s: CreateNewVersionStateView) -> Option<
    CommandView,
> {
    match s {
        CreateNewVersionStateView::DetermineWorkspaceCargoTomlPath => Some(
            CommandView::LocateDictionaryRoot,
        ),
        CreateNewVersionStateView::IdentifyNextVersionNumber { workspace_dir } => Some(
            CommandView::ListDirectory { dir: workspace_dir },
        ),
        CreateNewVersionStateView::IdentifyNextVersionName { next_version_number, .. } => Some(
            CommandView::PromptVersionName { next_version_number, warning: None },
        ),
        CreateNewVersionStateView::IdentifyTemplateVersion { workspace_dir, .. } => Some(
            CommandView::ListDirectory { dir: workspace_dir },
        ),
        CreateNewVersionStateView::CreateNewVersionFromTemplate(p) => Some(
            CommandView::CopyDirectory { from: p.template_version_dir, to: p.next_version_dir },
        ),
        CreateNewVersionStateView::UpdateWorkspaceCargoToml(p) => Some(
            CommandView::CheckFileExists { path: cargo_toml_path(p.workspace_dir) },
        ),
        CreateNewVersionStateView::UpdateVersionCargoToml(p) => Some(
            CommandView::ReadCargoToml { path: cargo_toml_path(p.next_version_dir) },
        ),
        CreateNewVersionStateView::UpdateMain(p) => Some(
            CommandView::ReadText { path: main_rs_path(p.next_version_dir) },
        ),
        CreateNewVersionStateView::Done => None,
    }
}

/// Moving to state `s`, with the command that starts its work.
pub open spec fn enter(s: CreateNewVersionStateView) -> Result<
    (CreateNewVersionStateView, Option<CommandView>),
    StepError,
> {
    Ok((s, create_new_version_entry_command(s)))
}

/// Staying in state `s`, with command `c`.
pub open spec fn stay(s: CreateNewVersionStateView, c: CommandView) -> Result<
    (CreateNewVersionStateView, Option<CommandView>),
    StepError,
> {
    Ok((s, Some(c)))
}

/// The state entered once a valid new version name is settled.
pub open spec fn template_stage(workspace_dir: Seq<char>, name: Seq<char>) -> CreateNewVersionStateView {
    CreateNewVersionStateView::IdentifyTemplateVersion {
        workspace_dir,
        next_version_name: name,
        next_version_dir: path_join(workspace_dir, name),
    }
}

/// One step of creating a version: the state after `event` answered the
/// last command given in state `s`, and the next command (none once done).
pub open spec fn create_new_version_step(s: CreateNewVersionStateView, event: Event) -> Result<
    (CreateNewVersionStateView, Option<CommandView>),
    StepError,
> {
    match s {
        CreateNewVersionStateView::DetermineWorkspaceCargoTomlPath => match event {
            Event::DictionaryRootProbed { current_dir, current_is_dir, parent_is_dir } => match
                dictionary_root_choice(current_dir@, current_is_dir, parent_is_dir) {
                Err(e) => Err(StepError::RootDir(e)),
                Ok(root) => enter(
                    CreateNewVersionStateView::IdentifyNextVersionNumber { workspace_dir: root },
                ),
            },
            _ => Err(StepError::UnexpectedEvent),
        },
        CreateNewVersionStateView::IdentifyNextVersionNumber { workspace_dir } => match event {
            Event::DirectoryListed { entries } => stay(
                s,
                CommandView::ShowVersions {
                    versions: version_dirs(workspace_dir, entries@).sort_by(lex_order()),
                    entries: entries@,
                },
            ),
            Event::VersionsShown { entries } => {
                let versions = version_dirs(workspace_dir, entries@).sort_by(lex_order());
                match next_version_number_of(versions) {
                    Err(e) => Err(StepError::NextVersion(e)),
                    Ok(n) => enter(
                        CreateNewVersionStateView::IdentifyNextVersionName {
                            workspace_dir,
                            next_version_number: n,
                        },
                    ),
                }
            },
            _ => Err(StepError::UnexpectedEvent),
        },
        CreateNewVersionStateView::IdentifyNextVersionName {
            workspace_dir,
            next_version_number,
        } => match event {
            Event::VersionNameEntered { name } => match version_name_check(name@) {
                Err(e) => stay(
                    s,
                    CommandView::PromptVersionName {
                        next_version_number,
                        warning: Some(version_name_error_message(e)),
                    },
                ),
                Ok(_) => stay(
                    s,
                    CommandView::CheckDirectoryExists {
                        name: name@,
                        dir: path_join(workspace_dir, name@),
                    },
                ),
            },
            Event::DirectoryExistence { name, exists } => if version_name_check(name@) is Err {
                Err(StepError::UnexpectedEvent)
            } else if exists {
                stay(
                    s,
                    CommandView::ConfirmProceed {
                        name: name@,
                        dir: path_join(workspace_dir, name@),
                    },
                )
            } else {
                enter(template_stage(workspace_dir, name@))
            },
            Event::ProceedAnswered { name, proceed } => if version_name_check(name@) is Err {
                Err(StepError::UnexpectedEvent)
            } else if !proceed {
                Err(StepError::UserChoseNotToProceed)
            } else {
                enter(template_stage(workspace_dir, name@))
            },
            _ => Err(StepError::UnexpectedEvent),
        },
        CreateNewVersionStateView::IdentifyTemplateVersion {
            workspace_dir,
            next_version_name,
            next_version_dir,
        } => match event {
            Event::DirectoryListed { entries } => stay(
                s,
                CommandView::PickTemplate {
                    choices: version_dirs(workspace_dir, entries@).sort_by(lex_order()).reverse(),
                },
            ),
            Event::TemplatePicked { template_dir } => match path_file_name_of(template_dir@) {
                None => Err(StepError::NoTemplateFileName),
                Some(template_name) => enter(
                    CreateNewVersionStateView::CreateNewVersionFromTemplate(
                        PlanView {
                            workspace_dir,
                            next_version_name,
                            next_version_dir,
                            template_version_name: template_name,
                            template_version_dir: template_dir@,
                        },
                    ),
                ),
            },
            _ => Err(StepError::UnexpectedEvent),
        },
        CreateNewVersionStateView::CreateNewVersionFromTemplate(p) => match event {
            Event::DirectoryCopied => enter(CreateNewVersionStateView::UpdateWorkspaceCargoToml(p)),
            _ => Err(StepError::UnexpectedEvent),
        },
        CreateNewVersionStateView::UpdateWorkspaceCargoToml(p) => match event {
            Event::FileExistence { exists } => if exists {
                stay(s, CommandView::ReadCargoToml { path: cargo_toml_path(p.workspace_dir) })
            } else {
                Err(StepError::WorkspaceCargoTomlNotFound)
            },
            Event::CargoTomlRead { manifest } => match with_workspace_member(
                manifest@,
                p.next_version_name,
            ) {
                Err(e) => Err(StepError::CargoToml(e)),
                Ok(m) => stay(
                    s,
                    CommandView::WriteCargoToml {
                        path: cargo_toml_path(p.workspace_dir),
                        manifest: m,
                    },
                ),
            },
            Event::CargoTomlWritten => enter(CreateNewVersionStateView::UpdateVersionCargoToml(p)),
            _ => Err(StepError::UnexpectedEvent),
        },
        CreateNewVersionStateView::UpdateVersionCargoToml(p) => match event {
            Event::CargoTomlRead { manifest } => match with_package_name(
                manifest@,
                p.next_version_name,
            ) {
                Err(e) => Err(StepError::CargoToml(e)),
                Ok(m) => stay(
                    s,
                    CommandView::WriteCargoToml {
                        path: cargo_toml_path(p.next_version_dir),
                        manifest: m,
                    },
                ),
            },
            Event::CargoTomlWritten => enter(CreateNewVersionStateView::UpdateMain(p)),
            _ => Err(StepError::UnexpectedEvent),
        },
        CreateNewVersionStateView::UpdateMain(p) => match event {
            Event::TextRead { contents } => stay(
                s,
                CommandView::WriteText {
                    path: main_rs_path(p.next_version_dir),
                    contents: replace_all(
                        contents@,
                        p.template_version_name,
                        p.next_version_name,
                    ),
                },
            ),
            Event::TextWritten => enter(CreateNewVersionStateView::Done),
            _ => Err(StepError::UnexpectedEvent),
        },
        CreateNewVersionStateView::Done => Ok((CreateNewVersionStateView::Done, None)),
    }
}

/// Once a valid new version name is entered and its directory found to
/// exist, the answer to "proceed?" decides: a refusal ends the creation with
/// `UserChoseNotToProceed`, a consent moves on to picking a template for that
/// name in the workspace, listing the workspace directory.  A directory that
/// does not exist moves on in the same way without asking.
pub proof fn lemma_create_proceed_answer(
    workspace_dir: Seq<char>,
    next_version_number: usize,
    name: String,
    proceed: bool,
)
    requires
        version_name_check(name@) is Ok,
    ensures
        ({
            let s = CreateNewVersionStateView::IdentifyNextVersionName {
                workspace_dir,
                next_version_number,
            };
            let chosen = CreateNewVersionStateView::IdentifyTemplateVersion {
                workspace_dir: workspace_dir,
                next_version_name: name@,
                next_version_dir: path_join(workspace_dir, name@),
            };
            &&& !proceed ==> create_new_version_step(s, Event::ProceedAnswered { name, proceed })
                == Err::<(CreateNewVersionStateView, Option<CommandView>), StepError>(
                StepError::UserChoseNotToProceed,
            )
            &&& proceed ==> create_new_version_step(s, Event::ProceedAnswered { name, proceed })
                == Ok::<(CreateNewVersionStateView, Option<CommandView>), StepError>(
                (chosen, Some(CommandView::ListDirectory { dir: workspace_dir })),
            )
            &&& (create_new_version_step(s, Event::ProceedAnswered { name, proceed }) is Err
                <==> !proceed)
            &&& create_new_version_step(s, Event::DirectoryExistence { name, exists: false })
                == Ok::<(CreateNewVersionStateView, Option<CommandView>), StepError>(
                (chosen, Some(CommandView::ListDirectory { dir: workspace_dir })),
            )
        }),
{
}

/// Registering the new version in the workspace: a workspace manifest in
/// which no dependency carries exactly the new version's name is written
/// back to the workspace's `Cargo.toml` with the new version appended to its
/// members and a dependency on its directory appended to its table, the
/// rest unchanged; a manifest without a workspace, or with that dependency
/// already, stops the creation with the manifest's error.
pub proof fn lemma_create_registers_version(p: PlanView, manifest: crate::cargo_toml::CargoToml)
    ensures
        ({
            let s = CreateNewVersionStateView::UpdateWorkspaceCargoToml(p);
            let r = create_new_version_step(s, Event::CargoTomlRead { manifest });
            let m = manifest@;
            let name = p.next_version_name;
            &&& m.workspace is None ==> r == Err::<(CreateNewVersionStateView, Option<CommandView>), StepError>(
                StepError::CargoToml(crate::cargo_toml::CargoTomlError::NoWorkspace),
            )
            &&& (m.workspace is Some && exists|i: int|
                0 <= i < m.workspace->0.dependencies.len()
                    && (#[trigger] m.workspace->0.dependencies[i]).0 == name) ==> r == Err::<
                (CreateNewVersionStateView, Option<CommandView>),
                StepError,
            >(StepError::CargoToml(crate::cargo_toml::CargoTomlError::DependencyAlreadyExists))
            &&& (m.workspace is Some && forall|i: int|
                0 <= i < m.workspace->0.dependencies.len()
                    ==> (#[trigger] m.workspace->0.dependencies[i]).0 != name) ==> r == Ok::<
                (CreateNewVersionStateView, Option<CommandView>),
                StepError,
            >(
                (
                    s,
                    Some(
                        CommandView::WriteCargoToml {
                            path: cargo_toml_path(p.workspace_dir),
                            manifest: crate::cargo_toml::CargoTomlView {
                                package: m.package,
                                workspace: Some(
                                    crate::cargo_toml::WorkspaceView {
                                        members: m.workspace->0.members.push(name),
                                        dependencies: m.workspace->0.dependencies.push(
                                            (
                                                name,
                                                crate::cargo_toml::DependencyView::Path {
                                                    path: name,
                                                    features: None,
                                                },
                                            ),
                                        ),
                                    },
                                ),
                                dependencies: m.dependencies,
                                dev_dependencies: m.dev_dependencies,
                            },
                        },
                    ),
                ),
            )
        }),
{
    crate::cargo_toml::lemma_add_member_errors(manifest@, p.next_version_name);
    if manifest@.workspace is Some && forall|i: int|
        0 <= i < manifest@.workspace->0.dependencies.len()
            ==> (#[trigger] manifest@.workspace->0.dependencies[i]).0 != p.next_version_name {
        crate::cargo_toml::lemma_add_member_succeeds_unless_name_taken(manifest@, p.next_version_name);
    }
}

/// Naming the new version's crate: a manifest with a package is written
/// back to the new version's `Cargo.toml` with the package renamed to the
/// new version's name and nothing else changed; one without a package stops
/// the creation with `MissingPackage`.
pub proof fn lemma_create_renames_version_crate(p: PlanView, manifest: crate::cargo_toml::CargoToml)
    ensures
        ({
            let s = CreateNewVersionStateView::UpdateVersionCargoToml(p);
            let r = create_new_version_step(s, Event::CargoTomlRead { manifest });
            let m = manifest@;
            &&& m.package is None ==> r == Err::<(CreateNewVersionStateView, Option<CommandView>), StepError>(
                StepError::CargoToml(crate::cargo_toml::CargoTomlError::MissingPackage),
            )
            &&& m.package is Some ==> r == Ok::<(CreateNewVersionStateView, Option<CommandView>), StepError>(
                (
                    s,
                    Some(
                        CommandView::WriteCargoToml {
                            path: cargo_toml_path(p.next_version_dir),
                            manifest: crate::cargo_toml::CargoTomlView {
                                package: Some(
                                    crate::cargo_toml::PackageView {
                                        name: p.next_version_name,
                                        version: m.package->0.version,
                                        edition: m.package->0.edition,
                                    },
                                ),
                                workspace: m.workspace,
                                dependencies: m.dependencies,
                                dev_dependencies: m.dev_dependencies,
                            },
                        },
                    ),
                ),
            )
        }),
{
    crate::cargo_toml::lemma_rename_changes_name_only(manifest@, p.next_version_name);
}

/// Updating the new version's `main.rs`: the text read is written back to
/// the new version's `main.rs` with every occurrence of the template's name
/// replaced by the new version's name; text without the template's name is
/// written back as it was.
pub proof fn lemma_create_rewrites_main(p: PlanView, contents: String)
    ensures
        ({
            let s = CreateNewVersionStateView::UpdateMain(p);
            let r = create_new_version_step(s, Event::TextRead { contents });
            &&& r == Ok::<(CreateNewVersionStateView, Option<CommandView>), StepError>(
                (
                    s,
                    Some(
                        CommandView::WriteText {
                            path: main_rs_path(p.next_version_dir),
                            contents: replace_all(
                                contents@,
                                p.template_version_name,
                                p.next_version_name,
                            ),
                        },
                    ),
                ),
            )
            &&& p.template_version_name.len() > 0 && !crate::text::occurs_in(
                contents@,
                p.template_version_name,
            ) ==> r == Ok::<(CreateNewVersionStateView, Option<CommandView>), StepError>(
                (
                    s,
                    Some(
                        CommandView::WriteText {
                            path: main_rs_path(p.next_version_dir),
                            contents: contents@,
                        },
                    ),
                ),
            )
        }),
{
    if p.template_version_name.len() > 0 && !crate::text::occurs_in(
        contents@,
        p.template_version_name,
    ) {
        crate::text::lemma_replace_absent(contents@, p.template_version_name, p.next_version_name);
    }
}

/// Numbering the new version: once the versions are shown, the creation
/// asks for the name of the version whose number is one more than that of
/// the version that comes last in lexicographic order among the workspace's
/// version directories; with none, it stops with `NoVersionsFound`.
pub proof fn lemma_create_numbers_after_greatest(
    workspace_dir: Seq<char>,
    entries: Vec<crate::versions::DirEntry>,
    m: usize,
)
    ensures
        ({
            let s = CreateNewVersionStateView::IdentifyNextVersionNumber { workspace_dir };
            let r = create_new_version_step(s, Event::VersionsShown { entries });
            let dirs = version_dirs(workspace_dir, entries@);
            &&& dirs.len() == 0 ==> r == Err::<(CreateNewVersionStateView, Option<CommandView>), StepError>(
                StepError::NextVersion(crate::versions::NextVersionError::NoVersionsFound),
            )
            &&& r == Ok::<(CreateNewVersionStateView, Option<CommandView>), StepError>(
                (
                    CreateNewVersionStateView::IdentifyNextVersionName {
                        workspace_dir,
                        next_version_number: m,
                    },
                    Some(CommandView::PromptVersionName { next_version_number: m, warning: None }),
                ),
            ) <==> (exists|d: Seq<char>|
                #[trigger] dirs.contains(d) && (forall|q: Seq<char>|
                    #[trigger] dirs.contains(q) ==> crate::lexical::lex_le(q, d))
                    && path_file_name_of(d) is Some && crate::versions::version_number_of(
                    path_file_name_of(d)->0,
                ) is Ok && m == crate::versions::version_number_of(path_file_name_of(d)->0)->Ok_0
                    + 1)
        }),
{
    let dirs = version_dirs(workspace_dir, entries@);
    crate::versions::lemma_next_version_after_greatest(dirs, m);
    if exists|d: Seq<char>|
        #[trigger] dirs.contains(d) && (forall|q: Seq<char>|
            #[trigger] dirs.contains(q) ==> crate::lexical::lex_le(q, d)) && path_file_name_of(d) is Some
            && crate::versions::version_number_of(path_file_name_of(d)->0) is Ok && m
            == crate::versions::version_number_of(path_file_name_of(d)->0)->Ok_0 + 1 {
        let d = choose|d: Seq<char>|
            #[trigger] dirs.contains(d) && (forall|q: Seq<char>|
                #[trigger] dirs.contains(q) ==> crate::lexical::lex_le(q, d)) && path_file_name_of(d) is Some
                && crate::versions::version_number_of(path_file_name_of(d)->0) is Ok && m
                == crate::versions::version_number_of(path_file_name_of(d)->0)->Ok_0 + 1;
        crate::versions::lemma_greatest_is_last_sorted(dirs, d);
    }
}

/// Locating the dictionary's root: the root chosen from the current
/// directory and its parent is the directory listed next, and a directory
/// listed next is a directory named `Nanuak-Dictionary`, the current one or
/// its parent; where none is found, the step fails with the reason.
pub proof fn lemma_create_locates_root(
    current_dir: String,
    current_is_dir: bool,
    parent_is_dir: bool,
    root: Seq<char>,
    e: crate::versions::RootDirError,
)
    ensures
        ({
            let r = create_new_version_step(
                CreateNewVersionStateView::DetermineWorkspaceCargoTomlPath,
                Event::DictionaryRootProbed { current_dir, current_is_dir, parent_is_dir },
            );
            let choice = dictionary_root_choice(current_dir@, current_is_dir, parent_is_dir);
            &&& choice == Ok::<Seq<char>, crate::versions::RootDirError>(root) ==> r == Ok::<
                (CreateNewVersionStateView, Option<CommandView>),
                StepError,
            >(
                (
                    CreateNewVersionStateView::IdentifyNextVersionNumber { workspace_dir: root },
                    Some(CommandView::ListDirectory { dir: root }),
                ),
            )
            &&& choice == Err::<Seq<char>, crate::versions::RootDirError>(e) ==> r == Err::<
                (CreateNewVersionStateView, Option<CommandView>),
                StepError,
            >(StepError::RootDir(e))
            &&& r == Ok::<(CreateNewVersionStateView, Option<CommandView>), StepError>(
                (
                    CreateNewVersionStateView::IdentifyNextVersionNumber { workspace_dir: root },
                    Some(CommandView::ListDirectory { dir: root }),
                ),
            ) ==> crate::paths::path_file_name_of(root) == Some(
                crate::versions::dictionary_root_name(),
            ) && ((root == current_dir@ && current_is_dir) || (Some(root)
                == crate::paths::path_parent_of(current_dir@) && parent_is_dir))
        }),
{
    if dictionary_root_choice(current_dir@, current_is_dir, parent_is_dir) is Ok {
        crate::versions::lemma_dictionary_root_found(current_dir@, current_is_dir, parent_is_dir);
    }
}

/// Entering a name for the new version: a name that breaks a rule of
/// version names is asked for again, with the message of the rule it
/// breaks; a version name goes on to find whether its directory exists;
/// where it does, the user is asked whether to go on.
pub proof fn lemma_create_name_entry(
    dir: Seq<char>,
    next_version_number: usize,
    name: String,
    err: crate::versions::VersionNameError,
)
    ensures
        ({
            let s = CreateNewVersionStateView::IdentifyNextVersionName { workspace_dir: dir, next_version_number };
            &&& version_name_check(name@) == Err::<(), crate::versions::VersionNameError>(err)
                ==> create_new_version_step(s, Event::VersionNameEntered { name }) == Ok::<
                (CreateNewVersionStateView, Option<CommandView>),
                StepError,
            >(
                (
                    s,
                    Some(
                        CommandView::PromptVersionName {
                            next_version_number,
                            warning: Some(version_name_error_message(err)),
                        },
                    ),
                ),
            )
            &&& version_name_check(name@) is Ok ==> create_new_version_step(
                s,
                Event::VersionNameEntered { name },
            ) == Ok::<(CreateNewVersionStateView, Option<CommandView>), StepError>(
                (s, Some(CommandView::CheckDirectoryExists { name: name@, dir: path_join(dir, name@) })),
            )
            &&& version_name_check(name@) is Ok ==> create_new_version_step(
                s,
                Event::DirectoryExistence { name, exists: true },
            ) == Ok::<(CreateNewVersionStateView, Option<CommandView>), StepError>(
                (s, Some(CommandView::ConfirmProceed { name: name@, dir: path_join(dir, name@) })),
            )
        }),
{
}

/// Picking the template: the workspace's version directories are offered
/// newest first (in reverse lexicographic order), each as often as it is
/// listed; the directory picked is copied to the new version's directory,
/// and its file name becomes the template's name (a path without one stops
/// the creation).
pub proof fn lemma_create_template_pick(
    workspace_dir: Seq<char>,
    next_version_name: Seq<char>,
    next_version_dir: Seq<char>,
    entries: Vec<crate::versions::DirEntry>,
    template_dir: String,
    template_name: Seq<char>,
)
    ensures
        ({
            let s = CreateNewVersionStateView::IdentifyTemplateVersion {
                workspace_dir,
                next_version_name,
                next_version_dir,
            };
            let listed = create_new_version_step(s, Event::DirectoryListed { entries });
            let dirs = version_dirs(workspace_dir, entries@);
            let picked = create_new_version_step(s, Event::TemplatePicked { template_dir });
            &&& listed is Ok && listed->Ok_0.0 == s
            &&& listed->Ok_0.1 matches Some(CommandView::PickTemplate { choices }) && choices.to_multiset()
                == dirs.to_multiset() && (forall|i: int, j: int|
                0 <= i < j < choices.len() ==> crate::lexical::lex_le(
                    #[trigger] choices[j],
                    #[trigger] choices[i],
                ))
            &&& path_file_name_of(template_dir@) == Some(template_name) ==> picked == Ok::<
                (CreateNewVersionStateView, Option<CommandView>),
                StepError,
            >(
                (
                    CreateNewVersionStateView::CreateNewVersionFromTemplate(
                        PlanView {
                            workspace_dir,
                            next_version_name,
                            next_version_dir,
                            template_version_name: template_name,
                            template_version_dir: template_dir@,
                        },
                    ),
                    Some(CommandView::CopyDirectory { from: template_dir@, to: next_version_dir }),
                ),
            )
            &&& path_file_name_of(template_dir@) is None ==> picked == Err::<
                (CreateNewVersionStateView, Option<CommandView>),
                StepError,
            >(StepError::NoTemplateFileName)
        }),
{
    let dirs = version_dirs(workspace_dir, entries@);
    let sorted = dirs.sort_by(lex_order());
    crate::lexical::lemma_sorted_lex(dirs);
    let choices = sorted.reverse();
    sorted.lemma_reverse_to_multiset();
    dirs.to_multiset_ensures();
    sorted.to_multiset_ensures();
    assert forall|i: int, j: int| 0 <= i < j < choices.len() implies crate::lexical::lex_le(
        #[trigger] choices[j],
        #[trigger] choices[i],
    ) by {
        let a = sorted.len() - 1 - j;
        let b = sorted.len() - 1 - i;
        assert(choices[j] == sorted[a]);
        assert(choices[i] == sorted[b]);
        assert(crate::lexical::lex_le(sorted[a], sorted[b]));
    }
}

/// Listing the versions: once the directory is listed, what is shown is
/// the listing itself and its version directories (the children that are
/// directories with version names, below the directory), each as often as
/// it is listed, in lexicographic order.
pub proof fn lemma_create_shows_versions(dir: Seq<char>, entries: Vec<crate::versions::DirEntry>)
    ensures
        ({
            let s = CreateNewVersionStateView::IdentifyNextVersionNumber { workspace_dir: dir };
            let r = create_new_version_step(s, Event::DirectoryListed { entries });
            let dirs = version_dirs(dir, entries@);
            &&& r is Ok && r->Ok_0.0 == s
            &&& r->Ok_0.1 matches Some(CommandView::ShowVersions { versions, entries: shown })
                && shown == entries@ && versions.to_multiset() == dirs.to_multiset() && (forall|i: int, j: int|
                0 <= i < j < versions.len() ==> crate::lexical::lex_le(
                    #[trigger] versions[i],
                    #[trigger] versions[j],
                ))
        }),
{
    crate::lexical::lemma_sorted_lex(version_dirs(dir, entries@));
}

/// How far along creating a version a state is.
pub open spec fn create_stage(s: CreateNewVersionStateView) -> nat {
    match s {
        CreateNewVersionStateView::DetermineWorkspaceCargoTomlPath => 0,
        CreateNewVersionStateView::IdentifyNextVersionNumber { .. } => 1,
        CreateNewVersionStateView::IdentifyNextVersionName { .. } => 2,
        CreateNewVersionStateView::IdentifyTemplateVersion { .. } => 3,
        CreateNewVersionStateView::CreateNewVersionFromTemplate(_) => 4,
        CreateNewVersionStateView::UpdateWorkspaceCargoToml(_) => 5,
        CreateNewVersionStateView::UpdateVersionCargoToml(_) => 6,
        CreateNewVersionStateView::UpdateMain(_) => 7,
        CreateNewVersionStateView::Done => 8,
    }
}

/// What a plan promises: the new version's name is a version name, its
/// directory is the workspace directory joined with that name, and the
/// template's name is the file name of the template's directory.
pub open spec fn plan_consistent(p: PlanView) -> bool {
    &&& version_name_check(p.next_version_name) is Ok
    &&& p.next_version_dir == path_join(p.workspace_dir, p.next_version_name)
    &&& path_file_name_of(p.template_version_dir) == Some(p.template_version_name)
}

/// The plan a state carries, if it carries one.
pub open spec fn plan_of(s: CreateNewVersionStateView) -> Option<PlanView> {
    match s {
        CreateNewVersionStateView::CreateNewVersionFromTemplate(p) => Some(p),
        CreateNewVersionStateView::UpdateWorkspaceCargoToml(p) => Some(p),
        CreateNewVersionStateView::UpdateVersionCargoToml(p) => Some(p),
        CreateNewVersionStateView::UpdateMain(p) => Some(p),
        _ => None,
    }
}

/// What every state reachable from the start promises of the new version.
pub open spec fn create_state_consistent(s: CreateNewVersionStateView) -> bool {
    match s {
        CreateNewVersionStateView::IdentifyTemplateVersion {
            workspace_dir,
            next_version_name,
            next_version_dir,
        } => version_name_check(next_version_name) is Ok && next_version_dir == path_join(
            workspace_dir,
            next_version_name,
        ),
        _ => match plan_of(s) {
            Some(p) => plan_consistent(p),
            None => true,
        },
    }
}

/// Every state announces work to do exactly until it is done.
pub proof fn lemma_create_entry_command_until_done(s: CreateNewVersionStateView)
    ensures
        create_new_version_entry_command(s) is None <==> s is Done,
{
}

/// A step never goes back a stage and skips none; once done, creating a
/// version stays done and asks for nothing more.
pub proof fn lemma_create_step_progress(s: CreateNewVersionStateView, event: Event)
    requires
        create_new_version_step(s, event) is Ok,
    ensures
        create_stage(s) <= create_stage(create_new_version_step(s, event)->Ok_0.0) <= create_stage(s)
            + 1,
        s is Done ==> create_new_version_step(s, event) == Ok::<
            (CreateNewVersionStateView, Option<CommandView>),
            StepError,
        >((CreateNewVersionStateView::Done, None)),
{
}

/// After a step there is a next command exactly when creating the version
/// is not done.
pub proof fn lemma_create_step_command_until_done(s: CreateNewVersionStateView, event: Event)
    requires
        create_new_version_step(s, event) is Ok,
    ensures
        (create_new_version_step(s, event)->Ok_0.1 is None) <==> (create_new_version_step(
            s,
            event,
        )->Ok_0.0 is Done),
{
}

/// Every step keeps what the states promise of the new version, and once
/// the plan is fixed no step changes it.
pub proof fn lemma_create_step_keeps_plan(s: CreateNewVersionStateView, event: Event)
    requires
        create_state_consistent(s),
        create_new_version_step(s, event) is Ok,
    ensures
        create_state_consistent(create_new_version_step(s, event)->Ok_0.0),
        plan_of(s) is Some ==> (create_new_version_step(s, event)->Ok_0.0 is Done || plan_of(
            create_new_version_step(s, event)->Ok_0.0,
        ) == plan_of(s)),
{
}

/// The workspace directory a state holds, if it holds one.
pub open spec fn workspace_dir_of(s: CreateNewVersionStateView) -> Option<Seq<char>> {
    match s {
        CreateNewVersionStateView::IdentifyNextVersionNumber { workspace_dir } => Some(workspace_dir),
        CreateNewVersionStateView::IdentifyNextVersionName { workspace_dir, .. } => Some(workspace_dir),
        CreateNewVersionStateView::IdentifyTemplateVersion { workspace_dir, .. } => Some(workspace_dir),
        _ => match plan_of(s) {
            Some(p) => Some(p.workspace_dir),
            None => None,
        },
    }
}

/// The new version's name a state holds, if it holds one.
pub open spec fn next_version_name_of(s: CreateNewVersionStateView) -> Option<Seq<char>> {
    match s {
        CreateNewVersionStateView::IdentifyTemplateVersion { next_version_name, .. } => Some(
            next_version_name,
        ),
        _ => match plan_of(s) {
            Some(p) => Some(p.next_version_name),
            None => None,
        },
    }
}

/// The new version's directory a state holds, if it holds one.
pub open spec fn next_version_dir_of(s: CreateNewVersionStateView) -> Option<Seq<char>> {
    match s {
        CreateNewVersionStateView::IdentifyTemplateVersion { next_version_dir, .. } => Some(
            next_version_dir,
        ),
        _ => match plan_of(s) {
            Some(p) => Some(p.next_version_dir),
            None => None,
        },
    }
}

/// Every step keeps the value of each field that the states before and
/// after it both hold (the workspace directory, the new version's name and
/// directory, and the template's name and directory).
pub proof fn lemma_create_step_keeps_shared_fields(s: CreateNewVersionStateView, event: Event)
    requires
        create_new_version_step(s, event) is Ok,
    ensures
        ({
            let t = create_new_version_step(s, event)->Ok_0.0;
            &&& workspace_dir_of(s) is Some && workspace_dir_of(t) is Some ==> workspace_dir_of(s)
                == workspace_dir_of(t)
            &&& next_version_name_of(s) is Some && next_version_name_of(t) is Some
                ==> next_version_name_of(s) == next_version_name_of(t)
            &&& next_version_dir_of(s) is Some && next_version_dir_of(t) is Some
                ==> next_version_dir_of(s) == next_version_dir_of(t)
            &&& plan_of(s) is Some && plan_of(t) is Some ==> plan_of(s) == plan_of(t)
        }),
{
}

/// One step of creating a version as a partial function of states.
pub open spec fn create_step_fn() -> spec_fn(CreateNewVersionStateView, Event) -> Option<
    CreateNewVersionStateView,
> {
    |s: CreateNewVersionStateView, e: Event|
        match create_new_version_step(s, e) {
            Ok(p) => Some(p.0),
            Err(_) => None,
        }
}

/// The stage of a state, as a function.
pub open spec fn create_stage_fn() -> spec_fn(CreateNewVersionStateView) -> nat {
    |s: CreateNewVersionStateView| create_stage(s)
}

/// A run of the version-creating machine from its first state moves through
/// the stages in order, each stage at most one further than the last, none
/// coming back once left; a run that ends done has moved on exactly eight
/// times: Determine workspace Cargo.toml path, Identify next version number,
/// Identify next version name, Identify template version, Create new version
/// from template, Update workspace Cargo.toml, Update version Cargo.toml,
/// Update main, Done.
pub proof fn lemma_create_run_from_start(events: Seq<Event>)
    ensures
        ({
            let states = crate::runs::run(
                create_step_fn(),
                CreateNewVersionStateView::DetermineWorkspaceCargoTomlPath,
                events,
            );
            &&& forall|i: int, j: int|
                0 <= i <= j < states.len() ==> create_stage(#[trigger] states[i]) <= create_stage(
                    #[trigger] states[j],
                )
            &&& forall|i: int|
                0 <= i < states.len() - 1 ==> create_stage(#[trigger] states[i + 1]) <= create_stage(
                    states[i],
                ) + 1
            &&& states.last() is Done ==> crate::runs::stage_changes(create_stage_fn(), states) == 8
        }),
{
    let step = create_step_fn();
    let stage = create_stage_fn();
    assert forall|s: CreateNewVersionStateView, e: Event| #[trigger] step(s, e) is Some implies stage(s)
        <= stage(step(s, e)->0) <= stage(s) + 1 by {
        lemma_create_step_progress(s, e);
    }
    crate::runs::lemma_run_stages(
        step,
        stage,
        CreateNewVersionStateView::DetermineWorkspaceCargoTomlPath,
        events,
    );
    let states = crate::runs::run(
        step,
        CreateNewVersionStateView::DetermineWorkspaceCargoTomlPath,
        events,
    );
    assert forall|i: int, j: int| 0 <= i <= j < states.len() implies create_stage(
        #[trigger] states[i],
    ) <= create_stage(#[trigger] states[j]) by {
        assert(stage(states[i]) <= stage(states[j]));
    }
    assert forall|i: int| 0 <= i < states.len() - 1 implies create_stage(#[trigger] states[i + 1])
        <= create_stage(states[i]) + 1 by {
        assert(stage(states[i + 1]) <= stage(states[i]) + 1);
    }
    assert(stage(states.last()) == create_stage(states.last()));
}

/// The view of a step's result.
pub open spec fn step_view(r: Result<(CreateNewVersionState, Option<Command>), StepError>) -> Result<
    (CreateNewVersionStateView, Option<CommandView>),
    StepError,
> {
    match r {
        Ok((s, c)) => Ok((s@, opt_command_view(c))),
        Err(e) => Err(e),
    }
}

/// `versions` in the opposite order.
fn reversed(versions: Vec<String>) -> (r: Vec<String>)
    ensures
        string_seqs(r@) == string_seqs(versions@).reverse(),
{
    let ghost original = string_seqs(versions@);
    let mut rest = versions;
    let mut out: Vec<String> = Vec::new();
    while rest.len() > 0
        invariant
            rest.len() <= original.len(),
            string_seqs(rest@) == original.take(rest.len() as int),
            string_seqs(out@) == original.reverse().take(original.len() - rest.len()),
        decreases rest.len(),
    {
        let ghost before_rest = rest@;
        let ghost before_out = out@;
        let item = rest.pop().unwrap();
        assert(rest@ =~= before_rest.drop_last());
        assert(item == before_rest[rest.len() as int]);
        assert(string_seqs(before_rest)[rest.len() as int] == item@);
        assert(original.take(rest.len() + 1)[rest.len() as int] == item@);
        assert(string_seqs(rest@) =~= original.take(rest.len() as int));
        assert(item@ == original[rest.len() as int]);
        out.push(item);
        assert(out@ =~= before_out.push(item));
        assert(string_seqs(out@) =~= string_seqs(before_out).push(item@));
        assert(original.len() > 0);
        assert(original.reverse()[original.len() - rest.len() - 1] == original[rest.len() as int]);
        assert(string_seqs(out@) =~= original.reverse().take(original.len() - rest.len()));
    }
    assert(original.reverse().take(original.len() as int) =~= original.reverse());
    out
}

impl CreateNewVersionState {
    /// The command that starts the work of this state (none once done).
    pub fn first_command(&self) -> (c: Option<Command>)
        ensures
            opt_command_view(c) == create_new_version_entry_command(self@),
    {
        match self {
            CreateNewVersionState::DetermineWorkspaceCargoTomlPath => Some(
                Command::LocateDictionaryRoot,
            ),
            CreateNewVersionState::IdentifyNextVersionNumber { workspace_dir } => Some(
                Command::ListDirectory { dir: text(workspace_dir.as_str()) },
            ),
            CreateNewVersionState::IdentifyNextVersionName { next_version_number, .. } => Some(
                Command::PromptVersionName {
                    next_version_number: *next_version_number,
                    warning: None,
                },
            ),
            CreateNewVersionState::IdentifyTemplateVersion { workspace_dir, .. } => Some(
                Command::ListDirectory { dir: text(workspace_dir.as_str()) },
            ),
            CreateNewVersionState::CreateNewVersionFromTemplate {
                next_version_dir,
                template_version_dir,
                ..
            } => Some(
                Command::CopyDirectory {
                    from: text(template_version_dir.as_str()),
                    to: text(next_version_dir.as_str()),
                },
            ),
            CreateNewVersionState::UpdateWorkspaceCargoToml { workspace_dir, .. } => Some(
                Command::CheckFileExists { path: cargo_toml_path_of(workspace_dir.as_str()) },
            ),
            CreateNewVersionState::UpdateVersionCargoToml { next_version_dir, .. } => Some(
                Command::ReadCargoToml { path: cargo_toml_path_of(next_version_dir.as_str()) },
            ),
            CreateNewVersionState::UpdateMain { next_version_dir, .. } => Some(
                Command::ReadText { path: main_rs_path_of(next_version_dir.as_str()) },
            ),
            CreateNewVersionState::Done => None,
        }
    }

    /// Moves to `next`, with the command that starts its work.
    fn enter_state(next: CreateNewVersionState) -> (r: Result<
        (CreateNewVersionState, Option<Command>),
        StepError,
    >)
        ensures
            step_view(r) == enter(next@),
    {
        let c = next.first_command();
        Ok((next, c))
    }

    /// One step: the state after `event` answered the last command given in
    /// this state, and the next command (none once done).
    pub fn step(self, event: Event) -> (r: Result<(CreateNewVersionState, Option<Command>), StepError>)
        ensures
            step_view(r) == create_new_version_step(self@, event),
    {
        let ghost s = self@;
        match self {
            CreateNewVersionState::DetermineWorkspaceCargoTomlPath => match event {
                Event::DictionaryRootProbed { current_dir, current_is_dir, parent_is_dir } => {
                    match get_nanuak_dictionary_root_dir_using_cwd_if_matches_or_parent_dir(
                        current_dir.as_str(),
                        current_is_dir,
                        parent_is_dir,
                    ) {
                        Err(e) => Err(StepError::RootDir(e)),
                        Ok(root) => Self::enter_state(
                            CreateNewVersionState::IdentifyNextVersionNumber { workspace_dir: root },
                        ),
                    }
                },
                _ => Err(StepError::UnexpectedEvent),
            },
            CreateNewVersionState::IdentifyNextVersionNumber { workspace_dir } => match event {
                Event::DirectoryListed { entries } => {
                    let versions = get_versions(workspace_dir.as_str(), entries.as_slice());
                    Ok(
                        (
                            CreateNewVersionState::IdentifyNextVersionNumber { workspace_dir },
                            Some(Command::ShowVersions { versions, entries }),
                        ),
                    )
                },
                Event::VersionsShown { entries } => {
                    let versions = get_versions(workspace_dir.as_str(), entries.as_slice());
                    match extract_next_version_number(versions.as_slice()) {
                        Err(e) => Err(StepError::NextVersion(e)),
                        Ok(n) => Self::enter_state(
                            CreateNewVersionState::IdentifyNextVersionName {
                                workspace_dir,
                                next_version_number: n,
                            },
                        ),
                    }
                },
                _ => Err(StepError::UnexpectedEvent),
            },
            CreateNewVersionState::IdentifyNextVersionName { workspace_dir, next_version_number } => {
                match event {
                    Event::VersionNameEntered { name } => match is_valid_version_name(name.as_str()) {
                        Err(e) => {
                            Ok(
                                (
                                    CreateNewVersionState::IdentifyNextVersionName {
                                        workspace_dir,
                                        next_version_number,
                                    },
                                    Some(
                                        Command::PromptVersionName {
                                            next_version_number,
                                            warning: Some(e.message()),
                                        },
                                    ),
                                ),
                            )
                        },
                        Ok(_) => {
                            let dir = join_path(workspace_dir.as_str(), name.as_str());
                            Ok(
                                (
                                    CreateNewVersionState::IdentifyNextVersionName {
                                        workspace_dir,
                                        next_version_number,
                                    },
                                    Some(Command::CheckDirectoryExists { name, dir }),
                                ),
                            )
                        },
                    },
                    Event::DirectoryExistence { name, exists } => {
                        if is_valid_version_name(name.as_str()).is_err() {
                            return Err(StepError::UnexpectedEvent);
                        }
                        let dir = join_path(workspace_dir.as_str(), name.as_str());
                        if exists {
                            Ok(
                                (
                                    CreateNewVersionState::IdentifyNextVersionName {
                                        workspace_dir,
                                        next_version_number,
                                    },
                                    Some(Command::ConfirmProceed { name, dir }),
                                ),
                            )
                        } else {
                            Self::enter_state(
                                CreateNewVersionState::IdentifyTemplateVersion {
                                    workspace_dir,
                                    next_version_name: name,
                                    next_version_dir: dir,
                                },
                            )
                        }
                    },
                    Event::ProceedAnswered { name, proceed } => {
                        if is_valid_version_name(name.as_str()).is_err() {
                            return Err(StepError::UnexpectedEvent);
                        }
                        if !proceed {
                            return Err(StepError::UserChoseNotToProceed);
                        }
                        let dir = join_path(workspace_dir.as_str(), name.as_str());
                        Self::enter_state(
                            CreateNewVersionState::IdentifyTemplateVersion {
                                workspace_dir,
                                next_version_name: name,
                                next_version_dir: dir,
                            },
                        )
                    },
                    _ => Err(StepError::UnexpectedEvent),
                }
            },
            CreateNewVersionState::IdentifyTemplateVersion {
                workspace_dir,
                next_version_name,
                next_version_dir,
            } => match event {
                Event::DirectoryListed { entries } => {
                    let versions = get_versions(workspace_dir.as_str(), entries.as_slice());
                    let choices = reversed(versions);
                    Ok(
                        (
                            CreateNewVersionState::IdentifyTemplateVersion {
                                workspace_dir,
                                next_version_name,
                                next_version_dir,
                            },
                            Some(Command::PickTemplate { choices }),
                        ),
                    )
                },
                Event::TemplatePicked { template_dir } => match file_name(template_dir.as_str()) {
                    None => Err(StepError::NoTemplateFileName),
                    Some(template_name) => Self::enter_state(
                        CreateNewVersionState::CreateNewVersionFromTemplate {
                            workspace_dir,
                            next_version_name,
                            next_version_dir,
                            template_version_name: template_name,
                            template_version_dir: template_dir,
                        },
                    ),
                },
                _ => Err(StepError::UnexpectedEvent),
            },
            CreateNewVersionState::CreateNewVersionFromTemplate {
                workspace_dir,
                next_version_name,
                next_version_dir,
                template_version_name,
                template_version_dir,
            } => match event {
                Event::DirectoryCopied => Self::enter_state(
                    CreateNewVersionState::UpdateWorkspaceCargoToml {
                        workspace_dir,
                        next_version_name,
                        next_version_dir,
                        template_version_name,
                        template_version_dir,
                    },
                ),
                _ => Err(StepError::UnexpectedEvent),
            },
            CreateNewVersionState::UpdateWorkspaceCargoToml {
                workspace_dir,
                next_version_name,
                next_version_dir,
                template_version_name,
                template_version_dir,
            } => match event {
                Event::FileExistence { exists } => {
                    if !exists {
                        return Err(StepError::WorkspaceCargoTomlNotFound);
                    }
                    let path = cargo_toml_path_of(workspace_dir.as_str());
                    Ok(
                        (
                            CreateNewVersionState::UpdateWorkspaceCargoToml {
                                workspace_dir,
                                next_version_name,
                                next_version_dir,
                                template_version_name,
                                template_version_dir,
                            },
                            Some(Command::ReadCargoToml { path }),
                        ),
                    )
                },
                Event::CargoTomlRead { manifest } => match add_workspace_member(
                    manifest,
                    next_version_name.as_str(),
                ) {
                    Err(e) => Err(StepError::CargoToml(e)),
                    Ok(m) => {
                        let path = cargo_toml_path_of(workspace_dir.as_str());
                        Ok(
                            (
                                CreateNewVersionState::UpdateWorkspaceCargoToml {
                                    workspace_dir,
                                    next_version_name,
                                    next_version_dir,
                                    template_version_name,
                                    template_version_dir,
                                },
                                Some(Command::WriteCargoToml { path, manifest: m }),
                            ),
                        )
                    },
                },
                Event::CargoTomlWritten => Self::enter_state(
                    CreateNewVersionState::UpdateVersionCargoToml {
                        workspace_dir,
                        next_version_name,
                        next_version_dir,
                        template_version_name,
                        template_version_dir,
                    },
                ),
                _ => Err(StepError::UnexpectedEvent),
            },
            CreateNewVersionState::UpdateVersionCargoToml {
                workspace_dir,
                next_version_name,
                next_version_dir,
                template_version_name,
                template_version_dir,
            } => match event {
                Event::CargoTomlRead { manifest } => match rename_package(
                    manifest,
                    next_version_name.as_str(),
                ) {
                    Err(e) => Err(StepError::CargoToml(e)),
                    Ok(m) => {
                        let path = cargo_toml_path_of(next_version_dir.as_str());
                        Ok(
                            (
                                CreateNewVersionState::UpdateVersionCargoToml {
                                    workspace_dir,
                                    next_version_name,
                                    next_version_dir,
                                    template_version_name,
                                    template_version_dir,
                                },
                                Some(Command::WriteCargoToml { path, manifest: m }),
                            ),
                        )
                    },
                },
                Event::CargoTomlWritten => Self::enter_state(
                    CreateNewVersionState::UpdateMain {
                        workspace_dir,
                        next_version_name,
                        next_version_dir,
                        template_version_name,
                        template_version_dir,
                    },
                ),
                _ => Err(StepError::UnexpectedEvent),
            },
            CreateNewVersionState::UpdateMain {
                workspace_dir,
                next_version_name,
                next_version_dir,
                template_version_name,
                template_version_dir,
            } => match event {
                Event::TextRead { contents } => {
                    let path = main_rs_path_of(next_version_dir.as_str());
                    let renamed = replace(
                        contents.as_str(),
                        template_version_name.as_str(),
                        next_version_name.as_str(),
                    );
                    Ok(
                        (
                            CreateNewVersionState::UpdateMain {
                                workspace_dir,
                                next_version_name,
                                next_version_dir,
                                template_version_name,
                                template_version_dir,
                            },
                            Some(Command::WriteText { path, contents: renamed }),
                        ),
                    )
                },
                Event::TextWritten => Self::enter_state(CreateNewVersionState::Done),
                _ => Err(StepError::UnexpectedEvent),
            },
            CreateNewVersionState::Done => Ok((CreateNewVersionState::Done, None)),
        }
    }
}

impl State for CreateNewVersionState {
    open spec fn description(&self) -> Seq<char> {
        create_new_version_description(self@)
    }

    open spec fn terminal(&self) -> bool {
        self@ is Done
    }

    fn describe(&self) -> (r: String) {
        match self {
            CreateNewVersionState::DetermineWorkspaceCargoTomlPath => text(
                "Determine workspace Cargo.toml path",
            ),
            CreateNewVersionState::IdentifyNextVersionNumber { .. } => text(
                "Identify next version number",
            ),
            CreateNewVersionState::IdentifyNextVersionName { .. } => text(
                "Identify next version name",
            ),
            CreateNewVersionState::IdentifyTemplateVersion { .. } => text(
                "Identify template version",
            ),
            CreateNewVersionState::CreateNewVersionFromTemplate { .. } => text(
                "Create new version from template",
            ),
            CreateNewVersionState::UpdateWorkspaceCargoToml { .. } => text(
                "Update workspace Cargo.toml",
            ),
            CreateNewVersionState::UpdateVersionCargoToml { .. } => text(
                "Update version Cargo.toml",
            ),
            CreateNewVersionState::UpdateMain { .. } => text("Update main"),
            CreateNewVersionState::Done => text("Done"),
        }
    }

    fn is_terminal(&self) -> (r: bool) {
        match self {
            CreateNewVersionState::Done => true,
            _ => false,
        }
    }
}

impl Default for CreateNewVersionState {
    fn default() -> (s: Self)
        ensures
            s@ == CreateNewVersionStateView::DetermineWorkspaceCargoTomlPath,
    {
        CreateNewVersionState::DetermineWorkspaceCargoTomlPath
    }
}

} // verus!
