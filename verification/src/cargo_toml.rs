//! The parts of a `Cargo.toml` manifest that creating a version reads and
//! changes, and those changes.
use vstd::prelude::*;
use crate::paths::string_seqs;
use crate::text::text;

verus! {

/// A `Cargo.toml` manifest.
#[derive(Debug)]
pub struct CargoToml {
    pub package: Option<Package>,
    pub workspace: Option<Workspace>,
    pub dependencies: Option<Dependencies>,
    pub dev_dependencies: Option<Dependencies>,
}

/// The `[package]` table.
#[derive(Debug)]
pub struct Package {
    pub name: String,
    pub version: String,
    pub edition: String,
}

/// The `[workspace]` table: its member crates and its shared dependencies.
#[derive(Debug)]
pub struct Workspace {
    pub members: Vec<String>,
    pub dependencies: Dependencies,
}

/// A dependency table: each crate name with how it is depended on, in the
/// table's order.
#[derive(Debug)]
pub struct Dependencies(pub Vec<(String, Dependency)>);

/// How a crate is depended on.
#[derive(Debug)]
pub enum Dependency {
    /// A crate in a directory of the workspace, with the features asked for.
    Path { path: String, features: Option<Vec<String>> },
    /// Any other form, kept as its TOML text.
    Other(String),
}

/// Why a manifest could not be changed.
#[derive(Debug, Clone, Copy, PartialEq, Eq, Structural)]
pub enum CargoTomlError {
    /// The manifest has no `[package]` table.
    MissingPackage,
    /// The manifest has no `[workspace]` table.
    NoWorkspace,
    /// The workspace already has a dependency of that name.
    DependencyAlreadyExists,
}

/// A dependency, as values.
pub enum DependencyView {
    Path { path: Seq<char>, features: Option<Seq<Seq<char>>> },
    Other(Seq<char>),
}

/// A package table, as values.
pub struct PackageView {
    pub name: Seq<char>,
    pub version: Seq<char>,
    pub edition: Seq<char>,
}

/// A workspace table, as values.
pub struct WorkspaceView {
    pub members: Seq<Seq<char>>,
    pub dependencies: Seq<(Seq<char>, DependencyView)>,
}

/// A manifest, as values.
pub struct CargoTomlView {
    pub package: Option<PackageView>,
    pub workspace: Option<WorkspaceView>,
    pub dependencies: Option<Seq<(Seq<char>, DependencyView)>>,
    pub dev_dependencies: Option<Seq<(Seq<char>, DependencyView)>>,
}

impl View for Dependency {
    type V = DependencyView;

    open spec fn view(&self) -> DependencyView {
        match self {
            Dependency::Path { path, features } => DependencyView::Path {
                path: path@,
                features: match features {
                    Some(f) => Some(string_seqs(f@)),
                    None => None,
                },
            },
            Dependency::Other(spec_text) => DependencyView::Other(spec_text@),
        }
    }
}

impl View for Dependencies {
    type V = Seq<(Seq<char>, DependencyView)>;

    open spec fn view(&self) -> Seq<(Seq<char>, DependencyView)> {
        entries_view(self.0@)
    }
}

/// The entries of a dependency table, as values.
pub open spec fn entries_view(entries: Seq<(String, Dependency)>) -> Seq<(Seq<char>, DependencyView)> {
    entries.map_values(|entry: (String, Dependency)| (entry.0@, entry.1@))
}

impl View for Package {
    type V = PackageView;

    open spec fn view(&self) -> PackageView {
        PackageView { name: self.name@, version: self.version@, edition: self.edition@ }
    }
}

impl View for Workspace {
    type V = WorkspaceView;

    open spec fn view(&self) -> WorkspaceView {
        WorkspaceView { members: string_seqs(self.members@), dependencies: self.dependencies@ }
    }
}

/// The view of an optional dependency table.
pub open spec fn dependencies_view(d: Option<Dependencies>) -> Option<
    Seq<(Seq<char>, DependencyView)>,
> {
    match d {
        Some(t) => Some(t@),
        None => None,
    }
}

impl View for CargoToml {
    type V = CargoTomlView;

    open spec fn view(&self) -> CargoTomlView {
        CargoTomlView {
            package: match self.package {
                Some(p) => Some(p@),
                None => None,
            },
            workspace: match self.workspace {
                Some(w) => Some(w@),
                None => None,
            },
            dependencies: dependencies_view(self.dependencies),
            dev_dependencies: dependencies_view(self.dev_dependencies),
        }
    }
}

/// Whether the dependency table names `name`.
pub open spec fn has_dependency(table: Seq<(Seq<char>, DependencyView)>, name: Seq<char>) -> bool {
    exists|i: int| 0 <= i < table.len() && (#[trigger] table[i]).0 == name
}

/// Whether no crate is named twice in the dependency table.
pub open spec fn names_unique(table: Seq<(Seq<char>, DependencyView)>) -> bool {
    forall|i: int, j: int|
        0 <= i < j < table.len() ==> (#[trigger] table[i]).0 != (#[trigger] table[j]).0
}

/// The dependency on the workspace's own directory `name`.
pub open spec fn member_dependency(name: Seq<char>) -> DependencyView {
    DependencyView::Path { path: name, features: None }
}

/// The manifest after `name` became a workspace member with a dependency
/// on its directory, or why it cannot.
pub open spec fn with_workspace_member(m: CargoTomlView, name: Seq<char>) -> Result<
    CargoTomlView,
    CargoTomlError,
> {
    match m.workspace {
        None => Err(CargoTomlError::NoWorkspace),
        Some(w) => if has_dependency(w.dependencies, name) {
            Err(CargoTomlError::DependencyAlreadyExists)
        } else {
            Ok(
                CargoTomlView {
                    workspace: Some(
                        WorkspaceView {
                            members: w.members.push(name),
                            dependencies: w.dependencies.push((name, member_dependency(name))),
                        },
                    ),
                    ..m
                },
            )
        },
    }
}

/// The manifest with its package renamed, or why it cannot be.
pub open spec fn with_package_name(m: CargoTomlView, name: Seq<char>) -> Result<
    CargoTomlView,
    CargoTomlError,
> {
    match m.package {
        None => Err(CargoTomlError::MissingPackage),
        Some(p) => Ok(CargoTomlView { package: Some(PackageView { name: name, ..p }), ..m }),
    }
}

/// The view of a change's result: the changed manifest, or the error.
pub open spec fn change_view(r: Result<CargoToml, CargoTomlError>) -> Result<
    CargoTomlView,
    CargoTomlError,
> {
    match r {
        Ok(m) => Ok(m@),
        Err(e) => Err(e),
    }
}

/// Whether the dependency table names `name`.
fn dependencies_contain(table: &Dependencies, name: &Vec<char>) -> (r: bool)
    ensures
        r == has_dependency(table@, name@),
{
    let mut i: usize = 0;
    while i < table.0.len()
        invariant
            i <= table.0.len(),
            forall|k: int| 0 <= k < i ==> (#[trigger] table@[k]).0 != name@,
        decreases table.0.len() - i,
    {
        let key = crate::text::chars_of(table.0[i].0.as_str());
        if crate::text::same_chars(&key, name) {
            assert(table@[i as int].0 == name@);
            return true;
        }
        i = i + 1;
    }
    false
}

/// Adds `name` to the workspace's members, and a dependency on the
/// workspace directory `name` to its dependencies.  Fails when the manifest
/// has no workspace, or when the workspace already depends on `name`.
pub fn add_workspace_member(manifest: CargoToml, name: &str) -> (r: Result<
    CargoToml,
    CargoTomlError,
>)
    ensures
        change_view(r) == with_workspace_member(manifest@, name@),
{
    let CargoToml { package, workspace, dependencies, dev_dependencies } = manifest;
    match workspace {
        None => Err(CargoTomlError::NoWorkspace),
        Some(w) => {
            let Workspace { members, dependencies: shared } = w;
            let name_chars = crate::text::chars_of(name);
            if dependencies_contain(&shared, &name_chars) {
                return Err(CargoTomlError::DependencyAlreadyExists);
            }
            let mut members = members;
            let mut entries = shared.0;
            let ghost old_members = members@;
            let ghost old_entries = entries@;
            members.push(text(name));
            entries.push((text(name), Dependency::Path { path: text(name), features: None }));
            let result = CargoToml {
                package,
                workspace: Some(Workspace { members, dependencies: Dependencies(entries) }),
                dependencies,
                dev_dependencies,
            };
            assert(string_seqs(members@) =~= string_seqs(old_members).push(name@));
            assert(entries_view(entries@) =~= entries_view(old_entries).push(
                (name@, member_dependency(name@)),
            ));
            Ok(result)
        },
    }
}

/// Renames the manifest's package to `name`.  Fails when it has no package.
pub fn rename_package(manifest: CargoToml, name: &str) -> (r: Result<CargoToml, CargoTomlError>)
    ensures
        change_view(r) == with_package_name(manifest@, name@),
{
    let CargoToml { package, workspace, dependencies, dev_dependencies } = manifest;
    match package {
        None => Err(CargoTomlError::MissingPackage),
        Some(p) => {
            let Package { name: _, version, edition } = p;
            Ok(
                CargoToml {
                    package: Some(Package { name: text(name), version, edition }),
                    workspace,
                    dependencies,
                    dev_dependencies,
                },
            )
        },
    }
}

/// Puts the new version's name in the manifest of the new version's crate,
/// in place of the old one: the package takes the new name.  Fails when the
/// manifest has no package.
pub fn apply_file_changes_for_new_version_name(manifest: CargoToml, new_version_name: &str) -> (r:
    Result<CargoToml, CargoTomlError>)
    ensures
        change_view(r) == with_package_name(manifest@, new_version_name@),
{
    rename_package(manifest, new_version_name)
}

/// Once a crate is added as a workspace member, the workspace lists it as a
/// member and depends on it, and nothing else in the manifest changes.
pub proof fn lemma_added_member_is_present(m: CargoTomlView, name: Seq<char>)
    requires
        with_workspace_member(m, name) is Ok,
    ensures
        ({
            let changed = with_workspace_member(m, name)->Ok_0;
            &&& changed.workspace->0.members.contains(name)
            &&& has_dependency(changed.workspace->0.dependencies, name)
            &&& changed.package == m.package
            &&& changed.dependencies == m.dependencies
            &&& changed.dev_dependencies == m.dev_dependencies
        }),
{
    let changed = with_workspace_member(m, name)->Ok_0;
    let w = changed.workspace->0;
    assert(w.members[w.members.len() - 1] == name);
    assert(w.dependencies[w.dependencies.len() - 1].0 == name);
}

/// Adding a workspace member keeps every crate named at most once in the
/// workspace's dependency table.
pub proof fn lemma_add_member_keeps_names_unique(m: CargoTomlView, name: Seq<char>)
    requires
        m.workspace is Some,
        names_unique(m.workspace->0.dependencies),
        with_workspace_member(m, name) is Ok,
    ensures
        names_unique(with_workspace_member(m, name)->Ok_0.workspace->0.dependencies),
{
    let old_table = m.workspace->0.dependencies;
    let new_table = with_workspace_member(m, name)->Ok_0.workspace->0.dependencies;
    assert forall|i: int, j: int| 0 <= i < j < new_table.len() implies (
    #[trigger] new_table[i]).0 != (#[trigger] new_table[j]).0 by {
        if j == old_table.len() {
            assert(new_table[i] == old_table[i]);
            if old_table[i].0 == name {
                assert(has_dependency(old_table, name));
            }
        } else {
            assert(new_table[i] == old_table[i]);
            assert(new_table[j] == old_table[j]);
        }
    }
}

/// Adding a crate to a workspace in which no dependency carries exactly its
/// name succeeds: the crate is appended to the members, a dependency on its
/// directory is appended to the table, and the rest of the manifest stays.
/// A dependency whose name differs from the new one (a prefix of it, say) is
/// no obstacle.
pub proof fn lemma_add_member_succeeds_unless_name_taken(m: CargoTomlView, name: Seq<char>)
    requires
        m.workspace is Some,
        forall|i: int|
            0 <= i < m.workspace->0.dependencies.len() ==> (#[trigger] m.workspace->0.dependencies[i]).0
                != name,
    ensures
        ({
            let w = m.workspace->0;
            with_workspace_member(m, name) == Ok::<CargoTomlView, CargoTomlError>(
                CargoTomlView {
                    package: m.package,
                    workspace: Some(
                        WorkspaceView {
                            members: w.members.push(name),
                            dependencies: w.dependencies.push(
                                (name, DependencyView::Path { path: name, features: None }),
                            ),
                        },
                    ),
                    dependencies: m.dependencies,
                    dev_dependencies: m.dev_dependencies,
                },
            )
        }),
{
}

/// Adding a crate fails only for a manifest without a workspace, or for one
/// whose workspace already has a dependency of exactly that name.
pub proof fn lemma_add_member_errors(m: CargoTomlView, name: Seq<char>)
    ensures
        with_workspace_member(m, name) == Err::<CargoTomlView, CargoTomlError>(
            CargoTomlError::NoWorkspace,
        ) <==> m.workspace is None,
        with_workspace_member(m, name) == Err::<CargoTomlView, CargoTomlError>(
            CargoTomlError::DependencyAlreadyExists,
        ) <==> (m.workspace is Some && exists|i: int|
            0 <= i < m.workspace->0.dependencies.len()
                && (#[trigger] m.workspace->0.dependencies[i]).0 == name),
        with_workspace_member(m, name) != Err::<CargoTomlView, CargoTomlError>(
            CargoTomlError::MissingPackage,
        ),
{
}

/// Renaming the package of a manifest that has one succeeds and changes the
/// package's name alone: its version and edition, the workspace and the
/// dependency tables stay.  A manifest without a package cannot be renamed.
pub proof fn lemma_rename_changes_name_only(m: CargoTomlView, name: Seq<char>)
    ensures
        m.package is Some ==> with_package_name(m, name) == Ok::<CargoTomlView, CargoTomlError>(
            CargoTomlView {
                package: Some(
                    PackageView {
                        name: name,
                        version: m.package->0.version,
                        edition: m.package->0.edition,
                    },
                ),
                workspace: m.workspace,
                dependencies: m.dependencies,
                dev_dependencies: m.dev_dependencies,
            },
        ),
        m.package is None ==> with_package_name(m, name) == Err::<CargoTomlView, CargoTomlError>(
            CargoTomlError::MissingPackage,
        ),
{
}

} // verus!
