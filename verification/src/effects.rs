//! What the version-creating state machines ask of the outside world
//! (commands), what the outside world answers (events), and why a step
//! fails.
use vstd::prelude::*;
use crate::cargo_toml::{CargoToml, CargoTomlError, CargoTomlView};
use crate::paths::{path_join, string_seqs};
use crate::versions::{DirEntry, NextVersionError, RootDirError};

verus! {

/// Work for the outside world.  Each command is answered by the event named
/// in its description.
#[derive(Debug)]
pub enum Command {
    /// Find the current directory, whether it is a directory, and whether its
    /// parent is one: `DictionaryRootProbed`.
    LocateDictionaryRoot,
    /// List the children of `dir`: `DirectoryListed`.
    ListDirectory { dir: String },
    /// Print `versions` line by line: `VersionsShown`, handing `entries`
    /// (the listing the versions were found in) back.
    ShowVersions { versions: Vec<String>, entries: Vec<DirEntry> },
    /// Log `warning`, then ask for the name of the version numbered
    /// `next_version_number`: `VersionNameEntered`.
    PromptVersionName { next_version_number: usize, warning: Option<String> },
    /// Find whether `dir` exists: `DirectoryExistence`, naming `name`.
    CheckDirectoryExists { name: String, dir: String },
    /// Ask whether to go on although `dir` exists: `ProceedAnswered`, naming
    /// `name`.
    ConfirmProceed { name: String, dir: String },
    /// Ask whether to copy an existing version as a starter:
    /// `CopyExistingAnswered`.
    AskCopyExisting,
    /// Print `versions` with their indices and ask for the index of the one
    /// to copy: `TemplateIndexEntered`.
    PromptTemplateIndex { versions: Vec<String> },
    /// Let the user pick one of `choices` (shown as themselves) under the
    /// header "Choose a version to copy": `TemplatePicked`.
    PickTemplate { choices: Vec<String> },
    /// Copy the directory `from`, recursively, to `to`: `DirectoryCopied`.
    CopyDirectory { from: String, to: String },
    /// Create the directory `dir`: `DirectoryCreated`.
    CreateDirectory { dir: String },
    /// Find whether the file `path` exists: `FileExistence`.
    CheckFileExists { path: String },
    /// Read and parse the manifest at `path`: `CargoTomlRead`.
    ReadCargoToml { path: String },
    /// Write `manifest` as TOML to `path`: `CargoTomlWritten`.
    WriteCargoToml { path: String, manifest: CargoToml },
    /// Read the text file at `path`: `TextRead`.
    ReadText { path: String },
    /// Write `contents` to the text file at `path`: `TextWritten`.
    WriteText { path: String, contents: String },
}

/// The outside world's answer to a command.
#[derive(Debug)]
pub enum Event {
    DictionaryRootProbed { current_dir: String, current_is_dir: bool, parent_is_dir: bool },
    DirectoryListed { entries: Vec<DirEntry> },
    VersionsShown { entries: Vec<DirEntry> },
    VersionNameEntered { name: String },
    DirectoryExistence { name: String, exists: bool },
    ProceedAnswered { name: String, proceed: bool },
    CopyExistingAnswered { copy: bool },
    TemplateIndexEntered { index: usize },
    TemplatePicked { template_dir: String },
    DirectoryCopied,
    DirectoryCreated,
    FileExistence { exists: bool },
    CargoTomlRead { manifest: CargoToml },
    CargoTomlWritten,
    TextRead { contents: String },
    TextWritten,
}

/// Why creating a version stopped.
#[derive(Debug, Clone, Copy, PartialEq, Eq, Structural)]
pub enum StepError {
    /// No dictionary root directory was found.
    RootDir(RootDirError),
    /// The number of the next version could not be found.
    NextVersion(NextVersionError),
    /// The new version's directory exists and the user chose not to go on.
    UserChoseNotToProceed,
    /// The chosen template version's path has no file name.
    NoTemplateFileName,
    /// The workspace has no `Cargo.toml`.
    WorkspaceCargoTomlNotFound,
    /// A manifest could not be changed.
    CargoToml(CargoTomlError),
    /// The event answers no command that the state could have given.
    UnexpectedEvent,
}

/// A command, as values.
pub enum CommandView {
    LocateDictionaryRoot,
    ListDirectory { dir: Seq<char> },
    ShowVersions { versions: Seq<Seq<char>>, entries: Seq<DirEntry> },
    PromptVersionName { next_version_number: usize, warning: Option<Seq<char>> },
    CheckDirectoryExists { name: Seq<char>, dir: Seq<char> },
    ConfirmProceed { name: Seq<char>, dir: Seq<char> },
    AskCopyExisting,
    PromptTemplateIndex { versions: Seq<Seq<char>> },
    PickTemplate { choices: Seq<Seq<char>> },
    CopyDirectory { from: Seq<char>, to: Seq<char> },
    CreateDirectory { dir: Seq<char> },
    CheckFileExists { path: Seq<char> },
    ReadCargoToml { path: Seq<char> },
    WriteCargoToml { path: Seq<char>, manifest: CargoTomlView },
    ReadText { path: Seq<char> },
    WriteText { path: Seq<char>, contents: Seq<char> },
}

/// The view of an optional string.
pub open spec fn opt_string_view(s: Option<String>) -> Option<Seq<char>> {
    match s {
        Some(t) => Some(t@),
        None => None,
    }
}

impl View for Command {
    type V = CommandView;

    open spec fn view(&self) -> CommandView {
        match self {
            Command::LocateDictionaryRoot => CommandView::LocateDictionaryRoot,
            Command::ListDirectory { dir } => CommandView::ListDirectory { dir: dir@ },
            Command::ShowVersions { versions, entries } => CommandView::ShowVersions {
                versions: string_seqs(versions@),
                entries: entries@,
            },
            Command::PromptVersionName { next_version_number, warning } =>
                CommandView::PromptVersionName {
                next_version_number: *next_version_number,
                warning: opt_string_view(*warning),
            },
            Command::CheckDirectoryExists { name, dir } => CommandView::CheckDirectoryExists {
                name: name@,
                dir: dir@,
            },
            Command::ConfirmProceed { name, dir } => CommandView::ConfirmProceed {
                name: name@,
                dir: dir@,
            },
            Command::AskCopyExisting => CommandView::AskCopyExisting,
            Command::PromptTemplateIndex { versions } => CommandView::PromptTemplateIndex {
                versions: string_seqs(versions@),
            },
            Command::PickTemplate { choices } => CommandView::PickTemplate {
                choices: string_seqs(choices@),
            },
            Command::CopyDirectory { from, to } => CommandView::CopyDirectory {
                from: from@,
                to: to@,
            },
            Command::CreateDirectory { dir } => CommandView::CreateDirectory { dir: dir@ },
            Command::CheckFileExists { path } => CommandView::CheckFileExists { path: path@ },
            Command::ReadCargoToml { path } => CommandView::ReadCargoToml { path: path@ },
            Command::WriteCargoToml { path, manifest } => CommandView::WriteCargoToml {
                path: path@,
                manifest: manifest@,
            },
            Command::ReadText { path } => CommandView::ReadText { path: path@ },
            Command::WriteText { path, contents } => CommandView::WriteText {
                path: path@,
                contents: contents@,
            },
        }
    }
}

/// The view of an optional command.
pub open spec fn opt_command_view(c: Option<Command>) -> Option<CommandView> {
    match c {
        Some(k) => Some(k@),
        None => None,
    }
}

/// The manifest of the crate in `dir`.
pub open spec fn cargo_toml_path(dir: Seq<char>) -> Seq<char> {
    path_join(dir, "Cargo.toml"@)
}

/// The `main.rs` of the crate in `dir`.
pub open spec fn main_rs_path(dir: Seq<char>) -> Seq<char> {
    path_join(path_join(dir, "src"@), "main.rs"@)
}

/// `dir/Cargo.toml`.
pub fn cargo_toml_path_of(dir: &str) -> (r: String)
    ensures
        r@ == cargo_toml_path(dir@),
{
    crate::paths::join_path(dir, "Cargo.toml")
}

/// `dir/src/main.rs`.
pub fn main_rs_path_of(dir: &str) -> (r: String)
    ensures
        r@ == main_rs_path(dir@),
{
    let src = crate::paths::join_path(dir, "src");
    crate::paths::join_path(src.as_str(), "main.rs")
}

/// Below a directory that is not empty and does not end in `/`, the
/// manifest is `dir/Cargo.toml` and the main file `dir/src/main.rs`.
pub proof fn lemma_crate_file_paths(dir: Seq<char>)
    requires
        dir.len() > 0,
        dir.last() != '/',
    ensures
        cargo_toml_path(dir) == dir + "/Cargo.toml"@,
        main_rs_path(dir) == dir + "/src/main.rs"@,
{
    reveal_strlit("/Cargo.toml");
    reveal_strlit("Cargo.toml");
    reveal_strlit("/src/main.rs");
    reveal_strlit("src");
    reveal_strlit("main.rs");
    assert(cargo_toml_path(dir) =~= dir + "/Cargo.toml"@);
    let src = path_join(dir, "src"@);
    assert(src =~= dir + seq!['/', 's', 'r', 'c']);
    assert(src.last() == 'c');
    assert(main_rs_path(dir) =~= dir + "/src/main.rs"@);
}

} // verus!
