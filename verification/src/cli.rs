//! What the user can ask for on the command line.
use vstd::prelude::*;

verus! {

#[derive(Debug)]
pub struct Cli {
    /// Print JSON instead of text.
    pub json: bool,
    pub command: Command,
}

#[derive(Debug)]
pub enum Command {
    /// Look for repositories under the configured roots.
    Scan,
    /// List the known repositories.
    List(ListArgs),
    /// Show the state of one repository.
    Status(RepoArg),
    /// Fetch all remotes of some repositories, or of all known ones.
    Fetch(BulkArgs),
    /// Fetch some repositories and rebase their current branches.
    Pull(BulkArgs),
    /// Push the current branch.
    Push(RepoArg),
    /// List commits.
    Log(LogArgs),
    /// Show one commit.
    Show(ShowArgs),
    /// Show what changed in the working tree or the index.
    Diff(DiffArgs),
    /// Stage files.
    Add(StageArgs),
    /// Unstage files.
    Reset(StageArgs),
    /// Commit the index.
    Commit(CommitArgs),
    /// Make one commit of the latest ones.
    Squash(SquashArgs),
    Branch(BranchCmd),
    Stash(StashCmd),
    Remote(RemoteCmd),
    /// Show or set the user that commits are made as.
    Profile(ProfileArgs),
    /// Print the readme file.
    Readme(RepoArg),
    /// Print the page on which a pull request is opened.
    Pr(RepoArg),
    /// Show or change the configuration.
    Config(ConfigCmd),
    /// Start the terminal interface.
    Tui,
}

#[derive(Debug)]
pub struct RepoArg {
    /// The name or path of a repository.
    pub repo: String,
}

#[derive(Debug)]
pub struct ListArgs {
    /// Only those of this health.
    pub health: Option<String>,
    /// Only those with this text in their name, branch or path.
    pub search: Option<String>,
    /// Scan first.
    pub refresh: bool,
}

#[derive(Debug)]
pub struct BulkArgs {
    pub repos: Vec<String>,
    /// All known repositories.
    pub all: bool,
}

#[derive(Debug)]
pub struct LogArgs {
    pub repo: String,
    pub count: usize,
    /// Only commits that change this file.
    pub file: Option<String>,
}

#[derive(Debug)]
pub struct ShowArgs {
    pub repo: String,
    pub commit: String,
}

#[derive(Debug)]
pub struct DiffArgs {
    pub repo: String,
    /// The index instead of the working tree.
    pub staged: bool,
    /// Only this file.
    pub path: Option<String>,
}

#[derive(Debug)]
pub struct StageArgs {
    pub repo: String,
    pub paths: Vec<String>,
    pub all: bool,
}

#[derive(Debug)]
pub struct CommitArgs {
    pub repo: String,
    pub message: String,
}

#[derive(Debug)]
pub struct SquashArgs {
    pub repo: String,
    /// How many commits, from HEAD on.
    pub count: usize,
    pub message: String,
}

#[derive(Debug)]
pub struct BranchCmd {
    pub repo: String,
    pub action: Option<BranchAction>,
}

#[derive(Debug)]
pub enum BranchAction {
    List,
    Create { name: String },
    Checkout { name: String },
    Delete { name: String },
    Merge { name: String },
}

#[derive(Debug)]
pub struct StashCmd {
    pub repo: String,
    pub action: Option<StashAction>,
}

#[derive(Debug)]
pub enum StashAction {
    List,
    Save { message: String },
    Pop { index: usize },
    Drop { index: usize },
}

#[derive(Debug)]
pub struct RemoteCmd {
    pub repo: String,
    pub action: Option<RemoteAction>,
}

#[derive(Debug)]
pub enum RemoteAction {
    List,
    Add { name: String, url: String },
    Remove { name: String },
    Rename { old: String, new: String },
}

#[derive(Debug)]
pub struct ProfileArgs {
    pub repo: String,
    pub set_name: Option<String>,
    pub set_email: Option<String>,
}

#[derive(Debug)]
pub struct ConfigCmd {
    pub action: ConfigAction,
}

#[derive(Debug)]
pub enum ConfigAction {
    Show,
    Roots { action: RootsAction },
}

#[derive(Debug)]
pub enum RootsAction {
    List,
    Add { path: String },
    Remove { path: String },
    /// Replace all roots.
    Replace { paths: Vec<String> },
}

} // verus!
