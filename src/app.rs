use vstd::prelude::*;
use vstd::string::StringExecFns;

use crate::config::{Config, ConfigManager, ConfigModel};
use crate::error::SyncError;
use crate::link::{LinkState, link_state, link_state_of, target_view};
use crate::repo::{RepoProbe, readiness, readiness_of, remote_url, remote_url_of};

verus! {

/// The home-directory path of the tracked file `dotfile`.
pub open spec fn home_file_of(home: Seq<char>, dotfile: Seq<char>) -> Seq<char> {
    home + "/"@ + dotfile
}

/// The repository path of the tracked file `dotfile`.
pub open spec fn repo_file_of(repo_path: Seq<char>, dotfile: Seq<char>) -> Seq<char> {
    repo_path + "/"@ + dotfile
}

/// What a run is for.
#[derive(Debug, Clone, Copy, PartialEq, Eq)]
pub enum Goal {
    /// Whether the checkout has no pending changes.
    Clean,
    /// Whether the checkout matches its remote and every dotfile is linked.
    Synced,
    /// The full reconciliation: clone if needed, pull, commit and push
    /// pending changes, restore missing links.
    Sync,
    /// Move the last tracked dotfile into the repository, link it back and
    /// stage it.
    Add,
}

/// Where a run stands: what it waits for the answer to.
#[derive(Debug, Clone, Copy, PartialEq, Eq)]
pub enum Phase {
    /// Not begun.
    Idle,
    /// Waiting for the probe of the repository path.
    Probing,
    Cloning,
    Pulling,
    /// Waiting for the output of `git status --porcelain`.
    CheckingStatus,
    Staging,
    Committing,
    Pushing,
    Fetching,
    ReadingBranch,
    /// Waiting for the commits on one side of the upstream only.
    CountingDivergence,
    /// Waiting for the state of dotfile `i`'s home path.
    Inspecting(usize),
    /// Waiting for the link of dotfile `i` to be restored.
    Relinking(usize),
    /// Waiting for dotfile `i`'s drift to be reported.
    Reporting(usize),
    /// Waiting for dotfile `i` to be moved into the repository.
    Moving(usize),
    /// Waiting for the moved dotfile `i` to be linked back.
    LinkingNew(usize),
    /// Waiting for the moved dotfile `i` to be staged.
    StagingFile(usize),
    /// The run is over; any further event is unexpected.
    Finished,
}

/// A drifted dotfile that reconciliation reports and leaves alone.
#[derive(Debug, Clone, PartialEq, Eq)]
pub enum Warning {
    WrongTarget,
    NotALink,
    /// Creating the missing link failed; the reason.
    LinkFailed(String),
}

/// What the caller observed while performing the last action.
#[derive(Debug, Clone, PartialEq, Eq)]
pub enum Event {
    /// Starts the run.
    Begin,
    /// The repository path was inspected.
    Probed(RepoProbe),
    /// The command or filesystem operation succeeded, with its output.
    Succeeded(String),
    /// The command or filesystem operation failed, with its error output.
    Failed(String),
    /// The home path of the inspected dotfile: whether it exists, and its
    /// link target when it is a link.
    Link { exists: bool, target: Option<String> },
}

/// What the caller is to do next. Indices name tracked dotfiles; their
/// paths come from `SyncRun::home_file` and `SyncRun::repo_file`.
#[derive(Debug, PartialEq, Eq)]
pub enum Action {
    /// Inspect the repository path and answer `Probed`.
    Probe,
    /// Create the parent directories of the repository path and clone the
    /// remote URL into it.
    Clone,
    /// `git pull`.
    Pull,
    /// `git status --porcelain`; answer with its output.
    Status,
    /// `git add .`.
    StageAll,
    /// `git commit` with `COMMIT_MESSAGE`.
    Commit,
    /// `git push`.
    Push,
    /// `git fetch --all`.
    Fetch,
    /// `git rev-parse --abbrev-ref HEAD`; answer with its output.
    ReadBranch,
    /// `git rev-list HEAD...<upstream>` with the upstream that `upstream_ref`
    /// gives for the carried branch output; answer with its output.
    CountDivergence(String),
    /// Inspect the dotfile's home path and answer `Link`.
    InspectLink(usize),
    /// Link the dotfile's home path to its repository path.
    CreateLink(usize),
    /// Report the dotfile's drift, then answer `Succeeded`.
    Warn(usize, Warning),
    /// Move the dotfile from its home path to its repository path.
    MoveIntoRepo(usize),
    /// `git add` the dotfile.
    StageFile(usize),
    /// The run is over, with its outcome.
    Finish(Result<bool, SyncError>),
}

/// The message of the commit that reconciliation makes.
pub const COMMIT_MESSAGE: &'static str = "Update dotfiles by Sync-dot-files";

/// A run as plain values.
pub struct RunModel {
    pub goal: Goal,
    pub phase: Phase,
    pub home: Seq<char>,
    pub repo_path: Seq<char>,
    pub remote_url: Seq<char>,
    pub dotfiles: Seq<Seq<char>>,
}

/// The run for `goal` over the settings `c` of the user at `home`, before
/// it begins.
pub open spec fn initial_run(goal: Goal, home: Seq<char>, c: ConfigModel) -> RunModel {
    RunModel {
        goal,
        phase: Phase::Idle,
        home,
        repo_path: c.repo_path,
        remote_url: remote_url_of(c.account),
        dotfiles: c.dotfiles,
    }
}

/// End the run with outcome `r`.
pub open spec fn finish(r: Result<bool, SyncError>) -> (Phase, Action) {
    (Phase::Finished, Action::Finish(r))
}

/// End the run on an event that its phase does not take.
pub open spec fn unexpected() -> (Phase, Action) {
    finish(Err(SyncError::UnexpectedEvent))
}

/// Inspect dotfile `i`, or finish successfully once every dotfile is done.
pub open spec fn links_from(m: RunModel, i: int) -> (Phase, Action) {
    if 0 <= i < m.dotfiles.len() {
        (Phase::Inspecting(i as usize), Action::InspectLink(i as usize))
    } else {
        finish(Ok(true))
    }
}

/// A git command's answer: go on with `then`, or fail with its stderr.
pub open spec fn git_answer(e: Event, then: (Phase, Action)) -> (Phase, Action) {
    match e {
        Event::Succeeded(_) => then,
        Event::Failed(s) => finish(Err(SyncError::GitCommandFailed(s))),
        _ => unexpected(),
    }
}

/// A filesystem operation's answer: go on with `then`, or fail.
pub open spec fn io_answer(e: Event, then: (Phase, Action)) -> (Phase, Action) {
    match e {
        Event::Succeeded(_) => then,
        Event::Failed(s) => finish(Err(SyncError::Io(s))),
        _ => unexpected(),
    }
}

pub open spec fn after_probe(m: RunModel, ready: bool) -> (Phase, Action) {
    match m.goal {
        Goal::Clean => if ready {
            (Phase::CheckingStatus, Action::Status)
        } else {
            finish(Ok(true))
        },
        Goal::Synced => if ready {
            (Phase::Fetching, Action::Fetch)
        } else {
            finish(Ok(false))
        },
        Goal::Sync => if ready {
            (Phase::Pulling, Action::Pull)
        } else {
            (Phase::Cloning, Action::Clone)
        },
        Goal::Add => unexpected(),
    }
}

pub open spec fn after_status(m: RunModel, out: Seq<char>) -> (Phase, Action) {
    match m.goal {
        Goal::Clean => finish(Ok(out.len() == 0)),
        Goal::Sync => if out.len() == 0 {
            links_from(m, 0)
        } else {
            (Phase::Staging, Action::StageAll)
        },
        _ => unexpected(),
    }
}

pub open spec fn after_inspect(m: RunModel, i: usize, st: LinkState) -> (Phase, Action) {
    match m.goal {
        Goal::Synced => if matches!(st, LinkState::CorrectLink) {
            links_from(m, i + 1)
        } else {
            finish(Ok(false))
        },
        Goal::Sync => match st {
            LinkState::Absent => (Phase::Relinking(i), Action::CreateLink(i)),
            LinkState::CorrectLink => links_from(m, i + 1),
            LinkState::WrongTarget => (Phase::Reporting(i), Action::Warn(i, Warning::WrongTarget)),
            LinkState::NotALink => (Phase::Reporting(i), Action::Warn(i, Warning::NotALink)),
        },
        _ => unexpected(),
    }
}

/// The phase a run moves to, and the action it asks for, when it is in
/// `m` and observes `e`.
pub open spec fn next(m: RunModel, e: Event) -> (Phase, Action) {
    match m.phase {
        Phase::Idle => match e {
            Event::Begin => match m.goal {
                Goal::Add => if m.dotfiles.len() > 0 {
                    let i = (m.dotfiles.len() - 1) as usize;
                    (Phase::Moving(i), Action::MoveIntoRepo(i))
                } else {
                    unexpected()
                },
                _ => (Phase::Probing, Action::Probe),
            },
            _ => unexpected(),
        },
        Phase::Probing => match e {
            Event::Probed(p) => match readiness_of(p, m.remote_url) {
                Ok(ready) => after_probe(m, ready),
                Err(err) => finish(Err(err)),
            },
            _ => unexpected(),
        },
        Phase::Cloning => git_answer(e, (Phase::Pulling, Action::Pull)),
        Phase::Pulling => git_answer(e, (Phase::CheckingStatus, Action::Status)),
        Phase::CheckingStatus => match e {
            Event::Succeeded(out) => after_status(m, out@),
            _ => git_answer(e, unexpected()),
        },
        Phase::Staging => git_answer(e, (Phase::Committing, Action::Commit)),
        Phase::Committing => git_answer(e, (Phase::Pushing, Action::Push)),
        Phase::Pushing => git_answer(e, links_from(m, 0)),
        Phase::Fetching => git_answer(e, (Phase::ReadingBranch, Action::ReadBranch)),
        Phase::ReadingBranch => match e {
            Event::Succeeded(out) => (Phase::CountingDivergence, Action::CountDivergence(out)),
            _ => git_answer(e, unexpected()),
        },
        Phase::CountingDivergence => match e {
            Event::Succeeded(out) => if out@.len() == 0 {
                links_from(m, 0)
            } else {
                finish(Ok(false))
            },
            _ => git_answer(e, unexpected()),
        },
        Phase::Inspecting(i) => match e {
            Event::Link { exists, target } => if i < m.dotfiles.len() {
                after_inspect(
                    m,
                    i,
                    link_state_of(exists, target_view(target), repo_file_of(m.repo_path, m.dotfiles[i as int])),
                )
            } else {
                unexpected()
            },
            _ => unexpected(),
        },
        Phase::Relinking(i) => match e {
            Event::Succeeded(_) => links_from(m, i + 1),
            Event::Failed(s) => (Phase::Reporting(i), Action::Warn(i, Warning::LinkFailed(s))),
            _ => unexpected(),
        },
        Phase::Reporting(i) => match e {
            Event::Succeeded(_) => links_from(m, i + 1),
            _ => unexpected(),
        },
        Phase::Moving(i) => io_answer(e, (Phase::LinkingNew(i), Action::CreateLink(i))),
        Phase::LinkingNew(i) => io_answer(e, (Phase::StagingFile(i), Action::StageFile(i))),
        Phase::StagingFile(i) => git_answer(e, finish(Ok(true))),
        Phase::Finished => unexpected(),
    }
}

/// One check or reconciliation in progress. The caller performs each action
/// it asks for and answers with what it observed, until `Action::Finish`.
pub struct SyncRun {
    goal: Goal,
    phase: Phase,
    home: String,
    repo_path: String,
    remote_url: String,
    dotfiles: Vec<String>,
}

impl View for SyncRun {
    type V = RunModel;

    closed spec fn view(&self) -> RunModel {
        RunModel {
            goal: self.goal,
            phase: self.phase,
            home: self.home@,
            repo_path: self.repo_path@,
            remote_url: self.remote_url@,
            dotfiles: self.dotfiles.deep_view(),
        }
    }
}

fn finish_with(r: Result<bool, SyncError>) -> (a: (Phase, Action))
    ensures
        a == finish(r),
{
    (Phase::Finished, Action::Finish(r))
}

fn answer_git(e: Event, then: (Phase, Action)) -> (r: (Phase, Action))
    ensures
        r == git_answer(e, then),
{
    match e {
        Event::Succeeded(_) => then,
        Event::Failed(s) => finish_with(Err(SyncError::GitCommandFailed(s))),
        _ => finish_with(Err(SyncError::UnexpectedEvent)),
    }
}

fn answer_io(e: Event, then: (Phase, Action)) -> (r: (Phase, Action))
    ensures
        r == io_answer(e, then),
{
    match e {
        Event::Succeeded(_) => then,
        Event::Failed(s) => finish_with(Err(SyncError::Io(s))),
        _ => finish_with(Err(SyncError::UnexpectedEvent)),
    }
}

impl SyncRun {
    /// The run for `goal` over `config`, for the user at `home`.
    pub fn new(goal: Goal, home: &str, config: Config) -> (r: SyncRun)
        ensures
            r@ == initial_run(goal, home@, config@),
    {
        let remote_url = remote_url(config.github_account.as_str());
        SyncRun {
            goal,
            phase: Phase::Idle,
            home: String::from_str(home),
            repo_path: config.repo_path,
            remote_url,
            dotfiles: config.dotfiles,
        }
    }

    pub fn goal(&self) -> (r: Goal)
        ensures
            r == self@.goal,
    {
        self.goal
    }

    pub fn phase(&self) -> (r: Phase)
        ensures
            r == self@.phase,
    {
        self.phase
    }

    /// Where the checkout lives.
    pub fn repo_path(&self) -> (r: &str)
        ensures
            r@ == self@.repo_path,
    {
        self.repo_path.as_str()
    }

    /// The `origin` URL the checkout must have.
    pub fn remote_url(&self) -> (r: &str)
        ensures
            r@ == self@.remote_url,
    {
        self.remote_url.as_str()
    }

    pub fn dotfile_count(&self) -> (r: usize)
        ensures
            r == self@.dotfiles.len(),
    {
        self.dotfiles.len()
    }

    /// The tracked dotfile `i`, relative to the home directory.
    pub fn dotfile(&self, i: usize) -> (r: &str)
        requires
            i < self@.dotfiles.len(),
        ensures
            r@ == self@.dotfiles[i as int],
    {
        self.dotfiles[i].as_str()
    }

    /// The home-directory path of dotfile `i`.
    pub fn home_file(&self, i: usize) -> (r: String)
        requires
            i < self@.dotfiles.len(),
        ensures
            r@ == home_file_of(self@.home, self@.dotfiles[i as int]),
    {
        self.home.clone().concat("/").concat(self.dotfiles[i].as_str())
    }

    /// The repository path of dotfile `i`: where its content lives and what
    /// its home path links to.
    pub fn repo_file(&self, i: usize) -> (r: String)
        requires
            i < self@.dotfiles.len(),
        ensures
            r@ == repo_file_of(self@.repo_path, self@.dotfiles[i as int]),
    {
        self.repo_path.clone().concat("/").concat(self.dotfiles[i].as_str())
    }

    fn links_after(&self, i: usize) -> (r: (Phase, Action))
        ensures
            r == links_from(self@, i + 1),
    {
        if i < self.dotfiles.len() && i + 1 < self.dotfiles.len() {
            (Phase::Inspecting(i + 1), Action::InspectLink(i + 1))
        } else {
            finish_with(Ok(true))
        }
    }

    fn links_first(&self) -> (r: (Phase, Action))
        ensures
            r == links_from(self@, 0),
    {
        if 0 < self.dotfiles.len() {
            (Phase::Inspecting(0), Action::InspectLink(0))
        } else {
            finish_with(Ok(true))
        }
    }

    fn after_probe(&self, ready: bool) -> (r: (Phase, Action))
        ensures
            r == after_probe(self@, ready),
    {
        match self.goal {
            Goal::Clean => if ready {
                (Phase::CheckingStatus, Action::Status)
            } else {
                finish_with(Ok(true))
            },
            Goal::Synced => if ready {
                (Phase::Fetching, Action::Fetch)
            } else {
                finish_with(Ok(false))
            },
            Goal::Sync => if ready {
                (Phase::Pulling, Action::Pull)
            } else {
                (Phase::Cloning, Action::Clone)
            },
            Goal::Add => finish_with(Err(SyncError::UnexpectedEvent)),
        }
    }

    fn after_status(&self, out: &String) -> (r: (Phase, Action))
        ensures
            r == after_status(self@, out@),
    {
        let clean = out.as_str().is_empty();
        match self.goal {
            Goal::Clean => finish_with(Ok(clean)),
            Goal::Sync => if clean {
                self.links_first()
            } else {
                (Phase::Staging, Action::StageAll)
            },
            _ => finish_with(Err(SyncError::UnexpectedEvent)),
        }
    }

    fn after_inspect(&self, i: usize, st: LinkState) -> (r: (Phase, Action))
        ensures
            r == after_inspect(self@, i, st),
    {
        match self.goal {
            Goal::Synced => if matches!(st, LinkState::CorrectLink) {
                self.links_after(i)
            } else {
                finish_with(Ok(false))
            },
            Goal::Sync => match st {
                LinkState::Absent => (Phase::Relinking(i), Action::CreateLink(i)),
                LinkState::CorrectLink => self.links_after(i),
                LinkState::WrongTarget => (Phase::Reporting(i), Action::Warn(i, Warning::WrongTarget)),
                LinkState::NotALink => (Phase::Reporting(i), Action::Warn(i, Warning::NotALink)),
            },
            _ => finish_with(Err(SyncError::UnexpectedEvent)),
        }
    }

    fn transition(&self, e: Event) -> (r: (Phase, Action))
        ensures
            r == next(self@, e),
    {
        match self.phase {
            Phase::Idle => match e {
                Event::Begin => match self.goal {
                    Goal::Add => {
                        let n = self.dotfiles.len();
                        if n > 0 {
                            (Phase::Moving(n - 1), Action::MoveIntoRepo(n - 1))
                        } else {
                            finish_with(Err(SyncError::UnexpectedEvent))
                        }
                    },
                    _ => (Phase::Probing, Action::Probe),
                },
                _ => finish_with(Err(SyncError::UnexpectedEvent)),
            },
            Phase::Probing => match e {
                Event::Probed(p) => match readiness(p, &self.remote_url) {
                    Ok(ready) => self.after_probe(ready),
                    Err(err) => finish_with(Err(err)),
                },
                _ => finish_with(Err(SyncError::UnexpectedEvent)),
            },
            Phase::Cloning => answer_git(e, (Phase::Pulling, Action::Pull)),
            Phase::Pulling => answer_git(e, (Phase::CheckingStatus, Action::Status)),
            Phase::CheckingStatus => match e {
                Event::Succeeded(out) => self.after_status(&out),
                other => answer_git(other, finish_with(Err(SyncError::UnexpectedEvent))),
            },
            Phase::Staging => answer_git(e, (Phase::Committing, Action::Commit)),
            Phase::Committing => answer_git(e, (Phase::Pushing, Action::Push)),
            Phase::Pushing => answer_git(e, self.links_first()),
            Phase::Fetching => answer_git(e, (Phase::ReadingBranch, Action::ReadBranch)),
            Phase::ReadingBranch => match e {
                Event::Succeeded(out) => (Phase::CountingDivergence, Action::CountDivergence(out)),
                other => answer_git(other, finish_with(Err(SyncError::UnexpectedEvent))),
            },
            Phase::CountingDivergence => match e {
                Event::Succeeded(out) => if out.as_str().is_empty() {
                    self.links_first()
                } else {
                    finish_with(Ok(false))
                },
                other => answer_git(other, finish_with(Err(SyncError::UnexpectedEvent))),
            },
            Phase::Inspecting(i) => match e {
                Event::Link { exists, target } => if i < self.dotfiles.len() {
                    let expected = self.repo_file(i);
                    let st = link_state(exists, &target, &expected);
                    self.after_inspect(i, st)
                } else {
                    finish_with(Err(SyncError::UnexpectedEvent))
                },
                _ => finish_with(Err(SyncError::UnexpectedEvent)),
            },
            Phase::Relinking(i) => match e {
                Event::Succeeded(_) => self.links_after(i),
                Event::Failed(s) => (Phase::Reporting(i), Action::Warn(i, Warning::LinkFailed(s))),
                _ => finish_with(Err(SyncError::UnexpectedEvent)),
            },
            Phase::Reporting(i) => match e {
                Event::Succeeded(_) => self.links_after(i),
                _ => finish_with(Err(SyncError::UnexpectedEvent)),
            },
            Phase::Moving(i) => answer_io(e, (Phase::LinkingNew(i), Action::CreateLink(i))),
            Phase::LinkingNew(i) => answer_io(e, (Phase::StagingFile(i), Action::StageFile(i))),
            Phase::StagingFile(i) => answer_git(e, finish_with(Ok(true))),
            Phase::Finished => finish_with(Err(SyncError::UnexpectedEvent)),
        }
    }

    /// Takes the run one step: from what was observed, moves to the next
    /// phase and says what to do next. Only the phase changes.
    pub fn step(&mut self, e: Event) -> (r: Action)
        ensures
            final(self)@ == (RunModel { phase: next(old(self)@, e).0, ..old(self)@ }),
            r == next(old(self)@, e).1,
    {
        let (phase, action) = self.transition(e);
        self.phase = phase;
        action
    }
}

/// The program's entry points over the settings of one user. Each takes
/// what the settings file held (`None` when there is none).
pub struct App {
    config: ConfigManager,
}

impl App {
    /// The home directory the app works in.
    pub closed spec fn home_spec(&self) -> Seq<char> {
        self.config.home@
    }

    pub fn new(home: &str) -> (r: App)
        ensures
            r.home_spec() == home@,
    {
        App { config: ConfigManager::new(home) }
    }

    /// The settings manager, for the caller that reads and writes the file.
    pub fn config(&self) -> (r: &ConfigManager)
        ensures
            r.home@ == self.home_spec(),
    {
        &self.config
    }

    /// Where the checkout lives.
    pub fn get_local_repo_path(&self, stored: Option<Config>) -> (r: Result<String, SyncError>)
        ensures
            match stored {
                Some(c) => r matches Ok(p) && p@ == c@.repo_path,
                None => r == Err::<String, SyncError>(SyncError::NotInitialized),
            },
    {
        Ok(self.config.load(stored)?.repo_path)
    }

    /// The `origin` URL of the configured account's repository.
    pub fn get_github_repo(&self, stored: Option<Config>) -> (r: Result<String, SyncError>)
        ensures
            match stored {
                Some(c) => r matches Ok(u) && u@ == remote_url_of(c@.account),
                None => r == Err::<String, SyncError>(SyncError::NotInitialized),
            },
    {
        let account = self.config.load(stored)?.github_account;
        Ok(remote_url(account.as_str()))
    }

    /// The settings to save for `github_account`.
    pub fn init(&self, github_account: &str, stored: Option<Config>) -> (r: Config)
        ensures
            r@.account == github_account@,
            match stored {
                Some(c) => r@.repo_path == c@.repo_path && r@.dotfiles == c@.dotfiles,
                None => r@.repo_path == crate::config::default_repo_path_of(self.home_spec())
                    && r@.dotfiles.len() == 0,
            },
    {
        self.config.init(github_account, stored)
    }

    /// The settings to save once `dotfile` is tracked. After saving them,
    /// `materialize` moves the file into the repository.
    pub fn add_dotfile(&self, dotfile: &str, stored: Option<Config>) -> (r: Result<Config, SyncError>)
        ensures
            match stored {
                Some(c) => r matches Ok(n) && n@.account == c@.account && n@.repo_path
                    == c@.repo_path && n@.dotfiles == c@.dotfiles.push(dotfile@),
                None => r == Err::<Config, SyncError>(SyncError::NotInitialized),
            },
    {
        self.config.add_dotfile(dotfile, stored)
    }

    fn start(&self, goal: Goal, stored: Option<Config>) -> (r: Result<SyncRun, SyncError>)
        ensures
            match stored {
                Some(c) => r matches Ok(run) && run@ == initial_run(goal, self.home_spec(), c@),
                None => r matches Err(e) && e == SyncError::NotInitialized,
            },
    {
        let config = self.config.load(stored)?;
        Ok(SyncRun::new(goal, self.config.home.as_str(), config))
    }

    /// The run that moves the last tracked dotfile into the repository,
    /// links it back and stages it.
    pub fn materialize(&self, stored: Option<Config>) -> (r: Result<SyncRun, SyncError>)
        ensures
            match stored {
                Some(c) => r matches Ok(run) && run@ == initial_run(Goal::Add, self.home_spec(), c@),
                None => r matches Err(e) && e == SyncError::NotInitialized,
            },
    {
        self.start(Goal::Add, stored)
    }

    /// The run that decides whether the checkout has no pending changes.
    pub fn is_clean(&self, stored: Option<Config>) -> (r: Result<SyncRun, SyncError>)
        ensures
            match stored {
                Some(c) => r matches Ok(run) && run@ == initial_run(Goal::Clean, self.home_spec(), c@),
                None => r matches Err(e) && e == SyncError::NotInitialized,
            },
    {
        self.start(Goal::Clean, stored)
    }

    /// The run that decides whether the checkout matches its remote and
    /// every dotfile is linked.
    pub fn is_synced(&self, stored: Option<Config>) -> (r: Result<SyncRun, SyncError>)
        ensures
            match stored {
                Some(c) => r matches Ok(run) && run@ == initial_run(Goal::Synced, self.home_spec(), c@),
                None => r matches Err(e) && e == SyncError::NotInitialized,
            },
    {
        self.start(Goal::Synced, stored)
    }

    /// The full reconciliation run.
    pub fn sync(&self, stored: Option<Config>) -> (r: Result<SyncRun, SyncError>)
        ensures
            match stored {
                Some(c) => r matches Ok(run) && run@ == initial_run(Goal::Sync, self.home_spec(), c@),
                None => r matches Err(e) && e == SyncError::NotInitialized,
            },
    {
        self.start(Goal::Sync, stored)
    }
}

/// The model `m` after it moved to the phase `p`.
pub open spec fn moved(m: RunModel, p: Phase) -> RunModel {
    RunModel { phase: p, ..m }
}

/// A cleanliness check of settings whose checkout does not exist answers
/// that it is clean.
pub proof fn clean_without_repository(home: Seq<char>, c: ConfigModel)
    ensures
        ({
            let m = initial_run(Goal::Clean, home, c);
            &&& next(m, Event::Begin) == (Phase::Probing, Action::Probe)
            &&& next(moved(m, Phase::Probing), Event::Probed(RepoProbe::Absent)) == finish(Ok(true))
        }),
{
}

/// A sync check of settings whose checkout does not exist answers that it is
/// not synced.
pub proof fn unsynced_without_repository(home: Seq<char>, c: ConfigModel)
    ensures
        ({
            let m = initial_run(Goal::Synced, home, c);
            &&& next(m, Event::Begin) == (Phase::Probing, Action::Probe)
            &&& next(moved(m, Phase::Probing), Event::Probed(RepoProbe::Absent)) == finish(Ok(false))
        }),
{
}

/// Whether phase `p` belongs to a run for goal `g`.
pub open spec fn phase_fits(g: Goal, p: Phase) -> bool {
    match p {
        Phase::Idle | Phase::Finished => true,
        Phase::Probing => g != Goal::Add,
        Phase::CheckingStatus => g == Goal::Clean || g == Goal::Sync,
        Phase::Cloning | Phase::Pulling | Phase::Staging | Phase::Committing | Phase::Pushing
            | Phase::Relinking(_) | Phase::Reporting(_) => g == Goal::Sync,
        Phase::Fetching | Phase::ReadingBranch | Phase::CountingDivergence => g == Goal::Synced,
        Phase::Inspecting(_) => g == Goal::Synced || g == Goal::Sync,
        Phase::Moving(_) | Phase::LinkingNew(_) | Phase::StagingFile(_) => g == Goal::Add,
    }
}

/// A run starts in a phase of its goal and every step keeps it in one.
pub proof fn phases_stay_with_goal(goal: Goal, home: Seq<char>, c: ConfigModel, m: RunModel, e: Event)
    ensures
        phase_fits(goal, initial_run(goal, home, c).phase),
        phase_fits(m.goal, m.phase) ==> phase_fits(m.goal, next(m, e).0),
{
}

pub open spec fn is_link_phase(p: Phase) -> bool {
    p is Inspecting || p is Relinking || p is Reporting
}

pub open spec fn succeeded_with_empty(e: Event) -> bool {
    e matches Event::Succeeded(out) && out@.len() == 0
}

/// Reconciliation succeeds only with a clean working tree behind it: the
/// link phases and success are reached only from a status that showed no
/// changes or from a push that succeeded; a push only follows a commit, a
/// commit only follows staging everything, and staging only follows a
/// status that showed changes.
pub proof fn sync_success_leaves_tree_clean(m: RunModel, e: Event)
    requires
        m.goal == Goal::Sync,
        phase_fits(m.goal, m.phase),
    ensures
        ({
            let (p, a) = next(m, e);
            &&& (a == Action::Finish(Ok(true)) || is_link_phase(p)) && !is_link_phase(m.phase) ==> (
            m.phase == Phase::CheckingStatus && succeeded_with_empty(e)) || (m.phase == Phase::Pushing
                && e is Succeeded)
            &&& p == Phase::Pushing ==> m.phase == Phase::Committing && e is Succeeded
            &&& p == Phase::Committing ==> m.phase == Phase::Staging && e is Succeeded
            &&& p == Phase::Staging ==> m.phase == Phase::CheckingStatus && e is Succeeded
                && !succeeded_with_empty(e)
        }),
{
}

/// Once a dotfile has been moved into the repository and linked back, its
/// home path is a link to its repository path, and inspecting it finds it
/// correct: a sync check goes on to the next dotfile, and reconciliation
/// leaves it alone.
pub proof fn materialized_link_is_correct(m: RunModel, target: String)
    requires
        m.goal == Goal::Add,
        m.phase == Phase::Idle,
        0 < m.dotfiles.len() <= usize::MAX,
        target@ == repo_file_of(m.repo_path, m.dotfiles.last()),
    ensures
        ({
            let i = (m.dotfiles.len() - 1) as usize;
            let linked = Event::Link { exists: true, target: Some(target) };
            &&& next(m, Event::Begin) == (Phase::Moving(i), Action::MoveIntoRepo(i))
            &&& next(moved(m, Phase::Moving(i)), Event::Succeeded(target)) == (Phase::LinkingNew(i), Action::CreateLink(i))
            &&& link_state_of(true, Some(target@), repo_file_of(m.repo_path, m.dotfiles[i as int])) == LinkState::CorrectLink
            &&& next(RunModel { goal: Goal::Synced, phase: Phase::Inspecting(i), ..m }, linked) == finish(Ok(true))
            &&& next(RunModel { goal: Goal::Sync, phase: Phase::Inspecting(i), ..m }, linked) == finish(Ok(true))
        }),
{
}

} // verus!
