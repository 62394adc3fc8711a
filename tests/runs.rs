use sync_dot_files::{
    Action, App, Config, Event, Goal, LinkState, Phase, RepoProbe, SyncError, SyncRun, Warning,
    link_state, COMMIT_MESSAGE,
};

const URL: &str = "git@github.com:alice/my-dot-files.git";

fn settings(files: &[&str]) -> Config {
    Config {
        github_account: "alice".to_string(),
        dotfiles: files.iter().map(|f| f.to_string()).collect(),
        repo_path: "/home/alice/dots".to_string(),
    }
}

fn ready() -> Event {
    Event::Probed(RepoProbe::Origin(Some(URL.to_string())))
}

fn ok(out: &str) -> Event {
    Event::Succeeded(out.to_string())
}

fn link(exists: bool, target: Option<&str>) -> Event {
    Event::Link { exists, target: target.map(|t| t.to_string()) }
}

/// Begins the run and answers each action in turn; returns every action.
fn drive(run: &mut SyncRun, answers: Vec<Event>) -> Vec<Action> {
    let mut actions = vec![run.step(Event::Begin)];
    for e in answers {
        actions.push(run.step(e));
    }
    actions
}

#[test]
fn clean_check_without_repository_is_clean() {
    let app = App::new("/home/alice");
    let mut run = app.is_clean(Some(settings(&[".bashrc"]))).unwrap();
    let actions = drive(&mut run, vec![Event::Probed(RepoProbe::Absent)]);
    assert_eq!(actions, vec![Action::Probe, Action::Finish(Ok(true))]);
    assert_eq!(run.phase(), Phase::Finished);
}

#[test]
fn sync_check_without_repository_is_not_synced() {
    let app = App::new("/home/alice");
    let mut run = app.is_synced(Some(settings(&[".bashrc"]))).unwrap();
    let actions = drive(&mut run, vec![Event::Probed(RepoProbe::Absent)]);
    assert_eq!(actions, vec![Action::Probe, Action::Finish(Ok(false))]);
}

#[test]
fn runs_need_settings() {
    let app = App::new("/h");
    assert!(matches!(app.is_clean(None), Err(SyncError::NotInitialized)));
    assert!(matches!(app.is_synced(None), Err(SyncError::NotInitialized)));
    assert!(matches!(app.sync(None), Err(SyncError::NotInitialized)));
    assert!(matches!(app.materialize(None), Err(SyncError::NotInitialized)));
}

#[test]
fn clean_check_reads_status() {
    let app = App::new("/h");
    let mut run = app.is_clean(Some(settings(&[]))).unwrap();
    let actions = drive(&mut run, vec![ready(), ok("")]);
    assert_eq!(actions, vec![Action::Probe, Action::Status, Action::Finish(Ok(true))]);
    let mut run = app.is_clean(Some(settings(&[]))).unwrap();
    let actions = drive(&mut run, vec![ready(), ok(" M .bashrc\n")]);
    assert_eq!(actions[2], Action::Finish(Ok(false)));
}

#[test]
fn bare_checkout_aborts_sync_before_any_mutation() {
    let app = App::new("/home/alice");
    let mut run = app.sync(Some(settings(&[".bashrc"]))).unwrap();
    let actions = drive(&mut run, vec![Event::Probed(RepoProbe::Bare)]);
    assert_eq!(actions, vec![Action::Probe, Action::Finish(Err(SyncError::InvalidRepoState))]);
}

#[test]
fn wrong_origin_aborts_sync() {
    let app = App::new("/home/alice");
    let mut run = app.sync(Some(settings(&[]))).unwrap();
    let probe = Event::Probed(RepoProbe::Origin(Some("git@github.com:eve/my-dot-files.git".to_string())));
    let actions = drive(&mut run, vec![probe]);
    assert_eq!(actions[1], Action::Finish(Err(SyncError::RemoteMismatch)));
}

#[test]
fn sync_restores_missing_link_without_recloning() {
    let app = App::new("/home/alice");
    let mut run = app.sync(Some(settings(&[".bashrc"]))).unwrap();
    let actions = drive(&mut run, vec![ready(), ok(""), ok(""), link(false, None), ok("")]);
    assert_eq!(
        actions,
        vec![
            Action::Probe,
            Action::Pull,
            Action::Status,
            Action::InspectLink(0),
            Action::CreateLink(0),
            Action::Finish(Ok(true)),
        ]
    );
    assert_eq!(actions.iter().filter(|a| **a == Action::Pull).count(), 1);
    assert!(!actions.contains(&Action::Clone));
    assert_eq!(run.home_file(0), "/home/alice/.bashrc");
    assert_eq!(run.repo_file(0), "/home/alice/dots/.bashrc");
}

#[test]
fn sync_commits_and_pushes_once_after_pull() {
    let app = App::new("/home/alice");
    let mut run = app.sync(Some(settings(&[]))).unwrap();
    let actions = drive(&mut run, vec![ready(), ok(""), ok("?? .vimrc\n"), ok(""), ok(""), ok("")]);
    assert_eq!(
        actions,
        vec![
            Action::Probe,
            Action::Pull,
            Action::Status,
            Action::StageAll,
            Action::Commit,
            Action::Push,
            Action::Finish(Ok(true)),
        ]
    );
    assert_eq!(actions.iter().filter(|a| **a == Action::Commit).count(), 1);
    assert_eq!(actions.iter().filter(|a| **a == Action::Push).count(), 1);
    assert_eq!(COMMIT_MESSAGE, "Update dotfiles by Sync-dot-files");
}

#[test]
fn sync_success_follows_commit_of_dirty_tree() {
    let app = App::new("/h");
    let mut run = app.sync(Some(settings(&[]))).unwrap();
    let actions = drive(&mut run, vec![ready(), ok(""), ok(" M a\n"), ok(""), ok("")]);
    assert_eq!(actions.last(), Some(&Action::Push));
    assert_eq!(run.step(ok("")), Action::Finish(Ok(true)));
    let mut clean_run = app.is_clean(Some(settings(&[]))).unwrap();
    let after = drive(&mut clean_run, vec![ready(), ok("")]);
    assert_eq!(after.last(), Some(&Action::Finish(Ok(true))));
}

#[test]
fn sync_clones_missing_repository() {
    let app = App::new("/h");
    let mut run = app.sync(Some(settings(&[]))).unwrap();
    let actions = drive(&mut run, vec![Event::Probed(RepoProbe::Absent), ok(""), ok(""), ok("")]);
    assert_eq!(
        actions,
        vec![Action::Probe, Action::Clone, Action::Pull, Action::Status, Action::Finish(Ok(true))]
    );
    assert_eq!(run.remote_url(), URL);
    assert_eq!(run.repo_path(), "/home/alice/dots");
}

#[test]
fn failed_pull_aborts_sync() {
    let app = App::new("/h");
    let mut run = app.sync(Some(settings(&[".bashrc"]))).unwrap();
    let actions = drive(&mut run, vec![ready(), Event::Failed("conflict".to_string())]);
    assert_eq!(actions[2], Action::Finish(Err(SyncError::GitCommandFailed("conflict".to_string()))));
    assert_eq!(run.step(ok("")), Action::Finish(Err(SyncError::UnexpectedEvent)));
}

#[test]
fn drifted_links_are_reported_and_skipped() {
    let app = App::new("/h");
    let mut run = app.sync(Some(settings(&["a", "b", "c"]))).unwrap();
    let actions = drive(
        &mut run,
        vec![
            ready(),
            ok(""),
            ok(""),
            link(true, Some("/tmp/a")),
            ok(""),
            link(true, None),
            ok(""),
            link(false, None),
            Event::Failed("permission denied".to_string()),
            ok(""),
        ],
    );
    assert_eq!(
        &actions[3..],
        &[
            Action::InspectLink(0),
            Action::Warn(0, Warning::WrongTarget),
            Action::InspectLink(1),
            Action::Warn(1, Warning::NotALink),
            Action::InspectLink(2),
            Action::CreateLink(2),
            Action::Warn(2, Warning::LinkFailed("permission denied".to_string())),
            Action::Finish(Ok(true)),
        ]
    );
}

#[test]
fn sync_check_compares_history_and_links() {
    let app = App::new("/h");
    let mut run = app.is_synced(Some(settings(&[".bashrc"]))).unwrap();
    let actions = drive(
        &mut run,
        vec![ready(), ok(""), ok("main\n"), ok(""), link(true, Some("/home/alice/dots/.bashrc"))],
    );
    assert_eq!(
        actions,
        vec![
            Action::Probe,
            Action::Fetch,
            Action::ReadBranch,
            Action::CountDivergence("main\n".to_string()),
            Action::InspectLink(0),
            Action::Finish(Ok(true)),
        ]
    );
}

#[test]
fn sync_check_fails_on_divergence_or_drift() {
    let app = App::new("/h");
    let mut run = app.is_synced(Some(settings(&[".bashrc"]))).unwrap();
    let actions = drive(&mut run, vec![ready(), ok(""), ok("main\n"), ok("abc123\n")]);
    assert_eq!(actions[4], Action::Finish(Ok(false)));
    let mut run = app.is_synced(Some(settings(&[".bashrc"]))).unwrap();
    let actions = drive(&mut run, vec![ready(), ok(""), ok("main\n"), ok(""), link(false, None)]);
    assert_eq!(actions[5], Action::Finish(Ok(false)));
}

#[test]
fn materialized_dotfile_verifies_as_linked() {
    let app = App::new("/home/alice");
    let mut run = app.materialize(Some(settings(&[".vimrc", ".bashrc"]))).unwrap();
    assert_eq!(run.goal(), Goal::Add);
    let actions = drive(&mut run, vec![ok(""), ok(""), ok("")]);
    assert_eq!(
        actions,
        vec![
            Action::MoveIntoRepo(1),
            Action::CreateLink(1),
            Action::StageFile(1),
            Action::Finish(Ok(true)),
        ]
    );
    assert_eq!(run.dotfile(1), ".bashrc");
    let target = run.repo_file(1);
    assert_eq!(link_state(true, &Some(target.clone()), &run.repo_file(1)), LinkState::CorrectLink);
}

#[test]
fn failed_move_is_an_io_error() {
    let app = App::new("/h");
    let mut run = app.materialize(Some(settings(&[".bashrc"]))).unwrap();
    let actions = drive(&mut run, vec![Event::Failed("no such file".to_string())]);
    assert_eq!(actions[1], Action::Finish(Err(SyncError::Io("no such file".to_string()))));
    assert_eq!(run.dotfile_count(), 1);
}

#[test]
fn materialize_without_dotfiles_is_unexpected() {
    let app = App::new("/h");
    let mut run = app.materialize(Some(settings(&[]))).unwrap();
    assert_eq!(run.step(Event::Begin), Action::Finish(Err(SyncError::UnexpectedEvent)));
}

#[test]
fn new_run_starts_idle() {
    let run = SyncRun::new(Goal::Sync, "/h", settings(&["x"]));
    assert_eq!(run.phase(), Phase::Idle);
    assert_eq!(run.goal(), Goal::Sync);
}
