//! Provisioning of the backup directory.
//!
//! The directory lives under one of two roots: the system-wide application
//! support tree is preferred, and any failure to create it falls back —
//! deliberately, without surfacing the error — to a per-user tree under the
//! caller's home directory, where failures do surface.  The decisions form
//! a small state machine; the caller performs each directory creation and
//! the home-directory lookup, and feeds the outcome back in as the next
//! event.

use vstd::prelude::*;

verus! {

pub open spec fn system_base_path() -> Seq<char> {
    "/Library/Application Support/iMessageWrapped"@
}

pub open spec fn user_base_path(home: Seq<char>) -> Seq<char> {
    home + "/Library/Application Support/iMessageWrapped"@
}

pub open spec fn backups_under(base: Seq<char>) -> Seq<char> {
    base + "/backups"@
}

/// Where a provisioning run stands.  `CreateSystemBase` is the start state.
pub enum BackupState {
    CreateSystemBase,
    CreateSystemBackups,
    ResolveHome,
    CreateUserBase { home: String },
    CreateUserBackups { home: String },
    Done { path: String, used_fallback: bool },
    Failed { message: String },
}

pub enum BackupStateView {
    CreateSystemBase,
    CreateSystemBackups,
    ResolveHome,
    CreateUserBase { home: Seq<char> },
    CreateUserBackups { home: Seq<char> },
    Done { path: Seq<char>, used_fallback: bool },
    Failed { message: Seq<char> },
}

impl View for BackupState {
    type V = BackupStateView;

    open spec fn view(&self) -> BackupStateView {
        match self {
            BackupState::CreateSystemBase => BackupStateView::CreateSystemBase,
            BackupState::CreateSystemBackups => BackupStateView::CreateSystemBackups,
            BackupState::ResolveHome => BackupStateView::ResolveHome,
            BackupState::CreateUserBase { home } => BackupStateView::CreateUserBase {
                home: home@,
            },
            BackupState::CreateUserBackups { home } => BackupStateView::CreateUserBackups {
                home: home@,
            },
            BackupState::Done { path, used_fallback } => BackupStateView::Done {
                path: path@,
                used_fallback: *used_fallback,
            },
            BackupState::Failed { message } => BackupStateView::Failed { message: message@ },
        }
    }
}

/// The outcome of the action the machine last asked for.
pub enum BackupEvent {
    DirCreated,
    DirFailed { message: String },
    HomeIs { home: String },
    HomeUnknown { message: String },
}

pub enum BackupEventView {
    DirCreated,
    DirFailed { message: Seq<char> },
    HomeIs { home: Seq<char> },
    HomeUnknown { message: Seq<char> },
}

impl View for BackupEvent {
    type V = BackupEventView;

    open spec fn view(&self) -> BackupEventView {
        match self {
            BackupEvent::DirCreated => BackupEventView::DirCreated,
            BackupEvent::DirFailed { message } => BackupEventView::DirFailed {
                message: message@,
            },
            BackupEvent::HomeIs { home } => BackupEventView::HomeIs { home: home@ },
            BackupEvent::HomeUnknown { message } => BackupEventView::HomeUnknown {
                message: message@,
            },
        }
    }
}

/// What the caller must do next.
pub enum BackupAction {
    /// Create this directory and all missing parents, without failing when
    /// it already exists.
    CreateDir { path: String },
    LookupHome,
    Stop,
}

pub enum BackupActionView {
    CreateDir { path: Seq<char> },
    LookupHome,
    Stop,
}

impl View for BackupAction {
    type V = BackupActionView;

    open spec fn view(&self) -> BackupActionView {
        match self {
            BackupAction::CreateDir { path } => BackupActionView::CreateDir { path: path@ },
            BackupAction::LookupHome => BackupActionView::LookupHome,
            BackupAction::Stop => BackupActionView::Stop,
        }
    }
}

pub open spec fn action_spec(s: BackupStateView) -> BackupActionView {
    match s {
        BackupStateView::CreateSystemBase => BackupActionView::CreateDir {
            path: system_base_path(),
        },
        BackupStateView::CreateSystemBackups => BackupActionView::CreateDir {
            path: backups_under(system_base_path()),
        },
        BackupStateView::ResolveHome => BackupActionView::LookupHome,
        BackupStateView::CreateUserBase { home } => BackupActionView::CreateDir {
            path: user_base_path(home),
        },
        BackupStateView::CreateUserBackups { home } => BackupActionView::CreateDir {
            path: backups_under(user_base_path(home)),
        },
        _ => BackupActionView::Stop,
    }
}

/// The transition relation.  A failure while creating the system-wide base
/// is swallowed and redirects to the per-user fallback; every later failure
/// surfaces.  Terminal states absorb every event, and an event that does
/// not answer the pending action leaves the state unchanged.
pub open spec fn step_spec(s: BackupStateView, e: BackupEventView) -> BackupStateView {
    match s {
        BackupStateView::CreateSystemBase => match e {
            BackupEventView::DirCreated => BackupStateView::CreateSystemBackups,
            BackupEventView::DirFailed { .. } => BackupStateView::ResolveHome,
            _ => s,
        },
        BackupStateView::CreateSystemBackups => match e {
            BackupEventView::DirCreated => BackupStateView::Done {
                path: backups_under(system_base_path()),
                used_fallback: false,
            },
            BackupEventView::DirFailed { message } => BackupStateView::Failed { message },
            _ => s,
        },
        BackupStateView::ResolveHome => match e {
            BackupEventView::HomeIs { home } => BackupStateView::CreateUserBase { home },
            BackupEventView::HomeUnknown { message } => BackupStateView::Failed { message },
            _ => s,
        },
        BackupStateView::CreateUserBase { home } => match e {
            BackupEventView::DirCreated => BackupStateView::CreateUserBackups { home },
            BackupEventView::DirFailed { message } => BackupStateView::Failed { message },
            _ => s,
        },
        BackupStateView::CreateUserBackups { home } => match e {
            BackupEventView::DirCreated => BackupStateView::Done {
                path: backups_under(user_base_path(home)),
                used_fallback: true,
            },
            BackupEventView::DirFailed { message } => BackupStateView::Failed { message },
            _ => s,
        },
        _ => s,
    }
}

pub fn backup_action(s: &BackupState) -> (a: BackupAction)
    ensures
        a@ == action_spec(s@),
{
    match s {
        BackupState::CreateSystemBase => BackupAction::CreateDir {
            path: String::from_str("/Library/Application Support/iMessageWrapped"),
        },
        BackupState::CreateSystemBackups => {
            let mut p = String::from_str("/Library/Application Support/iMessageWrapped");
            p.append("/backups");
            BackupAction::CreateDir { path: p }
        },
        BackupState::ResolveHome => BackupAction::LookupHome,
        BackupState::CreateUserBase { home } => {
            let mut p = home.clone();
            p.append("/Library/Application Support/iMessageWrapped");
            BackupAction::CreateDir { path: p }
        },
        BackupState::CreateUserBackups { home } => {
            let mut p = home.clone();
            p.append("/Library/Application Support/iMessageWrapped");
            p.append("/backups");
            BackupAction::CreateDir { path: p }
        },
        _ => BackupAction::Stop,
    }
}

pub fn backup_step(s: BackupState, e: BackupEvent) -> (next: BackupState)
    ensures
        next@ == step_spec(s@, e@),
{
    match s {
        BackupState::CreateSystemBase => match e {
            BackupEvent::DirCreated => BackupState::CreateSystemBackups,
            BackupEvent::DirFailed { .. } => BackupState::ResolveHome,
            _ => BackupState::CreateSystemBase,
        },
        BackupState::CreateSystemBackups => match e {
            BackupEvent::DirCreated => {
                let mut p = String::from_str("/Library/Application Support/iMessageWrapped");
                p.append("/backups");
                BackupState::Done { path: p, used_fallback: false }
            },
            BackupEvent::DirFailed { message } => BackupState::Failed { message },
            _ => BackupState::CreateSystemBackups,
        },
        BackupState::ResolveHome => match e {
            BackupEvent::HomeIs { home } => BackupState::CreateUserBase { home },
            BackupEvent::HomeUnknown { message } => BackupState::Failed { message },
            _ => BackupState::ResolveHome,
        },
        BackupState::CreateUserBase { home } => match e {
            BackupEvent::DirCreated => BackupState::CreateUserBackups { home },
            BackupEvent::DirFailed { message } => BackupState::Failed { message },
            _ => BackupState::CreateUserBase { home },
        },
        BackupState::CreateUserBackups { home } => match e {
            BackupEvent::DirCreated => {
                let mut p = home;
                p.append("/Library/Application Support/iMessageWrapped");
                p.append("/backups");
                BackupState::Done { path: p, used_fallback: true }
            },
            BackupEvent::DirFailed { message } => BackupState::Failed { message },
            _ => BackupState::CreateUserBackups { home },
        },
        other => other,
    }
}

/// The state a run from `s` reaches after the events in `events`, in order.
/// The machine is deterministic: the same events always lead to the same
/// state.
pub open spec fn run_spec(s: BackupStateView, events: Seq<BackupEventView>) -> BackupStateView
    decreases events.len(),
{
    if events.len() == 0 {
        s
    } else {
        run_spec(step_spec(s, events[0]), events.drop_first())
    }
}

/// Law: terminal states are stable — once a run is done or failed, further
/// events change nothing.
pub proof fn lemma_run_absorbs(s: BackupStateView, events: Seq<BackupEventView>)
    requires
        s is Done || s is Failed,
    ensures
        run_spec(s, events) == s,
    decreases events.len(),
{
    if events.len() > 0 {
        assert(step_spec(s, events[0]) == s);
        lemma_run_absorbs(s, events.drop_first());
    }
}

/// Law: provisioning is repeatable.  When every directory creation succeeds
/// — as create-if-missing creation does once the directories already exist,
/// for instance on a second run — the machine ends at the system-wide
/// backups path, without the fallback and without an error, whatever else
/// the event sequence carries after that.
pub proof fn lemma_backup_run_all_created(events: Seq<BackupEventView>)
    requires
        events.len() >= 2,
        forall|i: int| 0 <= i < events.len() ==> events[i] == BackupEventView::DirCreated,
    ensures
        run_spec(BackupStateView::CreateSystemBase, events) == (BackupStateView::Done {
            path: backups_under(system_base_path()),
            used_fallback: false,
        }),
{
    let rest = events.drop_first();
    assert(events[0] == BackupEventView::DirCreated);
    assert(rest[0] == events[1]);
    let done = BackupStateView::Done {
        path: backups_under(system_base_path()),
        used_fallback: false,
    };
    assert(step_spec(BackupStateView::CreateSystemBase, events[0])
        == BackupStateView::CreateSystemBackups);
    assert(step_spec(BackupStateView::CreateSystemBackups, rest[0]) == done);
    assert(run_spec(BackupStateView::CreateSystemBase, events) == run_spec(
        BackupStateView::CreateSystemBackups,
        rest,
    ));
    assert(run_spec(BackupStateView::CreateSystemBackups, rest) == run_spec(
        done,
        rest.drop_first(),
    ));
    lemma_run_absorbs(done, rest.drop_first());
}

} // verus!
