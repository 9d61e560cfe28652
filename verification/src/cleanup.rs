//! Removal of the files that a dead primary left behind.
//!
//! Before a process starts its own server it removes the socket, lock, PID,
//! message and shared-memory files of the protocol it is about to use, but
//! only when no live owner answers for them.  [`StaleCleanup`] decides the
//! order of checks, pauses and removals; the application carries them out.

use vstd::prelude::*;
use crate::paths::{get_socket_path, get_temp_path, response_path, socket_path_of, temp_path_of};
use crate::pid::{parse_pid, pid_of_text};
use crate::types::ProtocolType;

verus! {

/// Where a cleanup stands.
#[derive(Debug, Clone, Copy, PartialEq, Eq, Structural)]
pub enum CleanupStage {
    /// Waiting to learn whether the socket file exists.
    SocketCheck,
    /// Pausing before probing the socket.
    SocketPause,
    /// Waiting for a connection attempt to the socket.
    SocketProbe,
    /// Waiting to learn whether the lock file exists.
    LockCheck,
    /// Pausing before asking the lock holder for a handshake.
    LockPause,
    /// Waiting for a handshake with the lock holder.
    LockHandshake,
    /// Waiting for the text of the PID file.
    OwnerCheck,
    /// Waiting to learn whether the recorded owner runs.
    OwnerProbe,
    /// The owner runs: a short pause before asking again.
    OwnerShortPause,
    /// Waiting for a handshake after the short pause.
    OwnerFirstHandshake,
    /// The owner still did not answer: a long pause before asking again.
    OwnerLongPause,
    /// Waiting for a handshake after the long pause.
    OwnerSecondHandshake,
    /// Waiting to learn whether the shared-memory file exists.
    ShmCheck,
    /// Pausing before removing the shared-memory file.
    ShmPause,
    /// Removing the socket file.
    RemoveSocket,
    /// Removing the lock file.
    RemoveLock,
    /// Removing the message file.
    RemoveMessage,
    /// Removing the PID file.
    RemovePid,
    /// Removing the response file.
    RemoveResponse,
    /// Removing the shared-memory file.
    RemoveShm,
    /// Nothing more to do.
    Finished,
}

/// What the application must do next for a cleanup.
#[derive(Debug)]
pub enum CleanupAction {
    /// Find out whether a file exists.
    CheckExists { path: String },
    /// Sleep for the given number of milliseconds.
    Pause { millis: u64 },
    /// Connect to a primary over `protocol` and perform the opening
    /// handshake, with the handshake configuration.
    Handshake { protocol: ProtocolType },
    /// Connect a client over `protocol` with a 500 ms timeout, and disconnect
    /// it again when the connection succeeds.
    ProbeConnect { protocol: ProtocolType },
    /// Read the text of the PID file, if there is one.
    ReadOwnerPid,
    /// Find out whether a process with this PID runs.
    ProbeProcess { pid: u32 },
    /// Remove a file, ignoring failure.
    RemoveFile { path: String },
    /// The cleanup is complete.
    Finish,
}

/// The outcome of the last cleanup action.
#[derive(Debug)]
pub enum CleanupEvent {
    /// Whether the checked file exists.
    Exists { present: bool },
    /// A connection or handshake succeeded.
    Connected,
    /// A connection or handshake failed.
    ConnectFailed,
    /// The PID file's text, or `None` when it is missing or unreadable.
    OwnerPid { text: Option<String> },
    /// Whether the probed process runs.
    ProcessChecked { alive: bool },
    /// A pause or removal is complete.
    Done,
}

/// A cleanup of the stale files of one protocol.
pub struct StaleCleanup {
    stage: CleanupStage,
    handshake_protocol: ProtocolType,
    socket_file: String,
    lock_file: String,
    pid_file: String,
    message_file: String,
    response_file: String,
    shm_file: String,
}

/// The mathematical value of a [`StaleCleanup`].
pub struct CleanupView {
    pub stage: CleanupStage,
    pub handshake_protocol: ProtocolType,
    pub socket_file: Seq<char>,
    pub lock_file: Seq<char>,
    pub pid_file: Seq<char>,
    pub message_file: Seq<char>,
    pub response_file: Seq<char>,
    pub shm_file: Seq<char>,
}

impl View for StaleCleanup {
    type V = CleanupView;

    closed spec fn view(&self) -> CleanupView {
        CleanupView {
            stage: self.stage,
            handshake_protocol: self.handshake_protocol,
            socket_file: self.socket_file@,
            lock_file: self.lock_file@,
            pid_file: self.pid_file@,
            message_file: self.message_file@,
            response_file: self.response_file@,
            shm_file: self.shm_file@,
        }
    }
}

/// The mathematical value of a [`CleanupAction`].
pub enum CleanupActionView {
    CheckExists(Seq<char>),
    Pause(u64),
    Handshake(ProtocolType),
    ProbeConnect(ProtocolType),
    ReadOwnerPid,
    ProbeProcess(u32),
    RemoveFile(Seq<char>),
    Finish,
}

impl View for CleanupAction {
    type V = CleanupActionView;

    open spec fn view(&self) -> CleanupActionView {
        match self {
            CleanupAction::CheckExists { path } => CleanupActionView::CheckExists(path@),
            CleanupAction::Pause { millis } => CleanupActionView::Pause(*millis),
            CleanupAction::Handshake { protocol } => CleanupActionView::Handshake(*protocol),
            CleanupAction::ProbeConnect { protocol } => CleanupActionView::ProbeConnect(*protocol),
            CleanupAction::ReadOwnerPid => CleanupActionView::ReadOwnerPid,
            CleanupAction::ProbeProcess { pid } => CleanupActionView::ProbeProcess(*pid),
            CleanupAction::RemoveFile { path } => CleanupActionView::RemoveFile(path@),
            CleanupAction::Finish => CleanupActionView::Finish,
        }
    }
}

/// The stage a cleanup of `protocol`'s files starts in: other protocols
/// leave no files behind.
pub open spec fn first_cleanup_stage(protocol: ProtocolType) -> CleanupStage {
    match protocol {
        ProtocolType::UnixSocket => CleanupStage::SocketCheck,
        ProtocolType::FileBased => CleanupStage::LockCheck,
        ProtocolType::SharedMemory => CleanupStage::ShmCheck,
        _ => CleanupStage::Finished,
    }
}

/// The action a cleanup issues when it enters its stage; `pid` is the owner
/// PID just read, for the probe of the owner process.
pub open spec fn entry_action(s: CleanupView, pid: u32) -> CleanupActionView {
    match s.stage {
        CleanupStage::SocketCheck => CleanupActionView::CheckExists(s.socket_file),
        CleanupStage::LockCheck => CleanupActionView::CheckExists(s.lock_file),
        CleanupStage::ShmCheck => CleanupActionView::CheckExists(s.shm_file),
        CleanupStage::SocketPause | CleanupStage::LockPause | CleanupStage::ShmPause => {
            CleanupActionView::Pause(50)
        },
        CleanupStage::SocketProbe => CleanupActionView::ProbeConnect(ProtocolType::UnixSocket),
        CleanupStage::LockHandshake | CleanupStage::OwnerFirstHandshake
        | CleanupStage::OwnerSecondHandshake => CleanupActionView::Handshake(s.handshake_protocol),
        CleanupStage::OwnerCheck => CleanupActionView::ReadOwnerPid,
        CleanupStage::OwnerProbe => CleanupActionView::ProbeProcess(pid),
        CleanupStage::OwnerShortPause => CleanupActionView::Pause(200),
        CleanupStage::OwnerLongPause => CleanupActionView::Pause(500),
        CleanupStage::RemoveSocket => CleanupActionView::RemoveFile(s.socket_file),
        CleanupStage::RemoveLock => CleanupActionView::RemoveFile(s.lock_file),
        CleanupStage::RemoveMessage => CleanupActionView::RemoveFile(s.message_file),
        CleanupStage::RemovePid => CleanupActionView::RemoveFile(s.pid_file),
        CleanupStage::RemoveResponse => CleanupActionView::RemoveFile(s.response_file),
        CleanupStage::RemoveShm => CleanupActionView::RemoveFile(s.shm_file),
        CleanupStage::Finished => CleanupActionView::Finish,
    }
}

/// Does `e` answer the action a cleanup stage waits for?
pub open spec fn cleanup_answers(stage: CleanupStage, e: CleanupEvent) -> bool {
    match stage {
        CleanupStage::SocketCheck | CleanupStage::LockCheck | CleanupStage::ShmCheck => e is Exists,
        CleanupStage::SocketProbe | CleanupStage::LockHandshake | CleanupStage::OwnerFirstHandshake
        | CleanupStage::OwnerSecondHandshake => e is Connected || e is ConnectFailed,
        CleanupStage::OwnerCheck => e is OwnerPid,
        CleanupStage::OwnerProbe => e is ProcessChecked,
        CleanupStage::Finished => false,
        _ => e is Done,
    }
}

/// The owner PID that an event carries, read from the PID file's text.
pub open spec fn event_pid(e: CleanupEvent) -> Option<u32> {
    match e {
        CleanupEvent::OwnerPid { text: Some(t) } => pid_of_text(t@),
        _ => None,
    }
}

/// The stage a cleanup moves to when `e` answers its action.
pub open spec fn cleanup_next(s: CleanupView, e: CleanupEvent) -> CleanupStage {
    let present = e matches CleanupEvent::Exists { present: true };
    match s.stage {
        CleanupStage::SocketCheck => if present {
            CleanupStage::SocketPause
        } else {
            CleanupStage::Finished
        },
        CleanupStage::SocketPause => CleanupStage::SocketProbe,
        CleanupStage::SocketProbe => if e is Connected {
            CleanupStage::Finished
        } else {
            CleanupStage::RemoveSocket
        },
        CleanupStage::LockCheck => if present {
            CleanupStage::LockPause
        } else {
            CleanupStage::OwnerCheck
        },
        CleanupStage::LockPause => CleanupStage::LockHandshake,
        CleanupStage::LockHandshake => if e is Connected {
            CleanupStage::Finished
        } else {
            CleanupStage::OwnerCheck
        },
        CleanupStage::OwnerCheck => if event_pid(e) is Some {
            CleanupStage::OwnerProbe
        } else {
            CleanupStage::RemoveLock
        },
        CleanupStage::OwnerProbe => if e matches CleanupEvent::ProcessChecked { alive: true } {
            CleanupStage::OwnerShortPause
        } else {
            CleanupStage::RemoveLock
        },
        CleanupStage::OwnerShortPause => CleanupStage::OwnerFirstHandshake,
        CleanupStage::OwnerFirstHandshake => if e is Connected {
            CleanupStage::Finished
        } else {
            CleanupStage::OwnerLongPause
        },
        CleanupStage::OwnerLongPause => CleanupStage::OwnerSecondHandshake,
        CleanupStage::OwnerSecondHandshake => if e is Connected {
            CleanupStage::Finished
        } else {
            CleanupStage::RemoveLock
        },
        CleanupStage::ShmCheck => if present {
            CleanupStage::ShmPause
        } else {
            CleanupStage::Finished
        },
        CleanupStage::ShmPause => CleanupStage::RemoveShm,
        CleanupStage::RemoveLock => CleanupStage::RemoveMessage,
        CleanupStage::RemoveMessage => CleanupStage::RemovePid,
        CleanupStage::RemovePid => CleanupStage::RemoveResponse,
        CleanupStage::RemoveSocket | CleanupStage::RemoveResponse | CleanupStage::RemoveShm
        | CleanupStage::Finished => CleanupStage::Finished,
    }
}

/// One step of a cleanup: the state and action that follow from the
/// outcome `e` of the action the cleanup waits for.
pub open spec fn cleanup_step(s: CleanupView, e: CleanupEvent) -> (CleanupView, CleanupActionView) {
    let t = CleanupView { stage: cleanup_next(s, e), ..s };
    (t, entry_action(t, event_pid(e)->Some_0))
}

/// How many steps at most a cleanup has left.
pub open spec fn cleanup_remaining(stage: CleanupStage) -> nat {
    match stage {
        CleanupStage::LockCheck => 14,
        CleanupStage::LockPause => 13,
        CleanupStage::LockHandshake => 12,
        CleanupStage::OwnerCheck => 11,
        CleanupStage::OwnerProbe => 10,
        CleanupStage::OwnerShortPause => 9,
        CleanupStage::OwnerFirstHandshake => 8,
        CleanupStage::OwnerLongPause => 7,
        CleanupStage::OwnerSecondHandshake => 6,
        CleanupStage::RemoveLock => 4,
        CleanupStage::RemoveMessage => 3,
        CleanupStage::RemovePid => 2,
        CleanupStage::RemoveResponse => 1,
        CleanupStage::SocketCheck => 4,
        CleanupStage::SocketPause => 3,
        CleanupStage::SocketProbe => 2,
        CleanupStage::RemoveSocket => 1,
        CleanupStage::ShmCheck => 3,
        CleanupStage::ShmPause => 2,
        CleanupStage::RemoveShm => 1,
        CleanupStage::Finished => 0,
    }
}

impl StaleCleanup {
    /// A cleanup of the stale files of `protocol` for the application
    /// `identifier`, whose files lie in the temporary directory `temp_dir`;
    /// handshakes with a possible owner go over `handshake_protocol`.
    pub fn new(protocol: ProtocolType, handshake_protocol: ProtocolType, temp_dir: &str, identifier: &str) -> (c: Self)
        ensures
            c@.stage == first_cleanup_stage(protocol),
            c@.handshake_protocol == handshake_protocol,
            c@.socket_file == socket_path_of(identifier@),
            c@.lock_file == temp_path_of(temp_dir@, identifier@, "lock"@),
            c@.pid_file == temp_path_of(temp_dir@, identifier@, "pid"@),
            c@.message_file == temp_path_of(temp_dir@, identifier@, "msg"@),
            c@.response_file == temp_path_of(temp_dir@, identifier@, "msg"@) + ".response"@,
            c@.shm_file == temp_path_of(temp_dir@, identifier@, "shm"@),
    {
        let stage = match protocol {
            ProtocolType::UnixSocket => CleanupStage::SocketCheck,
            ProtocolType::FileBased => CleanupStage::LockCheck,
            ProtocolType::SharedMemory => CleanupStage::ShmCheck,
            _ => CleanupStage::Finished,
        };
        let message_file = get_temp_path(temp_dir, identifier, "msg");
        let response_file = response_path(message_file.as_str());
        StaleCleanup {
            stage,
            handshake_protocol,
            socket_file: get_socket_path(identifier),
            lock_file: get_temp_path(temp_dir, identifier, "lock"),
            pid_file: get_temp_path(temp_dir, identifier, "pid"),
            message_file,
            response_file,
            shm_file: get_temp_path(temp_dir, identifier, "shm"),
        }
    }

    fn action_for_stage(&self, pid: u32) -> (a: CleanupAction)
        ensures
            a@ == entry_action(self@, pid),
    {
        match self.stage {
            CleanupStage::SocketCheck => CleanupAction::CheckExists { path: self.socket_file.clone() },
            CleanupStage::LockCheck => CleanupAction::CheckExists { path: self.lock_file.clone() },
            CleanupStage::ShmCheck => CleanupAction::CheckExists { path: self.shm_file.clone() },
            CleanupStage::SocketPause | CleanupStage::LockPause | CleanupStage::ShmPause => {
                CleanupAction::Pause { millis: 50 }
            },
            CleanupStage::SocketProbe => CleanupAction::ProbeConnect {
                protocol: ProtocolType::UnixSocket,
            },
            CleanupStage::LockHandshake | CleanupStage::OwnerFirstHandshake
            | CleanupStage::OwnerSecondHandshake => CleanupAction::Handshake {
                protocol: self.handshake_protocol,
            },
            CleanupStage::OwnerCheck => CleanupAction::ReadOwnerPid,
            CleanupStage::OwnerProbe => CleanupAction::ProbeProcess { pid },
            CleanupStage::OwnerShortPause => CleanupAction::Pause { millis: 200 },
            CleanupStage::OwnerLongPause => CleanupAction::Pause { millis: 500 },
            CleanupStage::RemoveSocket => CleanupAction::RemoveFile { path: self.socket_file.clone() },
            CleanupStage::RemoveLock => CleanupAction::RemoveFile { path: self.lock_file.clone() },
            CleanupStage::RemoveMessage => CleanupAction::RemoveFile {
                path: self.message_file.clone(),
            },
            CleanupStage::RemovePid => CleanupAction::RemoveFile { path: self.pid_file.clone() },
            CleanupStage::RemoveResponse => CleanupAction::RemoveFile {
                path: self.response_file.clone(),
            },
            CleanupStage::RemoveShm => CleanupAction::RemoveFile { path: self.shm_file.clone() },
            CleanupStage::Finished => CleanupAction::Finish,
        }
    }

    /// The first action of the cleanup.
    pub fn first_action(&self) -> (a: CleanupAction)
        ensures
            a@ == entry_action(self@, 0),
    {
        self.action_for_stage(0)
    }

    /// Does `event` answer the action the cleanup waits for?
    pub fn accepts(&self, event: &CleanupEvent) -> (r: bool)
        ensures
            r == cleanup_answers(self@.stage, *event),
    {
        match self.stage {
            CleanupStage::SocketCheck | CleanupStage::LockCheck | CleanupStage::ShmCheck => match event {
                CleanupEvent::Exists { .. } => true,
                _ => false,
            },
            CleanupStage::SocketProbe | CleanupStage::LockHandshake
            | CleanupStage::OwnerFirstHandshake | CleanupStage::OwnerSecondHandshake => match event {
                CleanupEvent::Connected | CleanupEvent::ConnectFailed => true,
                _ => false,
            },
            CleanupStage::OwnerCheck => match event {
                CleanupEvent::OwnerPid { .. } => true,
                _ => false,
            },
            CleanupStage::OwnerProbe => match event {
                CleanupEvent::ProcessChecked { .. } => true,
                _ => false,
            },
            CleanupStage::Finished => false,
            _ => match event {
                CleanupEvent::Done => true,
                _ => false,
            },
        }
    }

    /// Takes the outcome of the last action and returns the next action.
    pub fn advance(&mut self, event: CleanupEvent) -> (a: CleanupAction)
        requires
            cleanup_answers(old(self)@.stage, event),
        ensures
            (final(self)@, a@) == cleanup_step(old(self)@, event),
            cleanup_remaining(final(self)@.stage) < cleanup_remaining(old(self)@.stage),
    {
        let pid = match &event {
            CleanupEvent::OwnerPid { text: Some(t) } => parse_pid(t.as_str()),
            _ => None,
        };
        let present = match &event {
            CleanupEvent::Exists { present } => *present,
            _ => false,
        };
        let connected = match &event {
            CleanupEvent::Connected => true,
            _ => false,
        };
        let alive = match &event {
            CleanupEvent::ProcessChecked { alive } => *alive,
            _ => false,
        };
        let next = match self.stage {
            CleanupStage::SocketCheck => if present {
                CleanupStage::SocketPause
            } else {
                CleanupStage::Finished
            },
            CleanupStage::SocketPause => CleanupStage::SocketProbe,
            CleanupStage::SocketProbe => if connected {
                CleanupStage::Finished
            } else {
                CleanupStage::RemoveSocket
            },
            CleanupStage::LockCheck => if present {
                CleanupStage::LockPause
            } else {
                CleanupStage::OwnerCheck
            },
            CleanupStage::LockPause => CleanupStage::LockHandshake,
            CleanupStage::LockHandshake => if connected {
                CleanupStage::Finished
            } else {
                CleanupStage::OwnerCheck
            },
            CleanupStage::OwnerCheck => if pid.is_some() {
                CleanupStage::OwnerProbe
            } else {
                CleanupStage::RemoveLock
            },
            CleanupStage::OwnerProbe => if alive {
                CleanupStage::OwnerShortPause
            } else {
                CleanupStage::RemoveLock
            },
            CleanupStage::OwnerShortPause => CleanupStage::OwnerFirstHandshake,
            CleanupStage::OwnerFirstHandshake => if connected {
                CleanupStage::Finished
            } else {
                CleanupStage::OwnerLongPause
            },
            CleanupStage::OwnerLongPause => CleanupStage::OwnerSecondHandshake,
            CleanupStage::OwnerSecondHandshake => if connected {
                CleanupStage::Finished
            } else {
                CleanupStage::RemoveLock
            },
            CleanupStage::ShmCheck => if present {
                CleanupStage::ShmPause
            } else {
                CleanupStage::Finished
            },
            CleanupStage::ShmPause => CleanupStage::RemoveShm,
            CleanupStage::RemoveLock => CleanupStage::RemoveMessage,
            CleanupStage::RemoveMessage => CleanupStage::RemovePid,
            CleanupStage::RemovePid => CleanupStage::RemoveResponse,
            CleanupStage::RemoveSocket | CleanupStage::RemoveResponse | CleanupStage::RemoveShm
            | CleanupStage::Finished => CleanupStage::Finished,
        };
        self.stage = next;
        let p = match pid {
            Some(p) => p,
            None => 0,
        };
        self.action_for_stage(p)
    }
}

/// A cleanup never removes anything once a possible owner answered: a
/// successful handshake or connection ends it.
pub proof fn lemma_answer_ends_cleanup(s: CleanupView, e: CleanupEvent)
    requires
        cleanup_answers(s.stage, e),
        e is Connected,
    ensures
        cleanup_step(s, e).0.stage is Finished,
        cleanup_step(s, e).1 is Finish,
{
}

/// A file is removed only when the checks before it found no live owner:
/// the step into a removal follows a failed connection or handshake, a
/// missing or unreadable owner PID, an owner that does not run, or the
/// pause and removals of the cleanup itself.
pub proof fn lemma_removal_only_without_owner(s: CleanupView, e: CleanupEvent)
    requires
        cleanup_answers(s.stage, e),
        cleanup_step(s, e).1 is RemoveFile,
    ensures
        !(e is Connected),
        s.stage is OwnerCheck ==> event_pid(e) is None,
        s.stage is OwnerProbe ==> e == (CleanupEvent::ProcessChecked { alive: false }),
        !(s.stage is SocketCheck || s.stage is LockCheck || s.stage is ShmCheck),
{
}

/// Every cleanup step brings the cleanup closer to its end.
pub proof fn lemma_cleanup_step_decreases(s: CleanupView, e: CleanupEvent)
    requires
        cleanup_answers(s.stage, e),
    ensures
        cleanup_remaining(cleanup_step(s, e).0.stage) < cleanup_remaining(s.stage),
{
}

/// A cleanup ends without removing anything only when a possible owner
/// answered, or when the socket or shared-memory file it checks is absent;
/// otherwise it ends right after its last removal.
pub proof fn lemma_finish_only_after_answer_absence_or_removal(s: CleanupView, e: CleanupEvent)
    requires
        cleanup_answers(s.stage, e),
        cleanup_step(s, e).1 is Finish,
    ensures
        e is Connected
            || (e == (CleanupEvent::Exists { present: false }) && (s.stage is SocketCheck
            || s.stage is ShmCheck))
            || s.stage is RemoveSocket || s.stage is RemoveResponse || s.stage is RemoveShm,
{
}

/// Once the owner of the file-based files is found gone (no readable PID,
/// a recorded process that does not run, or a running process that did not
/// answer the second handshake either), the cleanup removes the lock,
/// message, PID and response files, in that order, and then ends.
pub proof fn lemma_gone_owner_files_removed(s: CleanupView, e: CleanupEvent)
    requires
        cleanup_answers(s.stage, e),
        (s.stage is OwnerCheck && event_pid(e) is None) || (s.stage is OwnerProbe && e
            == CleanupEvent::ProcessChecked { alive: false }) || (s.stage is OwnerSecondHandshake
            && e is ConnectFailed),
    ensures
        ({
            let (s1, a1) = cleanup_step(s, e);
            let (s2, a2) = cleanup_step(s1, CleanupEvent::Done);
            let (s3, a3) = cleanup_step(s2, CleanupEvent::Done);
            let (s4, a4) = cleanup_step(s3, CleanupEvent::Done);
            let (s5, a5) = cleanup_step(s4, CleanupEvent::Done);
            &&& a1 == CleanupActionView::RemoveFile(s.lock_file)
            &&& cleanup_answers(s1.stage, CleanupEvent::Done)
            &&& a2 == CleanupActionView::RemoveFile(s.message_file)
            &&& cleanup_answers(s2.stage, CleanupEvent::Done)
            &&& a3 == CleanupActionView::RemoveFile(s.pid_file)
            &&& cleanup_answers(s3.stage, CleanupEvent::Done)
            &&& a4 == CleanupActionView::RemoveFile(s.response_file)
            &&& cleanup_answers(s4.stage, CleanupEvent::Done)
            &&& a5 == CleanupActionView::Finish
            &&& s5.stage is Finished
        }),
{
}

/// A running owner is given two more chances: a 200 ms pause and a
/// handshake, then a 500 ms pause and a second handshake.
pub proof fn lemma_running_owner_asked_twice(s: CleanupView)
    requires
        s.stage is OwnerProbe,
    ensures
        ({
            let (s1, a1) = cleanup_step(s, CleanupEvent::ProcessChecked { alive: true });
            let (s2, a2) = cleanup_step(s1, CleanupEvent::Done);
            let (s3, a3) = cleanup_step(s2, CleanupEvent::ConnectFailed);
            let (s4, a4) = cleanup_step(s3, CleanupEvent::Done);
            &&& a1 == CleanupActionView::Pause(200)
            &&& a2 == CleanupActionView::Handshake(s.handshake_protocol)
            &&& cleanup_step(s2, CleanupEvent::Connected).1 == CleanupActionView::Finish
            &&& a3 == CleanupActionView::Pause(500)
            &&& a4 == CleanupActionView::Handshake(s.handshake_protocol)
            &&& s4.stage is OwnerSecondHandshake
        }),
{
}

/// A socket that no server accepts connections on is removed, and then the
/// cleanup ends.
pub proof fn lemma_dead_socket_removed(s: CleanupView)
    requires
        s.stage is SocketProbe,
    ensures
        cleanup_step(s, CleanupEvent::ConnectFailed).1 == CleanupActionView::RemoveFile(s.socket_file),
        cleanup_step(cleanup_step(s, CleanupEvent::ConnectFailed).0, CleanupEvent::Done).1
            == CleanupActionView::Finish,
{
}

/// A shared-memory file that exists is removed after a 50 ms pause, and then
/// the cleanup ends.
pub proof fn lemma_shm_file_removed(s: CleanupView)
    requires
        s.stage is ShmCheck,
    ensures
        ({
            let (s1, a1) = cleanup_step(s, CleanupEvent::Exists { present: true });
            let (s2, a2) = cleanup_step(s1, CleanupEvent::Done);
            &&& a1 == CleanupActionView::Pause(50)
            &&& a2 == CleanupActionView::RemoveFile(s.shm_file)
            &&& cleanup_step(s2, CleanupEvent::Done).1 == CleanupActionView::Finish
        }),
{
}

/// A cleanup first checks the file that marks the protocol's server: the
/// socket, the lock file or the shared-memory file; other protocols leave
/// nothing to clean up.
pub proof fn lemma_cleanup_starts_with_marker(s: CleanupView, protocol: ProtocolType)
    requires
        s.stage == first_cleanup_stage(protocol),
    ensures
        protocol is UnixSocket ==> entry_action(s, 0) == CleanupActionView::CheckExists(s.socket_file),
        protocol is FileBased ==> entry_action(s, 0) == CleanupActionView::CheckExists(s.lock_file),
        protocol is SharedMemory ==> entry_action(s, 0) == CleanupActionView::CheckExists(s.shm_file),
        (protocol is InMemory || protocol is NamedPipe) ==> entry_action(s, 0) == CleanupActionView::Finish,
{
}

} // verus!
