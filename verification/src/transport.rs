//! The connection state of the file-based and shared-memory clients.
//!
//! The clients' I/O (files, memory maps) is done by the application; the
//! state that decides what a client may do, and which broadcasts it has
//! already delivered, is kept here.

use vstd::prelude::*;
use crate::error::CommunicationError;
use crate::paths::{get_temp_path, response_path, temp_path_of};
use crate::types::{CommunicationConfig, ConfigView};

verus! {

/// The error for a client that is used before it connects.
pub fn not_connected() -> (e: CommunicationError)
    ensures
        e matches CommunicationError::ConnectionFailed(m) && m@ == "Not connected"@,
{
    CommunicationError::ConnectionFailed(String::from_str("Not connected"))
}

/// The error for a client whose server is not running.
pub fn server_not_running() -> (e: CommunicationError)
    ensures
        e matches CommunicationError::ConnectionFailed(m) && m@ == "Server not running"@,
{
    CommunicationError::ConnectionFailed(String::from_str("Server not running"))
}

/// Shared memory client implementation.
#[derive(Debug)]
pub struct SharedMemoryClient {
    config: CommunicationConfig,
    shm_file: String,
    connected: bool,
}

impl SharedMemoryClient {
    /// The configuration of the client.
    pub closed spec fn config_view(&self) -> ConfigView {
        self.config@
    }

    /// The shared-memory file the client uses.
    pub closed spec fn shm_file_view(&self) -> Seq<char> {
        self.shm_file@
    }

    /// Whether the client is connected.
    pub closed spec fn connected_view(&self) -> bool {
        self.connected
    }

    /// Create a client for the configured identifier, whose shared-memory
    /// file lies in the temporary directory `temp_dir`.
    pub fn new(config: &CommunicationConfig, temp_dir: &str) -> (r: Result<Self, CommunicationError>)
        ensures
            r matches Ok(c) && c.config_view() == config@ && c.shm_file_view() == temp_path_of(
                temp_dir@,
                config@.identifier,
                "shm"@,
            ) && !c.connected_view(),
    {
        Ok(
            SharedMemoryClient {
                config: config.duplicate(),
                shm_file: Self::get_shm_file(temp_dir, config.identifier.as_str()),
                connected: false,
            },
        )
    }

    /// The shared-memory file for an identifier.
    pub fn get_shm_file(temp_dir: &str, identifier: &str) -> (p: String)
        ensures
            p@ == temp_path_of(temp_dir@, identifier@, "shm"@),
    {
        get_temp_path(temp_dir, identifier, "shm")
    }

    /// The shared-memory file the client uses.
    pub fn shm_file(&self) -> (p: &String)
        ensures
            p@ == self.shm_file_view(),
    {
        &self.shm_file
    }

    /// The configuration of the client.
    pub fn config(&self) -> (c: &CommunicationConfig)
        ensures
            c@ == self.config_view(),
    {
        &self.config
    }

    /// Connect to the server, given whether its shared-memory file exists.
    pub fn connect(&mut self, shm_exists: bool) -> (r: Result<(), CommunicationError>)
        ensures
            r is Ok <==> shm_exists,
            r matches Err(e) ==> e matches CommunicationError::ConnectionFailed(m) && m@ == "Server not running"@,
            final(self).connected_view() == (shm_exists || old(self).connected_view()),
            final(self).config_view() == old(self).config_view(),
            final(self).shm_file_view() == old(self).shm_file_view(),
    {
        if !shm_exists {
            return Err(server_not_running());
        }
        self.connected = true;
        Ok(())
    }

    /// Succeeds only when the client is connected.
    pub fn ensure_connected(&self) -> (r: Result<(), CommunicationError>)
        ensures
            r is Ok <==> self.connected_view(),
            r matches Err(e) ==> e matches CommunicationError::ConnectionFailed(m) && m@ == "Not connected"@,
    {
        if !self.connected {
            return Err(not_connected());
        }
        Ok(())
    }

    /// Disconnect from the server.
    pub fn disconnect(&mut self) -> (r: Result<(), CommunicationError>)
        ensures
            r is Ok,
            !final(self).connected_view(),
            final(self).config_view() == old(self).config_view(),
            final(self).shm_file_view() == old(self).shm_file_view(),
    {
        self.connected = false;
        Ok(())
    }

    /// Check if connected.
    pub fn is_connected(&self) -> (r: bool)
        ensures
            r == self.connected_view(),
    {
        self.connected
    }
}

/// File-based client implementation.
#[derive(Debug)]
pub struct FileBasedClient {
    config: CommunicationConfig,
    message_file: String,
    response_file: String,
    connected: bool,
    broadcast_file: String,
    last_broadcast_size: u64,
    seen_message_ids: Vec<String>,
}

/// The mathematical value of a [`FileBasedClient`].
pub struct FileClientView {
    pub config: ConfigView,
    pub message_file: Seq<char>,
    pub response_file: Seq<char>,
    pub connected: bool,
    pub broadcast_file: Seq<char>,
    pub last_broadcast_size: u64,
    pub seen: Set<Seq<char>>,
}

impl View for FileBasedClient {
    type V = FileClientView;

    closed spec fn view(&self) -> FileClientView {
        FileClientView {
            config: self.config@,
            message_file: self.message_file@,
            response_file: self.response_file@,
            connected: self.connected,
            broadcast_file: self.broadcast_file@,
            last_broadcast_size: self.last_broadcast_size,
            seen: Set::new(
                |k: Seq<char>|
                    exists|i: int|
                        0 <= i < self.seen_message_ids@.len() && #[trigger] self.seen_message_ids@[i]@
                            == k,
            ),
        }
    }
}

/// Where reading of the broadcast file resumes, given its size: a file that
/// shrank was restarted and is read from its start.
pub open spec fn resume_offset(last: u64, file_size: u64) -> u64 {
    if file_size < last {
        0
    } else {
        last
    }
}

impl FileBasedClient {
    /// Create a client for the configured identifier, whose files lie in the
    /// temporary directory `temp_dir`.
    pub fn new(config: &CommunicationConfig, temp_dir: &str) -> (r: Result<Self, CommunicationError>)
        ensures
            r matches Ok(c) && c@.config == config@ && c@.message_file == temp_path_of(
                temp_dir@,
                config@.identifier,
                "msg"@,
            ) && c@.response_file == temp_path_of(temp_dir@, config@.identifier, "msg"@)
                + ".response"@ && c@.broadcast_file == temp_path_of(
                temp_dir@,
                config@.identifier,
                "out"@,
            ) && !c@.connected && c@.last_broadcast_size == 0 && c@.seen == Set::<
                Seq<char>,
            >::empty(),
    {
        let message_file = Self::get_message_file(temp_dir, config.identifier.as_str());
        let response_file = response_path(message_file.as_str());
        let c = FileBasedClient {
            config: config.duplicate(),
            message_file,
            response_file,
            connected: false,
            broadcast_file: Self::get_broadcast_file(temp_dir, config.identifier.as_str()),
            last_broadcast_size: 0,
            seen_message_ids: Vec::new(),
        };
        assert(c@.seen =~= Set::<Seq<char>>::empty());
        Ok(c)
    }

    /// The message file for an identifier.
    pub fn get_message_file(temp_dir: &str, identifier: &str) -> (p: String)
        ensures
            p@ == temp_path_of(temp_dir@, identifier@, "msg"@),
    {
        get_temp_path(temp_dir, identifier, "msg")
    }

    /// The broadcast file for an identifier.
    pub fn get_broadcast_file(temp_dir: &str, identifier: &str) -> (p: String)
        ensures
            p@ == temp_path_of(temp_dir@, identifier@, "out"@),
    {
        get_temp_path(temp_dir, identifier, "out")
    }

    /// The file the client writes its messages to.
    pub fn message_file(&self) -> (p: &String)
        ensures
            p@ == self@.message_file,
    {
        &self.message_file
    }

    /// The file in which the server answers.
    pub fn response_file(&self) -> (p: &String)
        ensures
            p@ == self@.response_file,
    {
        &self.response_file
    }

    /// The file the server appends broadcasts to.
    pub fn broadcast_file(&self) -> (p: &String)
        ensures
            p@ == self@.broadcast_file,
    {
        &self.broadcast_file
    }

    /// The configuration of the client.
    pub fn config(&self) -> (c: &CommunicationConfig)
        ensures
            c@ == self@.config,
    {
        &self.config
    }

    /// Connect to the server, given whether its lock file exists.
    pub fn connect(&mut self, lock_exists: bool) -> (r: Result<(), CommunicationError>)
        ensures
            r is Ok <==> lock_exists,
            r matches Err(e) ==> e matches CommunicationError::ConnectionFailed(m) && m@ == "Server not running"@,
            final(self)@ == (FileClientView { connected: lock_exists || old(self)@.connected, ..old(self)@ }),
    {
        if !lock_exists {
            return Err(server_not_running());
        }
        self.connected = true;
        Ok(())
    }

    /// Succeeds only when the client is connected.
    pub fn ensure_connected(&self) -> (r: Result<(), CommunicationError>)
        ensures
            r is Ok <==> self@.connected,
            r matches Err(e) ==> e matches CommunicationError::ConnectionFailed(m) && m@ == "Not connected"@,
    {
        if !self.connected {
            return Err(not_connected());
        }
        Ok(())
    }

    /// Disconnect from the server.
    pub fn disconnect(&mut self) -> (r: Result<(), CommunicationError>)
        ensures
            r is Ok,
            final(self)@ == (FileClientView { connected: false, ..old(self)@ }),
    {
        self.connected = false;
        Ok(())
    }

    /// Check if connected.
    pub fn is_connected(&self) -> (r: bool)
        ensures
            r == self@.connected,
    {
        self.connected
    }

    /// Where to resume reading the broadcast file of the given size; `None`
    /// when it holds nothing new.  A file smaller than what was read before
    /// was restarted, and is read again from its start.
    pub fn broadcast_resume(&mut self, file_size: u64) -> (r: Option<u64>)
        ensures
            final(self)@ == (FileClientView {
                last_broadcast_size: resume_offset(old(self)@.last_broadcast_size, file_size),
                ..old(self)@
            }),
            r == (if file_size > final(self)@.last_broadcast_size {
                Some(final(self)@.last_broadcast_size)
            } else {
                None
            }),
    {
        if file_size < self.last_broadcast_size {
            self.last_broadcast_size = 0;
        }
        if file_size > self.last_broadcast_size {
            Some(self.last_broadcast_size)
        } else {
            None
        }
    }

    /// Considers a broadcast message with identifier `id` whose line ends at
    /// `end_offset`: it is delivered only when its identifier was not seen
    /// before, and then it counts as seen and reading resumes after it.
    pub fn accept_broadcast(&mut self, id: &String, end_offset: u64) -> (delivered: bool)
        ensures
            delivered == delivers_broadcast(old(self)@.seen, id@),
            delivered ==> final(self)@ == (FileClientView {
                seen: old(self)@.seen.insert(id@),
                last_broadcast_size: end_offset,
                ..old(self)@
            }),
            !delivered ==> final(self)@ == old(self)@,
    {
        let mut i: usize = 0;
        while i < self.seen_message_ids.len()
            invariant
                i <= self.seen_message_ids@.len(),
                forall|k: int| 0 <= k < i ==> self.seen_message_ids@[k]@ != id@,
            decreases self.seen_message_ids@.len() - i,
        {
            if self.seen_message_ids[i].eq(id) {
                assert(self@.seen.contains(id@));
                return false;
            }
            i = i + 1;
        }
        let ghost old_view = self@;
        assert(!old_view.seen.contains(id@));
        self.seen_message_ids.push(id.clone());
        self.last_broadcast_size = end_offset;
        assert(self@.seen =~= old_view.seen.insert(id@)) by {
            assert forall|k: Seq<char>| old_view.seen.insert(id@).contains(k) implies self@.seen.contains(k) by {
                if k == id@ {
                    assert(self.seen_message_ids@[self.seen_message_ids@.len() - 1]@ == k);
                } else {
                    let j = choose|j: int| 0 <= j < old(self).seen_message_ids@.len() && #[trigger] old(self).seen_message_ids@[j]@ == k;
                    assert(self.seen_message_ids@[j]@ == k);
                }
            }
        }
        true
    }

    /// Records that the broadcast file was read up to `end_offset` without
    /// finding a message not seen before.
    pub fn finish_broadcast_scan(&mut self, end_offset: u64)
        ensures
            final(self)@ == (FileClientView { last_broadcast_size: end_offset, ..old(self)@ }),
    {
        self.last_broadcast_size = end_offset;
    }

    /// Considers the messages read from the broadcast file in file order,
    /// each as its identifier and the offset at which its line ends, and
    /// delivers the first one whose identifier was not seen before: it then
    /// counts as seen and reading resumes after its line.  When every one was
    /// seen, nothing is delivered and reading resumes at `scan_end`.
    pub fn take_first_new_broadcast(&mut self, lines: &Vec<(String, u64)>, scan_end: u64) -> (r: Option<usize>)
        ensures
            r == match first_unseen(old(self)@.seen, ids_of(lines@)) {
                Some(i) => Some(i as usize),
                None => None::<usize>,
            },
            r matches Some(i) ==> i < lines@.len() && final(self)@ == (FileClientView {
                seen: old(self)@.seen.insert(lines@[i as int].0@),
                last_broadcast_size: lines@[i as int].1,
                ..old(self)@
            }),
            r is None ==> final(self)@ == (FileClientView { last_broadcast_size: scan_end, ..old(self)@ }),
    {
        let ghost ids = ids_of(lines@);
        let mut i: usize = 0;
        while i < lines.len()
            invariant
                i <= lines@.len(),
                ids == ids_of(lines@),
                self@ == old(self)@,
                first_unseen_from(self@.seen, ids, 0) == first_unseen_from(self@.seen, ids, i as int),
            decreases lines@.len() - i,
        {
            let line = &lines[i];
            assert(ids[i as int] == lines@[i as int].0@);
            if self.accept_broadcast(&line.0, line.1) {
                return Some(i);
            }
            i = i + 1;
        }
        self.finish_broadcast_scan(scan_end);
        None
    }
}

/// The identifiers of scanned broadcast lines, in file order.
pub open spec fn ids_of(lines: Seq<(String, u64)>) -> Seq<Seq<char>> {
    Seq::new(lines.len(), |i: int| lines[i].0@)
}

/// The position, at or after `from`, of the first identifier that `seen`
/// does not hold.
pub open spec fn first_unseen_from(seen: Set<Seq<char>>, ids: Seq<Seq<char>>, from: int) -> Option<int>
    decreases ids.len() - from,
{
    if from < 0 || from >= ids.len() {
        None
    } else if !seen.contains(ids[from]) {
        Some(from)
    } else {
        first_unseen_from(seen, ids, from + 1)
    }
}

/// The position of the first identifier that `seen` does not hold.
pub open spec fn first_unseen(seen: Set<Seq<char>>, ids: Seq<Seq<char>>) -> Option<int> {
    first_unseen_from(seen, ids, 0)
}

/// What the search from `from` finds: an unseen identifier, with only seen
/// ones before it, or nothing when every one from `from` on is seen.
proof fn lemma_first_unseen_from(seen: Set<Seq<char>>, ids: Seq<Seq<char>>, from: int)
    requires
        0 <= from,
    ensures
        first_unseen_from(seen, ids, from) matches Some(i) ==> from <= i < ids.len() && !seen.contains(ids[i])
            && forall|k: int| from <= k < i ==> seen.contains(#[trigger] ids[k]),
        first_unseen_from(seen, ids, from) is None ==> forall|k: int| from <= k < ids.len() ==> seen.contains(#[trigger] ids[k]),
    decreases ids.len() - from,
{
    if from < ids.len() && seen.contains(ids[from]) {
        lemma_first_unseen_from(seen, ids, from + 1);
    }
}

/// Skipping identifiers that are all seen does not change what is found.
proof fn lemma_first_unseen_skip(seen: Set<Seq<char>>, ids: Seq<Seq<char>>, from: int, to: int)
    requires
        0 <= from <= to,
        forall|k: int| from <= k < to && k < ids.len() ==> seen.contains(#[trigger] ids[k]),
    ensures
        first_unseen_from(seen, ids, from) == first_unseen_from(seen, ids, to),
    decreases to - from,
{
    if from < to {
        lemma_first_unseen_skip(seen, ids, from + 1, to);
    }
}

/// Broadcasts are delivered in file order: the line delivered is preceded
/// only by lines already seen, and once it is delivered, a scan of the same
/// lines delivers only a later one.
pub proof fn lemma_broadcast_in_order(seen: Set<Seq<char>>, ids: Seq<Seq<char>>, i: int, later: Set<Seq<char>>)
    requires
        first_unseen(seen, ids) == Some(i),
        seen.insert(ids[i]).subset_of(later),
    ensures
        0 <= i < ids.len(),
        forall|k: int| 0 <= k < i ==> seen.contains(#[trigger] ids[k]),
        first_unseen(later, ids) matches Some(j) ==> i < j,
{
    lemma_first_unseen_from(seen, ids, 0);
    assert forall|k: int| 0 <= k < i + 1 && k < ids.len() implies later.contains(#[trigger] ids[k]) by {
        if k < i {
            assert(seen.contains(ids[k]));
        }
    }
    lemma_first_unseen_skip(later, ids, 0, i + 1);
    lemma_first_unseen_from(later, ids, i + 1);
}

/// The search over the lines of a file from line `from` on finds, in the
/// lines themselves, the same line as the search of the whole file from
/// `from`.
proof fn lemma_first_unseen_suffix(seen: Set<Seq<char>>, ids: Seq<Seq<char>>, from: int, g: int)
    requires
        0 <= from <= ids.len(),
        0 <= g,
    ensures
        first_unseen_from(seen, ids.skip(from), g) == match first_unseen_from(seen, ids, from + g) {
            Some(i) => Some(i - from),
            None => None::<int>,
        },
    decreases ids.len() - from - g,
{
    if from + g < ids.len() {
        assert(ids.skip(from)[g] == ids[from + g]);
        lemma_first_unseen_suffix(seen, ids, from, g + 1);
    }
}

/// Broadcasts reach a client in file order, each once.  Let a call scan the
/// broadcast file `ids` (the identifiers of its lines, in order) from line
/// `from` on, and deliver line `i`.  Every line it passed over was seen
/// before; the next call resumes after line `i`, and a line that it
/// delivers comes later in the file and carries an identifier delivered by
/// neither call nor seen before.
pub proof fn lemma_broadcasts_in_file_order(seen: Set<Seq<char>>, ids: Seq<Seq<char>>, from: int, i: int)
    requires
        0 <= from <= ids.len(),
        first_unseen(seen, ids.skip(from)) == Some(i - from),
    ensures
        from <= i < ids.len(),
        !seen.contains(ids[i]),
        forall|k: int| from <= k < i ==> seen.contains(#[trigger] ids[k]),
        i + 1 <= ids.len(),
        first_unseen(seen.insert(ids[i]), ids.skip(i + 1)) matches Some(d) ==> ({
            let j = i + 1 + d;
            &&& i < j < ids.len()
            &&& ids[j] != ids[i]
            &&& !seen.contains(ids[j])
        }),
{
    lemma_first_unseen_suffix(seen, ids, from, 0);
    lemma_first_unseen_from(seen, ids, from);
    let seen2 = seen.insert(ids[i]);
    lemma_first_unseen_suffix(seen2, ids, i + 1, 0);
    lemma_first_unseen_from(seen2, ids, i + 1);
}

/// Whether a client that has seen `seen` delivers a broadcast with identifier `id`.
pub open spec fn delivers_broadcast(seen: Set<Seq<char>>, id: Seq<char>) -> bool {
    !seen.contains(id)
}

/// A client delivers each broadcast identifier at most once: once delivered,
/// the identifier counts as seen, and the seen identifiers only grow, so it
/// is never delivered again.
pub proof fn lemma_broadcast_once(seen: Set<Seq<char>>, id: Seq<char>, later: Set<Seq<char>>)
    requires
        delivers_broadcast(seen, id),
        seen.insert(id).subset_of(later),
    ensures
        !delivers_broadcast(later, id),
{
}

} // verus!
