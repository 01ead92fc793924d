//! The daemon's state: the container registry, where it is stored, and the
//! layout of the state directory.

use vstd::prelude::*;
use vstd::string::*;

use crate::keyed::{entries_map, keys_unique, lemma_entries_map_at, KeyedVec};
use crate::paths::{join, path_join};
use crate::text::{clone_strings, concat, views};
use vstd::utf8::{decode_utf8, valid_utf8};

verus! {

/// What the engine records of a container.
#[derive(Debug)]
pub struct ContainerRecord {
    pub id: String,
    pub image: String,
    pub command: Vec<String>,
    pub pid: Option<u32>,
    pub state: String,
}

/// The model of a `ContainerRecord`.
pub struct RecordView {
    pub id: Seq<char>,
    pub image: Seq<char>,
    pub command: Seq<Seq<char>>,
    pub pid: Option<u32>,
    pub state: Seq<char>,
}

impl View for ContainerRecord {
    type V = RecordView;

    open spec fn view(&self) -> RecordView {
        RecordView {
            id: self.id@,
            image: self.image@,
            command: views(self.command@),
            pid: self.pid,
            state: self.state@,
        }
    }
}

impl ContainerRecord {
    /// A copy of this record.
    pub fn duplicate(&self) -> (r: ContainerRecord)
        ensures
            r@ == self@,
    {
        ContainerRecord {
            id: self.id.clone(),
            image: self.image.clone(),
            command: clone_strings(&self.command),
            pid: self.pid,
            state: self.state.clone(),
        }
    }
}

/// The registry of containers, by id.
pub struct DaemonState {
    pub containers: KeyedVec<ContainerRecord>,
}

pub open spec fn record_map_view(m: Map<Seq<char>, ContainerRecord>) -> Map<Seq<char>, RecordView> {
    m.map_values(|r: ContainerRecord| r@)
}

impl View for DaemonState {
    type V = Map<Seq<char>, RecordView>;

    open spec fn view(&self) -> Map<Seq<char>, RecordView> {
        record_map_view(self.containers@)
    }
}

impl Default for DaemonState {
    /// No containers.
    fn default() -> (r: Self)
        ensures
            r@ == Map::<Seq<char>, RecordView>::empty(),
    {
        let r = DaemonState { containers: KeyedVec::new() };
        assert(r@ =~= Map::<Seq<char>, RecordView>::empty());
        r
    }
}

proof fn lemma_entries_map_take<V>(e: Seq<(String, V)>, i: int)
    requires
        keys_unique(e),
        0 <= i < e.len(),
    ensures
        keys_unique(e.take(i + 1)),
        entries_map(e.take(i + 1)) == entries_map(e.take(i)).insert(e[i].0@, e[i].1),
{
    let a = e.take(i);
    let b = e.take(i + 1);
    assert forall|x: int, y: int|
        0 <= x < b.len() && 0 <= y < b.len() && x != y implies #[trigger] b[x].0@
        != #[trigger] b[y].0@ by {
        assert(b[x] == e[x] && b[y] == e[y]);
    }
    assert forall|x: int, y: int|
        0 <= x < a.len() && 0 <= y < a.len() && x != y implies #[trigger] a[x].0@
        != #[trigger] a[y].0@ by {
        assert(a[x] == e[x] && a[y] == e[y]);
    }
    let k = e[i].0@;
    assert(entries_map(b) =~= entries_map(a).insert(k, e[i].1)) by {
        assert forall|q: Seq<char>|
            #![auto]
            entries_map(b).contains_key(q) == entries_map(a).insert(k, e[i].1).contains_key(q) by {
            if entries_map(a).contains_key(q) {
                let j = choose|j: int| 0 <= j < a.len() && a[j].0@ == q;
                assert(b[j] == a[j]);
            }
            if entries_map(b).contains_key(q) && q != k {
                let j = choose|j: int| 0 <= j < b.len() && b[j].0@ == q;
                assert(j != i);
                assert(a[j] == b[j]);
            }
            assert(b[i].0@ == k);
        }
        assert forall|q: Seq<char>| #[trigger]
            entries_map(b).contains_key(q) implies entries_map(b)[q] == entries_map(a).insert(
            k,
            e[i].1,
        )[q] by {
            let j = choose|j: int| 0 <= j < b.len() && b[j].0@ == q;
            lemma_entries_map_at(b, j);
            if q != k {
                assert(j != i);
                assert(a[j] == b[j]);
                lemma_entries_map_at(a, j);
            }
        }
    }
}

impl DaemonState {
    /// A copy of the registry.
    pub fn duplicate(&self) -> (r: DaemonState)
        ensures
            r@ == self@,
    {
        let entries = self.containers.entries();
        let mut m: KeyedVec<ContainerRecord> = KeyedVec::new();
        let mut i: usize = 0;
        assert(entries@.take(0) =~= Seq::<(String, ContainerRecord)>::empty());
        assert(record_map_view(m@) =~= record_map_view(entries_map(entries@.take(0))));
        while i < entries.len()
            invariant
                i <= entries@.len(),
                keys_unique(entries@),
                self.containers@ == entries_map(entries@),
                record_map_view(m@) == record_map_view(entries_map(entries@.take(i as int))),
            decreases entries@.len() - i,
        {
            let key = entries[i].0.clone();
            let rec = entries[i].1.duplicate();
            let ghost before = m@;
            m.insert(key, rec);
            proof {
                lemma_entries_map_take(entries@, i as int);
                let ei = entries@[i as int];
                assert(record_map_view(m@) =~= record_map_view(
                    entries_map(entries@.take(i as int)).insert(ei.0@, ei.1),
                )) by {
                    assert(record_map_view(m@) =~= record_map_view(before).insert(ei.0@, rec@));
                }
            }
            i = i + 1;
        }
        assert(entries@.take(entries@.len() as int) =~= entries@);
        DaemonState { containers: m }
    }
}

/// The daemon, keeping its state under `state_root`.
#[derive(Debug, Clone)]
pub struct Daemon {
    pub state_root: String,
}

impl Daemon {
    /// A daemon with its state under `state_root`.
    pub fn new(state_root: String) -> (r: Self)
        ensures
            r.state_root == state_root,
    {
        Daemon { state_root }
    }

    /// The directories of the state directory, in the order the caller
    /// creates them: `containers`, `images`, `logs`, `run`.
    pub fn ensure_layout(&self) -> (r: Vec<String>)
        ensures
            views(r@) == seq![
                path_join(self.state_root@, "containers"@),
                path_join(self.state_root@, "images"@),
                path_join(self.state_root@, "logs"@),
                path_join(self.state_root@, "run"@),
            ],
    {
        let root = self.state_root.as_str();
        let mut r: Vec<String> = Vec::new();
        r.push(join(root, "containers"));
        r.push(join(root, "images"));
        r.push(join(root, "logs"));
        r.push(join(root, "run"));
        assert(views(r@) =~= seq![
            path_join(self.state_root@, "containers"@),
            path_join(self.state_root@, "images"@),
            path_join(self.state_root@, "logs"@),
            path_join(self.state_root@, "run"@),
        ]);
        r
    }

    /// The file the registry is saved in.
    pub fn state_file(&self) -> (r: String)
        ensures
            r@ == path_join(self.state_root@, "daemon-state.json"@),
    {
        join(self.state_root.as_str(), "daemon-state.json")
    }

    /// The control socket.
    pub fn socket_path(&self) -> (r: String)
        ensures
            r@ == path_join(path_join(self.state_root@, "run"@), "grindd.sock"@),
    {
        let run = join(self.state_root.as_str(), "run");
        join(run.as_str(), "grindd.sock")
    }
}

/// The log file of container `container_id`.
pub open spec fn log_path(state_root: Seq<char>, container_id: Seq<char>) -> Seq<char> {
    path_join(path_join(state_root, "logs"@), container_id + ".log"@)
}

/// The log file of container `container_id` under `state_root`.
pub fn container_log_path(state_root: &str, container_id: &str) -> (r: String)
    ensures
        r@ == log_path(state_root@, container_id@),
{
    let logs = join(state_root, "logs");
    let file = concat(container_id, ".log");
    join(logs.as_str(), file.as_str())
}

/// The log contents after appending `line` to `existing` (empty when there
/// was no log yet): the line followed by a line feed.
pub fn log_with_line(existing: &str, line: &str) -> (r: String)
    ensures
        r@ == existing@ + line@ + seq!['\n'],
{
    let mut r = concat(existing, line);
    r.append("\n");
    proof {
        reveal_strlit("\n");
    }
    r
}

/// Appending `line` to the log of container `container_id`: the log file,
/// and its contents afterwards given its contents `existing` before (empty
/// when there was no log). The caller reads and writes the file.
pub fn append_container_log(state_root: &str, container_id: &str, existing: &str, line: &str) -> (r:
    (String, String))
    ensures
        r.0@ == log_path(state_root@, container_id@),
        r.1@ == existing@ + line@ + seq!['\n'],
{
    (container_log_path(state_root, container_id), log_with_line(existing, line))
}

/// The `Debug` text of a string, as std's formatting writes it.
pub uninterp spec fn debug_str_text(s: Seq<char>) -> Seq<char>;

/// Formats `s` with `{:?}` (std's `Debug` for `str`). Trusted: the text
/// depends on `s` alone and is named `debug_str_text` here; its exact form
/// (quotes and escapes) is std's and is not stated.
#[verifier::external_body]
fn debug_str(s: &str) -> (r: String)
    ensures
        r@ == debug_str_text(s@),
{
    format!("{:?}", s)
}

/// Calls `std::str::from_utf8`. Trusted: it succeeds exactly on valid UTF-8,
/// and then the text is what the bytes encode (std's documentation: an error
/// when the slice is not UTF-8).
#[verifier::external_body]
fn utf8_text(bytes: &[u8]) -> (r: Option<String>)
    ensures
        match r {
            Some(t) => valid_utf8(bytes@) && t@ == decode_utf8(bytes@),
            None => !valid_utf8(bytes@),
        },
{
    match std::str::from_utf8(bytes) {
        Ok(t) => Some(t.to_string()),
        Err(_) => None,
    }
}

/// The daemon's answer to a request on its socket: `{"ok":true,"echo":`, the
/// request text as `{:?}` writes it (`{}` when the request is not UTF-8), and
/// `}`.
pub open spec fn echo_reply_text(request: Seq<u8>) -> Seq<char> {
    let text = if valid_utf8(request) {
        decode_utf8(request)
    } else {
        "{}"@
    };
    "{\"ok\":true,\"echo\":"@ + debug_str_text(text) + "}"@
}

/// The daemon's answer to the request `request` read from its socket.
pub fn echo_reply(request: &[u8]) -> (r: String)
    ensures
        r@ == echo_reply_text(request@),
{
    let shown = match utf8_text(request) {
        Some(t) => debug_str(t.as_str()),
        None => debug_str("{}"),
    };
    let mut r = concat("{\"ok\":true,\"echo\":", shown.as_str());
    r.append("}");
    r
}

} // verus!
