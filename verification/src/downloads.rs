//! The download manager's records: the per-transfer `Download` record, the
//! cancellation registry, fresh transfer ids, and the persisted, most-recent
//! -first history that every transfer's terminal state is merged into.

use vstd::prelude::*;
use vstd::string::*;
use vstd::seq_lib::*;
use crate::strutil;
use crate::table::KeyTable;

verus! {

/// The mathematical value of one transfer record.
pub ghost struct DownloadView {
    pub id: Seq<char>,
    pub filename: Seq<char>,
    pub url: Seq<char>,
    pub total_bytes: int,
    pub received_bytes: int,
    pub state: Seq<char>,
    pub start_time: int,
    pub save_path: Option<Seq<char>>,
    pub speed: int,
    pub mime_type: Option<Seq<char>>,
}

/// One transfer: created when it starts, mutated as bytes arrive, merged into
/// the persisted history on its terminal state. `total_bytes` is -1 while
/// unknown; `state` is one of `progressing`, `completed`, `cancelled`,
/// `interrupted`.
pub struct Download {
    pub id: String,
    pub filename: String,
    pub url: String,
    pub total_bytes: i64,
    pub received_bytes: i64,
    pub state: String,
    pub start_time: i64,
    pub save_path: Option<String>,
    pub speed: i64,
    pub mime_type: Option<String>,
}

impl View for Download {
    type V = DownloadView;

    open spec fn view(&self) -> DownloadView {
        DownloadView {
            id: self.id@,
            filename: self.filename@,
            url: self.url@,
            total_bytes: self.total_bytes as int,
            received_bytes: self.received_bytes as int,
            state: self.state@,
            start_time: self.start_time as int,
            save_path: crate::surface::view_of_opt_string(self.save_path),
            speed: self.speed as int,
            mime_type: crate::surface::view_of_opt_string(self.mime_type),
        }
    }
}

fn clone_opt_string(s: &Option<String>) -> (r: Option<String>)
    ensures
        r == *s,
{
    match s {
        Some(x) => Some(x.clone()),
        None => None,
    }
}

impl Clone for Download {
    fn clone(&self) -> (res: Self)
        ensures
            res == *self,
    {
        Download {
            id: self.id.clone(),
            filename: self.filename.clone(),
            url: self.url.clone(),
            total_bytes: self.total_bytes,
            received_bytes: self.received_bytes,
            state: self.state.clone(),
            start_time: self.start_time,
            save_path: clone_opt_string(&self.save_path),
            speed: self.speed,
            mime_type: clone_opt_string(&self.mime_type),
        }
    }
}

/// What a metadata probe of the transfer's URL yielded: every field degrades
/// gracefully when the probe failed or a header was absent.
pub struct HeadInfo {
    pub total_bytes: i64,
    pub content_disposition: Option<String>,
    pub mime_type: Option<String>,
}

/// The registry of cancellation flags, keyed by transfer id: a flag is
/// registered when a transfer starts, raised by `request_cancel`, watched by
/// the transfer task between chunks, and removed on the terminal state.
pub struct DownloadManager {
    cancel_flags: KeyTable<bool>,
}

impl View for DownloadManager {
    type V = Map<Seq<char>, bool>;

    closed spec fn view(&self) -> Map<Seq<char>, bool> {
        self.cancel_flags@
    }
}

impl DownloadManager {
    pub closed spec fn wf(&self) -> bool {
        self.cancel_flags.wf()
    }

    /// An empty registry.
    pub fn new() -> (r: Self)
        ensures
            r.wf(),
            r@ =~= Map::<Seq<char>, bool>::empty(),
    {
        DownloadManager { cancel_flags: KeyTable::new() }
    }

    /// Registers a fresh, unraised flag for a starting transfer.
    pub fn register(&mut self, id: String)
        requires
            old(self).wf(),
        ensures
            final(self).wf(),
            final(self)@ =~= old(self)@.insert(id@, false),
    {
        self.cancel_flags.insert(id, false);
    }

    /// Raises the flag for `id` if one is registered; reports whether the
    /// transfer was still live. A request for a finished transfer is a no-op,
    /// not an error.
    pub fn request_cancel(&mut self, id: &str) -> (r: bool)
        requires
            old(self).wf(),
        ensures
            final(self).wf(),
            r == old(self)@.contains_key(id@),
            r ==> final(self)@ =~= old(self)@.insert(id@, true),
            !r ==> final(self)@ == old(self)@,
    {
        if self.cancel_flags.contains(id) {
            self.cancel_flags.insert(id.to_owned(), true);
            true
        } else {
            false
        }
    }

    /// Whether the flag for `id` has been raised; false for an unknown id.
    pub fn is_cancel_requested(&self, id: &str) -> (r: bool)
        requires
            self.wf(),
        ensures
            r == (self@.contains_key(id@) && self@[id@]),
    {
        match self.cancel_flags.get(id) {
            Some(f) => *f,
            None => false,
        }
    }

    /// Drops the registration on a terminal state; idempotent.
    pub fn unregister(&mut self, id: &str)
        requires
            old(self).wf(),
        ensures
            final(self).wf(),
            final(self)@ =~= old(self)@.remove(id@),
    {
        self.cancel_flags.remove(id);
    }
}

/// What the random generator yields for a fresh id: 32 lowercase hex digits.
/// Relies on `uuid::Uuid::new_v4` and its `simple` formatting.
#[verifier::external_body]
fn uuid_simple() -> (r: String)
    ensures
        r@.len() == 32,
{
    uuid::Uuid::new_v4().simple().to_string()
}

/// A fresh transfer id: a fixed tag over the first twelve digits of a random
/// identifier.
pub fn make_download_id() -> (r: String)
    ensures
        r@.len() == 15,
        strutil::spec_starts_with(r@, "dl_"@),
{
    let raw = uuid_simple();
    let tail = raw.as_str().substring_char(0, 12);
    let mut out = String::from_str("dl_");
    proof {
        reveal_strlit("dl_");
    }
    out.append(tail);
    proof {
        assert(out@.subrange(0, 3) =~= "dl_"@);
    }
    out
}

/// A transfer record in its starting state.
pub fn new_download_record(
    id: String,
    filename: String,
    url: String,
    total_bytes: i64,
    mime_type: Option<String>,
    save_path: String,
    now_ms: i64,
) -> (r: Download)
    ensures
        r@ == (DownloadView {
            id: id@,
            filename: filename@,
            url: url@,
            total_bytes: total_bytes as int,
            received_bytes: 0,
            state: "progressing"@,
            start_time: now_ms as int,
            save_path: Some(save_path@),
            speed: 0,
            mime_type: crate::surface::view_of_opt_string(mime_type),
        }),
{
    Download {
        id: id,
        filename: filename,
        url: url,
        total_bytes: total_bytes,
        received_bytes: 0,
        state: String::from_str("progressing"),
        start_time: now_ms,
        save_path: Some(save_path),
        speed: 0,
        mime_type: mime_type,
    }
}

/// The starting record of a download intercepted from a rendering surface:
/// the engine performs the transfer itself, so only the URL is known — the
/// name comes from its last path segment, the length is unknown.
pub fn intercepted_download_record(id: String, url: &String, save_dir: &str, now_ms: i64) -> (r:
    Download)
    ensures
        r@.id == id@,
        r@.url == url@,
        r@.total_bytes == -1,
        r@.received_bytes == 0,
        r@.speed == 0,
        r@.state == "progressing"@,
        r@.start_time == now_ms as int,
        r@.mime_type is None,
        match crate::urls::spec_filename_from_url(url@) {
            Some(n) => r@.filename == n,
            None => exists|t: u64| r@.filename == "download_"@ + strutil::spec_dec(t as nat),
        },
        r@.save_path == Some(save_dir@ + "/"@ + r@.filename),
{
    let filename = crate::urls::extract_filename_from_url(url.as_str());
    let mut path = save_dir.to_owned();
    path.append("/");
    path.append(filename.as_str());
    proof {
        assert(path@ =~= save_dir@ + "/"@ + filename@);
    }
    new_download_record(id, filename, url.clone(), -1, None, path, now_ms)
}

/// Closes an intercepted download's record: interrupted on failure, and on
/// success completed, with the file's on-disk length as both total and
/// received when the host could read it.
pub fn finish_intercepted(d: &mut Download, success: bool, disk_len: Option<i64>)
    ensures
        final(d)@ == (DownloadView {
            state: if success {
                "completed"@
            } else {
                "interrupted"@
            },
            total_bytes: match disk_len {
                Some(n) => if success {
                    n as int
                } else {
                    old(d)@.total_bytes
                },
                None => old(d)@.total_bytes,
            },
            received_bytes: match disk_len {
                Some(n) => if success {
                    n as int
                } else {
                    old(d)@.received_bytes
                },
                None => old(d)@.received_bytes,
            },
            ..old(d)@
        }),
{
    if success {
        d.state = String::from_str("completed");
        match disk_len {
            Some(n) => {
                d.total_bytes = n;
                d.received_bytes = n;
            },
            None => {},
        }
    } else {
        d.state = String::from_str("interrupted");
    }
}

/// `new_h` is `old_h` with `d` merged in: replacing the first record with
/// its id, or prepended when its id is new.
pub open spec fn spec_history_merged(
    old_h: Seq<Download>,
    new_h: Seq<Download>,
    d: Download,
) -> bool {
    if forall|k: int| 0 <= k < old_h.len() ==> (#[trigger] old_h[k]).id@ != d.id@ {
        new_h == old_h.insert(0, d)
    } else {
        exists|j: int|
            0 <= j < old_h.len() && (#[trigger] old_h[j]).id@ == d.id@ && (forall|k: int|
                0 <= k < j ==> (#[trigger] old_h[k]).id@ != d.id@) && new_h == old_h.update(j, d)
    }
}

/// Merges a finished record into the history: an existing record with the
/// same id is replaced in place, a new one is prepended.
pub fn history_merge(h: &mut Vec<Download>, d: Download)
    ensures
        spec_history_merged(old(h)@, final(h)@, d),
{
    let n = h.len();
    let mut i: usize = 0;
    while i < n
        invariant
            n == h@.len(),
            i <= n,
            h@ == old(h)@,
            forall|k: int| 0 <= k < i ==> (#[trigger] h@[k]).id@ != d.id@,
        decreases n - i,
    {
        if strutil::str_eq(h[i].id.as_str(), d.id.as_str()) {
            h.set(i, d);
            return ;
        }
        i += 1;
    }
    h.insert(0, d);
}

/// Prepends a freshly started transfer to the history: most recent first.
pub fn history_insert_front(h: &mut Vec<Download>, d: Download)
    ensures
        final(h)@ =~= old(h)@.insert(0, d),
{
    h.insert(0, d);
}

/// The record `d` moved to the terminal `state`: a completed record reports
/// the full probed length as received.
pub open spec fn spec_finalized_record(d: DownloadView, state: Seq<char>) -> DownloadView {
    DownloadView {
        state: state,
        received_bytes: if state == "completed"@ {
            d.total_bytes
        } else {
            d.received_bytes
        },
        ..d
    }
}

/// `new_h` is `old_h` with the first record carrying `id` moved to `state`.
pub open spec fn spec_history_finalized(
    old_h: Seq<Download>,
    new_h: Seq<Download>,
    id: Seq<char>,
    state: Seq<char>,
) -> bool {
    if forall|k: int| 0 <= k < old_h.len() ==> (#[trigger] old_h[k]).id@ != id {
        new_h == old_h
    } else {
        exists|j: int|
            0 <= j < old_h.len() && (#[trigger] old_h[j]).id@ == id && (forall|k: int|
                0 <= k < j ==> (#[trigger] old_h[k]).id@ != id) && new_h.len() == old_h.len() && (
            forall|k: int| 0 <= k < old_h.len() && k != j ==> new_h[k] == (#[trigger] old_h[k]))
                && new_h[j]@ == spec_finalized_record(old_h[j]@, state)
    }
}

/// Merges a terminal state into the history: the first record carrying the
/// transfer's id moves to the given state, and a completed record reports
/// the full probed length as received. Unknown ids leave the history alone.
pub fn history_finalize(h: &mut Vec<Download>, id: &str, state: &str)
    ensures
        spec_history_finalized(old(h)@, final(h)@, id@, state@),
{
    let n = h.len();
    let mut i: usize = 0;
    while i < n
        invariant
            n == h@.len(),
            i <= n,
            h@ == old(h)@,
            forall|k: int| 0 <= k < i ==> (#[trigger] h@[k]).id@ != id@,
        decreases n - i,
    {
        if strutil::str_eq(h[i].id.as_str(), id) {
            let mut nd = h[i].clone();
            nd.state = state.to_owned();
            if strutil::str_eq(state, "completed") {
                nd.received_bytes = nd.total_bytes;
            }
            h.set(i, nd);
            return ;
        }
        i += 1;
    }
}

/// The name a transfer is asked to be saved under, before collision
/// handling: an explicit caller-supplied name wins over everything the
/// header or the URL yields.
pub open spec fn spec_requested_name(
    u: Seq<char>,
    suggested: Option<Seq<char>>,
    cd: Option<Seq<char>>,
) -> Option<Seq<char>> {
    match suggested {
        Some(s) => Some(s),
        None => crate::filename::spec_extracted_filename(u, cd),
    }
}

/// Builds the record of a starting transfer: resolves the filename from the
/// caller's suggestion, the probed headers and the URL, makes it unique
/// against the names already in the destination directory, and fills the
/// starting fields.
pub fn prepare_download(
    url: &String,
    suggested_filename: Option<String>,
    head: &HeadInfo,
    existing: &Vec<String>,
    downloads_dir: &str,
    id: String,
    now_ms: i64,
) -> (r: Download)
    ensures
        r@.id == id@,
        r@.url == url@,
        r@.total_bytes == head.total_bytes as int,
        r@.received_bytes == 0,
        r@.speed == 0,
        r@.state == "progressing"@,
        r@.start_time == now_ms as int,
        r@.mime_type == crate::surface::view_of_opt_string(head.mime_type),
        match spec_requested_name(
            url@,
            crate::surface::view_of_opt_string(suggested_filename),
            crate::surface::view_of_opt_string(head.content_disposition),
        ) {
            Some(base) => crate::filename::spec_unique_outcome(existing@, base, r@.filename),
            None => exists|t: u64|
                crate::filename::spec_unique_outcome(
                    existing@,
                    "download_"@ + strutil::spec_dec(t as nat),
                    r@.filename,
                ),
        },
        r@.save_path == Some(downloads_dir@ + "/"@ + r@.filename),
{
    let base: String = match suggested_filename {
        Some(s) => s,
        None => {
            let cd: Option<&str> = match &head.content_disposition {
                Some(c) => Some(c.as_str()),
                None => None,
            };
            crate::filename::extract_filename(url.as_str(), cd)
        },
    };
    let name = crate::filename::get_unique_filename(existing, base.as_str());
    let mut path = downloads_dir.to_owned();
    path.append("/");
    path.append(name.as_str());
    proof {
        assert(path@ =~= downloads_dir@ + "/"@ + name@);
    }
    new_download_record(
        id,
        name,
        url.clone(),
        head.total_bytes,
        clone_opt_string(&head.mime_type),
        path,
        now_ms,
    )
}

/// A record of a transfer still in flight.
pub open spec fn spec_is_live(d: Download) -> bool {
    d.state@ == "progressing"@
}

/// The history with every finished record dropped, in order.
pub open spec fn spec_live_history(h: Seq<Download>) -> Seq<Download> {
    h.filter(|d: Download| spec_is_live(d))
}

proof fn lemma_live_push(s: Seq<Download>, d: Download)
    ensures
        spec_is_live(d) ==> spec_live_history(s.push(d)) == spec_live_history(s).push(d),
        !spec_is_live(d) ==> spec_live_history(s.push(d)) == spec_live_history(s),
{
    assert(s.push(d).drop_last() =~= s);
    assert(s.push(d).last() == d);
    reveal_with_fuel(Seq::filter, 2);
}

/// Keeps only the records of transfers still in flight, in order: the
/// user-driven clearing of finished history.
pub fn clear_completed(h: &mut Vec<Download>)
    ensures
        final(h)@ == spec_live_history(old(h)@),
{
    let n = h.len();
    let mut out: Vec<Download> = Vec::new();
    let mut i: usize = 0;
    while i < n
        invariant
            n == h@.len(),
            i <= n,
            h@ == old(h)@,
            out@ == spec_live_history(h@.subrange(0, i as int)),
        decreases n - i,
    {
        proof {
            assert(h@.subrange(0, i + 1) =~= h@.subrange(0, i as int).push(h@[i as int]));
            lemma_live_push(h@.subrange(0, i as int), h@[i as int]);
        }
        if strutil::str_eq(h[i].state.as_str(), "progressing") {
            out.push(h[i].clone());
        }
        i += 1;
    }
    proof {
        assert(h@.subrange(0, n as int) =~= h@);
    }
    *h = out;
}

} // verus!
