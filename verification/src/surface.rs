//! The authoritative store of each rendering surface's last-known navigation
//! state, keyed by the surface's opaque id.

use vstd::prelude::*;
use crate::table::KeyTable;

verus! {

/// The mathematical value of one surface's navigation state.
pub ghost struct PageView {
    pub id: Seq<char>,
    pub url: Seq<char>,
    pub title: Seq<char>,
    pub favicon: Seq<char>,
    pub is_loading: bool,
    pub can_go_back: bool,
    pub can_go_forward: bool,
}

/// The last-known navigation state of one rendering surface.
pub struct WebViewInfo {
    pub id: String,
    pub url: String,
    pub title: String,
    pub favicon: String,
    pub is_loading: bool,
    pub can_go_back: bool,
    pub can_go_forward: bool,
}

impl View for WebViewInfo {
    type V = PageView;

    open spec fn view(&self) -> PageView {
        PageView {
            id: self.id@,
            url: self.url@,
            title: self.title@,
            favicon: self.favicon@,
            is_loading: self.is_loading,
            can_go_back: self.can_go_back,
            can_go_forward: self.can_go_forward,
        }
    }
}

impl Clone for WebViewInfo {
    fn clone(&self) -> (res: Self)
        ensures
            res == *self,
    {
        WebViewInfo {
            id: self.id.clone(),
            url: self.url.clone(),
            title: self.title.clone(),
            favicon: self.favicon.clone(),
            is_loading: self.is_loading,
            can_go_back: self.can_go_back,
            can_go_forward: self.can_go_forward,
        }
    }
}

/// The state of a fresh entry for a surface registered under `id` at `url`:
/// loading, no title or favicon, no history to move through.
pub open spec fn fresh_page(id: Seq<char>, url: Seq<char>) -> PageView {
    PageView {
        id: id,
        url: url,
        title: Seq::<char>::empty(),
        favicon: Seq::<char>::empty(),
        is_loading: true,
        can_go_back: false,
        can_go_forward: false,
    }
}

/// A change notification published to the rest of the application whenever a
/// surface's stored state changes. Fields left `None` are not asserted by the
/// notification.
pub struct WebViewUpdateEvent {
    pub id: String,
    pub url: Option<String>,
    pub title: Option<String>,
    pub favicon: Option<String>,
    pub is_loading: Option<bool>,
    pub can_go_back: Option<bool>,
    pub can_go_forward: Option<bool>,
}

/// The mathematical value of a change notification.
pub ghost struct UpdateEventView {
    pub id: Seq<char>,
    pub url: Option<Seq<char>>,
    pub title: Option<Seq<char>>,
    pub favicon: Option<Seq<char>>,
    pub is_loading: Option<bool>,
    pub can_go_back: Option<bool>,
    pub can_go_forward: Option<bool>,
}

pub open spec fn view_of_opt_string(s: Option<String>) -> Option<Seq<char>> {
    match s {
        Some(v) => Some(v@),
        None => None,
    }
}

impl View for WebViewUpdateEvent {
    type V = UpdateEventView;

    open spec fn view(&self) -> UpdateEventView {
        UpdateEventView {
            id: self.id@,
            url: view_of_opt_string(self.url),
            title: view_of_opt_string(self.title),
            favicon: view_of_opt_string(self.favicon),
            is_loading: self.is_loading,
            can_go_back: self.can_go_back,
            can_go_forward: self.can_go_forward,
        }
    }
}

/// The state store: a map from surface id to its last-known navigation state.
/// Mutating operations never create an entry as a side effect; they touch the
/// named field of an existing entry only.
pub struct WebViewManager {
    webviews: KeyTable<WebViewInfo>,
}

impl View for WebViewManager {
    type V = Map<Seq<char>, PageView>;

    closed spec fn view(&self) -> Map<Seq<char>, PageView> {
        self.webviews@
    }
}

impl WebViewManager {
    /// Well-formed: the table invariant holds and every entry records its own
    /// key as its id.
    pub closed spec fn wf(&self) -> bool {
        self.webviews.wf() && forall|k: Seq<char>| #[trigger]
            self.webviews@.contains_key(k) ==> self.webviews@[k].id == k
    }

    /// An empty store.
    pub fn new() -> (r: Self)
        ensures
            r.wf(),
            r@ =~= Map::<Seq<char>, PageView>::empty(),
    {
        WebViewManager { webviews: KeyTable::new() }
    }

    /// Registers a surface under `id`, overwriting any prior entry: the fresh
    /// state is loading at `url` with empty title and favicon.
    pub fn add(&mut self, id: String, url: String)
        requires
            old(self).wf(),
        ensures
            final(self).wf(),
            final(self)@ =~= old(self)@.insert(id@, fresh_page(id@, url@)),
    {
        let info = WebViewInfo {
            id: id.clone(),
            url: url,
            title: String::new(),
            favicon: String::new(),
            is_loading: true,
            can_go_back: false,
            can_go_forward: false,
        };
        self.webviews.insert(id, info);
    }

    /// Removes the entry for `id`; idempotent.
    pub fn remove(&mut self, id: &str)
        requires
            old(self).wf(),
        ensures
            final(self).wf(),
            final(self)@ =~= old(self)@.remove(id@),
    {
        self.webviews.remove(id);
    }

    /// A snapshot read of the entry for `id`.
    pub fn get(&self, id: &str) -> (r: Option<&WebViewInfo>)
        requires
            self.wf(),
        ensures
            match r {
                Some(info) => self@.contains_key(id@) && info@ == self@[id@],
                None => !self@.contains_key(id@),
            },
    {
        self.webviews.get(id)
    }

    /// Whether an entry for `id` exists.
    pub fn contains(&self, id: &str) -> (r: bool)
        requires
            self.wf(),
        ensures
            r == self@.contains_key(id@),
    {
        self.webviews.contains(id)
    }

    /// Replaces the stored URL of `id`, if the entry exists; no-op otherwise.
    pub fn update_url(&mut self, id: &str, url: String)
        requires
            old(self).wf(),
        ensures
            final(self).wf(),
            old(self)@.contains_key(id@) ==> final(self)@ =~= old(self)@.insert(
                id@,
                (PageView { url: url@, ..old(self)@[id@] }),
            ),
            !old(self)@.contains_key(id@) ==> final(self)@ == old(self)@,
    {
        let found = match self.webviews.get(id) {
            Some(info) => Some(info.clone()),
            None => None,
        };
        match found {
            Some(mut info) => {
                info.url = url;
                self.webviews.insert(id.to_owned(), info);
            },
            None => {},
        }
    }

    /// Replaces the stored title of `id`, if the entry exists; no-op otherwise.
    pub fn update_title(&mut self, id: &str, title: String)
        requires
            old(self).wf(),
        ensures
            final(self).wf(),
            old(self)@.contains_key(id@) ==> final(self)@ =~= old(self)@.insert(
                id@,
                (PageView { title: title@, ..old(self)@[id@] }),
            ),
            !old(self)@.contains_key(id@) ==> final(self)@ == old(self)@,
    {
        let found = match self.webviews.get(id) {
            Some(info) => Some(info.clone()),
            None => None,
        };
        match found {
            Some(mut info) => {
                info.title = title;
                self.webviews.insert(id.to_owned(), info);
            },
            None => {},
        }
    }

    /// Replaces the stored favicon of `id`, if the entry exists; no-op
    /// otherwise.
    pub fn update_favicon(&mut self, id: &str, favicon: String)
        requires
            old(self).wf(),
        ensures
            final(self).wf(),
            old(self)@.contains_key(id@) ==> final(self)@ =~= old(self)@.insert(
                id@,
                (PageView { favicon: favicon@, ..old(self)@[id@] }),
            ),
            !old(self)@.contains_key(id@) ==> final(self)@ == old(self)@,
    {
        let found = match self.webviews.get(id) {
            Some(info) => Some(info.clone()),
            None => None,
        };
        match found {
            Some(mut info) => {
                info.favicon = favicon;
                self.webviews.insert(id.to_owned(), info);
            },
            None => {},
        }
    }

    /// The ids of all live surfaces.
    pub fn list(&self) -> (r: Vec<String>)
        requires
            self.wf(),
        ensures
            forall|i: int| 0 <= i < r@.len() ==> self@.contains_key((#[trigger] r@[i])@),
            forall|k: Seq<char>| self@.contains_key(k) ==> exists|i: int|
                0 <= i < r@.len() && (#[trigger] r@[i])@ == k,
    {
        self.webviews.key_list()
    }
}

/// Whatever operations produced the store's state, once an id is unregistered
/// a lookup of that id finds nothing. (Store operations are total: none of
/// them panics on an unregistered id.)
pub proof fn law_unregister_forgets(m: Map<Seq<char>, PageView>, id: Seq<char>)
    ensures
        !m.remove(id).contains_key(id),
{
}

} // verus!
