//! The registry of browsers hosted by the alternative embedded engine: a
//! table of per-browser navigation state, keyed by browser id. Engine
//! initialization and its message loop are platform work and live with the
//! host; the registry's bookkeeping is verified here.

use vstd::prelude::*;
use crate::table::KeyTable;

verus! {

/// The mathematical value of one hosted browser's state.
pub ghost struct BrowserView {
    pub id: Seq<char>,
    pub url: Seq<char>,
    pub title: Seq<char>,
    pub is_loading: bool,
    pub can_go_back: bool,
    pub can_go_forward: bool,
}

/// The last-known navigation state of one hosted browser.
pub struct CefBrowserInfo {
    pub id: String,
    pub url: String,
    pub title: String,
    pub is_loading: bool,
    pub can_go_back: bool,
    pub can_go_forward: bool,
}

impl View for CefBrowserInfo {
    type V = BrowserView;

    open spec fn view(&self) -> BrowserView {
        BrowserView {
            id: self.id@,
            url: self.url@,
            title: self.title@,
            is_loading: self.is_loading,
            can_go_back: self.can_go_back,
            can_go_forward: self.can_go_forward,
        }
    }
}

impl Clone for CefBrowserInfo {
    fn clone(&self) -> (res: Self)
        ensures
            res == *self,
    {
        CefBrowserInfo {
            id: self.id.clone(),
            url: self.url.clone(),
            title: self.title.clone(),
            is_loading: self.is_loading,
            can_go_back: self.can_go_back,
            can_go_forward: self.can_go_forward,
        }
    }
}

/// The registry of hosted browsers.
pub struct CefManager {
    browsers: KeyTable<CefBrowserInfo>,
}

impl View for CefManager {
    type V = Map<Seq<char>, BrowserView>;

    closed spec fn view(&self) -> Map<Seq<char>, BrowserView> {
        self.browsers@
    }
}

impl CefManager {
    pub closed spec fn wf(&self) -> bool {
        self.browsers.wf()
    }

    /// The browser ids in the registry's enumeration order.
    pub closed spec fn spec_keys(&self) -> Seq<Seq<char>> {
        self.browsers.spec_keys()
    }

    /// An empty registry.
    pub fn new() -> (r: Self)
        ensures
            r.wf(),
            r@ =~= Map::<Seq<char>, BrowserView>::empty(),
    {
        CefManager { browsers: KeyTable::new() }
    }

    /// Registers a fresh browser under `id`, loading at `url` with no title
    /// and no history to move through.
    pub fn create_browser(&mut self, id: String, url: String) -> (r: Result<(), String>)
        requires
            old(self).wf(),
        ensures
            final(self).wf(),
            r is Ok,
            final(self)@ =~= old(self)@.insert(
                id@,
                (BrowserView {
                    id: id@,
                    url: url@,
                    title: Seq::<char>::empty(),
                    is_loading: true,
                    can_go_back: false,
                    can_go_forward: false,
                }),
            ),
    {
        let info = CefBrowserInfo {
            id: id.clone(),
            url: url,
            title: String::new(),
            is_loading: true,
            can_go_back: false,
            can_go_forward: false,
        };
        self.browsers.insert(id, info);
        Ok(())
    }

    /// A snapshot of the browser registered under `id`, if any.
    pub fn get_browser(&self, id: &str) -> (r: Result<Option<CefBrowserInfo>, String>)
        requires
            self.wf(),
        ensures
            match r {
                Ok(Some(info)) => self@.contains_key(id@) && info@ == self@[id@],
                Ok(None) => !self@.contains_key(id@),
                Err(_) => false,
            },
    {
        match self.browsers.get(id) {
            Some(info) => Ok(Some(info.clone())),
            None => Ok(None),
        }
    }

    /// Snapshots of all registered browsers, in enumeration order.
    pub fn get_all_browsers(&self) -> (r: Result<Vec<CefBrowserInfo>, String>)
        requires
            self.wf(),
        ensures
            match r {
                Ok(v) => v@.len() == self.spec_keys().len() && (forall|i: int|
                    0 <= i < v@.len() ==> self@.contains_key(#[trigger] self.spec_keys()[i]))
                    && (forall|i: int|
                    0 <= i < v@.len() ==> (#[trigger] v@[i])@ == self@[self.spec_keys()[i]]),
                Err(_) => false,
            },
    {
        proof {
            self.browsers.lemma_keys_len();
        }
        let n = self.browsers.len();
        let mut out: Vec<CefBrowserInfo> = Vec::new();
        let mut i: usize = 0;
        while i < n
            invariant
                self.wf(),
                n == self.browsers.spec_len(),
                self.spec_keys().len() == n,
                i <= n,
                out@.len() == i,
                forall|j: int| 0 <= j < i ==> self@.contains_key(#[trigger] self.spec_keys()[j]),
                forall|j: int|
                    0 <= j < i ==> (#[trigger] out@[j])@ == self@[self.spec_keys()[j]],
            decreases n - i,
        {
            let (key, info) = self.browsers.pair_at(i);
            proof {
                assert(key@ == self.spec_keys()[i as int]);
            }
            out.push(info.clone());
            i += 1;
        }
        Ok(out)
    }

    /// Drops the browser registered under `id`; idempotent.
    pub fn remove_browser(&mut self, id: &str) -> (r: Result<(), String>)
        requires
            old(self).wf(),
        ensures
            final(self).wf(),
            r is Ok,
            final(self)@ =~= old(self)@.remove(id@),
    {
        self.browsers.remove(id);
        Ok(())
    }
}

} // verus!
