//! The client registry: the mapping from principal identity to that
//! principal's client handle.  Its view is the mapping from bound
//! principals to the configurations their handles were built from;
//! at most one handle is bound per principal at any time.

use vstd::prelude::*;
use crate::client::ClientHandle;
use crate::config::ClientConfig;
use crate::text::str_eq;

verus! {

struct Entry {
    principal: String,
    handle: ClientHandle,
}

/// The registry of bound principals.
pub struct Registry {
    entries: Vec<Entry>,
}

/// The mapping an entry list denotes.
spec fn entries_map(s: Seq<Entry>) -> Map<Seq<char>, ClientConfig>
    decreases s.len(),
{
    if s.len() == 0 {
        Map::empty()
    } else {
        entries_map(s.drop_last()).insert(s.last().principal@, s.last().handle.spec_config())
    }
}

/// No principal occurs twice in the entry list.
spec fn unique_principals(s: Seq<Entry>) -> bool {
    forall|i: int, j: int| 0 <= i < j < s.len() ==> s[i].principal@ != s[j].principal@
}

proof fn lemma_entries_absent(s: Seq<Entry>, k: Seq<char>)
    requires
        forall|i: int| 0 <= i < s.len() ==> s[i].principal@ != k,
    ensures
        !entries_map(s).contains_key(k),
    decreases s.len(),
{
    if s.len() > 0 {
        lemma_entries_absent(s.drop_last(), k);
    }
}

proof fn lemma_entries_found(s: Seq<Entry>, i: int)
    requires
        0 <= i < s.len(),
        forall|j: int| i < j < s.len() ==> s[j].principal@ != s[i].principal@,
    ensures
        entries_map(s).contains_key(s[i].principal@),
        entries_map(s)[s[i].principal@] == s[i].handle.spec_config(),
    decreases s.len(),
{
    if i < s.len() - 1 {
        lemma_entries_found(s.drop_last(), i);
    }
}

/// Removing the entry at `i` removes exactly its principal from the
/// denoted mapping.
proof fn lemma_entries_remove(s: Seq<Entry>, i: int)
    requires
        unique_principals(s),
        0 <= i < s.len(),
    ensures
        unique_principals(s.remove(i)),
        entries_map(s.remove(i)) == entries_map(s).remove(s[i].principal@),
    decreases s.len(),
{
    let k = s[i].principal@;
    if i == s.len() - 1 {
        assert(s.remove(i) =~= s.drop_last());
        assert(forall|j: int| 0 <= j < s.drop_last().len() ==> s.drop_last()[j].principal@ != k);
        lemma_entries_absent(s.drop_last(), k);
        assert(entries_map(s.drop_last()).insert(k, s[i].handle.spec_config()).remove(k) =~= entries_map(
            s.drop_last(),
        ));
    } else {
        let t = s.drop_last();
        let last = s.last();
        lemma_entries_remove(t, i);
        assert(s.remove(i).drop_last() =~= t.remove(i));
        assert(s.remove(i).last() == last);
        assert(entries_map(s.remove(i)) == entries_map(t.remove(i)).insert(
            last.principal@,
            last.handle.spec_config(),
        ));
        assert(last.principal@ != k);
        assert(entries_map(t).remove(k).insert(last.principal@, last.handle.spec_config())
            =~= entries_map(t).insert(last.principal@, last.handle.spec_config()).remove(k));
    }
}

impl View for Registry {
    type V = Map<Seq<char>, ClientConfig>;

    closed spec fn view(&self) -> Map<Seq<char>, ClientConfig> {
        entries_map(self.entries@)
    }
}

impl Registry {
    /// The registry invariant: at most one handle per principal.
    pub closed spec fn wf(&self) -> bool {
        unique_principals(self.entries@)
    }

    /// An empty registry: nothing is bound.
    pub fn new() -> (r: Registry)
        ensures
            r.wf(),
            r@ == Map::<Seq<char>, ClientConfig>::empty(),
    {
        Registry { entries: Vec::new() }
    }

    /// Return the bound handle for a principal, or report an unbound
    /// principal; a lookup never creates anything.
    pub fn lookup<'a>(&'a self, principal: &str) -> (r: Option<&'a ClientHandle>)
        requires
            self.wf(),
        ensures
            match r {
                Some(h) => self@.contains_key(principal@) && h.spec_config() == self@[principal@],
                None => !self@.contains_key(principal@),
            },
    {
        let n = self.entries.len();
        let mut i: usize = 0;
        while i < n
            invariant
                self.wf(),
                n == self.entries@.len(),
                0 <= i <= n,
                forall|j: int| 0 <= j < i ==> self.entries@[j].principal@ != principal@,
            decreases n - i,
        {
            if str_eq(self.entries[i].principal.as_str(), principal) {
                proof {
                    lemma_entries_found(self.entries@, i as int);
                }
                return Some(&self.entries[i].handle);
            }
            i = i + 1;
        }
        proof {
            lemma_entries_absent(self.entries@, principal@);
        }
        None
    }

    /// Remove a principal's handle if one is bound.  Removing an
    /// unbound principal is a success that changes nothing; the
    /// result says whether anything was bound, so a caller may log a
    /// warning for out-of-order lifecycle events.
    pub fn unbind(&mut self, principal: &str) -> (was_bound: bool)
        requires
            old(self).wf(),
        ensures
            final(self).wf(),
            final(self)@ == old(self)@.remove(principal@),
            was_bound == old(self)@.contains_key(principal@),
            !old(self)@.contains_key(principal@) ==> final(self)@ == old(self)@,
    {
        let n = self.entries.len();
        let mut i: usize = 0;
        while i < n
            invariant
                self == old(self),
                self.wf(),
                n == self.entries@.len(),
                0 <= i <= n,
                forall|j: int| 0 <= j < i ==> self.entries@[j].principal@ != principal@,
            decreases n - i,
        {
            if str_eq(self.entries[i].principal.as_str(), principal) {
                proof {
                    lemma_entries_found(self.entries@, i as int);
                    lemma_entries_remove(self.entries@, i as int);
                }
                self.entries.remove(i);
                return true;
            }
            i = i + 1;
        }
        proof {
            lemma_entries_absent(self.entries@, principal@);
            assert(self@.remove(principal@) =~= self@);
        }
        false
    }

    /// Bind a handle to a principal, replacing any handle bound
    /// before: an existing entry is removed first, so the principal
    /// ends bound to exactly the new handle.
    pub fn bind(&mut self, principal: String, handle: ClientHandle)
        requires
            old(self).wf(),
        ensures
            final(self).wf(),
            final(self)@ == old(self)@.insert(principal@, handle.spec_config()),
    {
        let ghost m0 = self@;
        let ghost p = principal@;
        let ghost c = handle.spec_config();
        self.unbind(principal.as_str());
        proof {
            assert forall|j: int| 0 <= j < self.entries@.len() implies self.entries@[j].principal@
                != p by {
                if self.entries@[j].principal@ == p {
                    lemma_entries_found(self.entries@, j);
                }
            }
        }
        let ghost s1 = self.entries@;
        self.entries.push(Entry { principal, handle });
        proof {
            assert(self.entries@.drop_last() =~= s1);
            assert(self.entries@.last().principal@ == p);
            assert(self@ == entries_map(s1).insert(p, c));
            assert(m0.remove(p).insert(p, c) =~= m0.insert(p, c));
        }
    }
}

} // verus!
