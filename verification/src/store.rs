//! The token store: the persistence boundary that maps a subscriber identity
//! to at most one stored credential set.
//!
//! This is the store's verified model, a write log in memory whose newest
//! entry for an identity wins; its contract — single-row load and overwrite
//! upsert, keyed by identity — is the one the durable backing store must
//! honour, and the one every caller in the core is verified against.

use vstd::prelude::*;

use crate::error::ServiceError;
use crate::token::TokenRecord;
use crate::token::TokenRecordView;

verus! {

/// The map a write log denotes: later writes shadow earlier ones for the
/// same identity.
pub open spec fn entries_map(s: Seq<(String, TokenRecord)>) -> Map<
    Seq<char>,
    TokenRecordView,
>
    decreases s.len(),
{
    if s.len() == 0 {
        Map::empty()
    } else {
        entries_map(s.drop_last()).insert(s.last().0@, s.last().1@)
    }
}

/// An in-memory token store: a log of upserts, read newest-first.
pub struct TokenStore {
    entries: Vec<(String, TokenRecord)>,
}

impl View for TokenStore {
    type V = Map<Seq<char>, TokenRecordView>;

    closed spec fn view(&self) -> Map<Seq<char>, TokenRecordView> {
        entries_map(self.entries@)
    }
}

proof fn lemma_entries_absent(s: Seq<(String, TokenRecord)>, k: Seq<char>)
    requires
        forall|i: int| 0 <= i < s.len() ==> s[i].0@ != k,
    ensures
        !entries_map(s).dom().contains(k),
    decreases s.len(),
{
    if s.len() > 0 {
        assert forall|i: int| 0 <= i < s.drop_last().len() implies s.drop_last()[i].0@ != k by {
            assert(s.drop_last()[i] == s[i]);
        }
        lemma_entries_absent(s.drop_last(), k);
    }
}

proof fn lemma_entries_found(s: Seq<(String, TokenRecord)>, i: int, k: Seq<char>)
    requires
        0 <= i < s.len(),
        s[i].0@ == k,
        forall|j: int| i < j < s.len() ==> s[j].0@ != k,
    ensures
        entries_map(s).dom().contains(k),
        entries_map(s)[k] == s[i].1@,
    decreases s.len(),
{
    if i < s.len() - 1 {
        assert forall|j: int| i < j < s.drop_last().len() implies s.drop_last()[j].0@ != k by {
            assert(s.drop_last()[j] == s[j]);
        }
        assert(s.drop_last()[i] == s[i]);
        lemma_entries_found(s.drop_last(), i, k);
    }
}

impl TokenStore {
    /// A store holding no credentials.
    pub fn new() -> (r: TokenStore)
        ensures
            r@ == Map::<Seq<char>, TokenRecordView>::empty(),
    {
        TokenStore { entries: Vec::new() }
    }

    /// Loads the credential stored for `identity`: the record the newest
    /// upsert for that identity wrote, or `NotFound` if there has been none.
    pub fn load(&self, identity: &String) -> (r: Result<TokenRecord, ServiceError>)
        ensures
            self@.dom().contains(identity@) ==> (r matches Ok(t) && t@ == self@[identity@]),
            !self@.dom().contains(identity@) ==> (r matches Err(e) && e == ServiceError::NotFound),
    {
        let n = self.entries.len();
        let mut i: usize = n;
        while i > 0
            invariant
                i <= n,
                n == self.entries.len(),
                forall|j: int| i <= j < n ==> self.entries@[j].0@ != identity@,
            decreases i,
        {
            i = i - 1;
            if self.entries[i].0 == *identity {
                let record = self.entries[i].1.clone();
                proof {
                    lemma_entries_found(self.entries@, i as int, identity@);
                }
                return Ok(record);
            }
        }
        proof {
            lemma_entries_absent(self.entries@, identity@);
        }
        Err(ServiceError::NotFound)
    }

    /// Writes `record` as the credential of `identity`, overwriting whatever
    /// was stored for that identity before; idempotent, and visible to every
    /// subsequent load.
    pub fn upsert(&mut self, identity: String, record: TokenRecord)
        ensures
            final(self)@ == old(self)@.insert(identity@, record@),
    {
        self.entries.push((identity, record));
        proof {
            assert(self.entries@.drop_last() =~= old(self).entries@);
        }
    }
}

/// Upserting the same record twice for the same identity leaves the store
/// exactly as one upsert does, and a load for that identity then yields that
/// record unchanged.
pub proof fn lemma_upsert_idempotent(
    m: Map<Seq<char>, TokenRecordView>,
    identity: Seq<char>,
    record: TokenRecordView,
)
    ensures
        m.insert(identity, record).insert(identity, record) == m.insert(identity, record),
        m.insert(identity, record).dom().contains(identity),
        m.insert(identity, record)[identity] == record,
{
    assert(m.insert(identity, record).insert(identity, record) =~= m.insert(identity, record));
}

} // verus!
