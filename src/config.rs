use vstd::prelude::*;

use crate::error::ReqError;

verus! {

/// The two kinds of scope that stored entries are keyed by.
#[derive(Debug, Clone, Copy, PartialEq, Eq)]
pub enum ScopeKind {
    /// Keyed by a remote's name (project bindings).
    Remote,
    /// Keyed by a hosting domain (API keys).
    Domain,
}

/// The configuration section that holds one kind of scope.
pub open spec fn section_of(kind: ScopeKind) -> Seq<char> {
    match kind {
        ScopeKind::Remote => "req-remote"@,
        ScopeKind::Domain => "req-domain"@,
    }
}

/// The full configuration key of `field` under scope `scope` of kind `kind`:
/// `<section>.<scope>.<field>`.
pub open spec fn key_of(kind: ScopeKind, scope: Seq<char>, field: Seq<char>) -> Seq<char> {
    section_of(kind) + "."@ + scope + "."@ + field
}

/// The field of a remote's scope that holds its project binding.
pub open spec fn project_id_field() -> Seq<char> {
    "projectid"@
}

/// The field of a domain's scope that holds its API key.
pub open spec fn api_key_field() -> Seq<char> {
    "apikey"@
}

/// The key under which the project binding of remote `remote` is stored.
pub open spec fn project_id_key(remote: Seq<char>) -> Seq<char> {
    key_of(ScopeKind::Remote, remote, project_id_field())
}

/// The key under which the API key for domain `domain` is stored.
pub open spec fn api_key_key(domain: Seq<char>) -> Seq<char> {
    key_of(ScopeKind::Domain, domain, api_key_field())
}

/// Builds the configuration key of `field` under the given scope.
pub fn config_key(kind: ScopeKind, scope: &str, field: &str) -> (r: String)
    ensures
        r@ == key_of(kind, scope@, field@),
{
    let mut r = match kind {
        ScopeKind::Remote => String::from_str("req-remote"),
        ScopeKind::Domain => String::from_str("req-domain"),
    };
    r.append(".");
    r.append(scope);
    r.append(".");
    r.append(field);
    r
}

/// The key of a remote's project binding.
pub fn project_id_config_key(remote_name: &str) -> (r: String)
    ensures
        r@ == project_id_key(remote_name@),
{
    config_key(ScopeKind::Remote, remote_name, "projectid")
}

/// The key of a domain's API key.
pub fn api_key_config_key(domain: &str) -> (r: String)
    ensures
        r@ == api_key_key(domain@),
{
    config_key(ScopeKind::Domain, domain, "apikey")
}

/// How a deletion in the backing store came out.
#[derive(Debug, Clone, PartialEq, Eq)]
pub enum DeleteOutcome {
    /// The entry was there and is gone.
    Deleted,
    /// There was no such entry.
    NotFound,
    /// The store failed, with its message.
    Failed(String),
}

/// What a deletion reports to its caller: whether an entry was removed, or
/// the store's failure. A missing entry is no failure.
pub open spec fn deletion_report(o: DeleteOutcome) -> Result<bool, ReqError> {
    match o {
        DeleteOutcome::Deleted => Ok(true),
        DeleteOutcome::NotFound => Ok(false),
        DeleteOutcome::Failed(m) => Err(ReqError::ConfigStoreError(m)),
    }
}

/// Turns the outcome of a deletion into its report (see `deletion_report`).
pub fn deletion_result(o: DeleteOutcome) -> (r: Result<bool, ReqError>)
    ensures
        r == deletion_report(o),
{
    match o {
        DeleteOutcome::Deleted => Ok(true),
        DeleteOutcome::NotFound => Ok(false),
        DeleteOutcome::Failed(m) => Err(ReqError::ConfigStoreError(m)),
    }
}

/// An in-memory key/value store with the semantics of the repository's
/// configuration: one value per key, reads of absent keys give nothing,
/// deleting an absent key reports that nothing was found.
pub struct ConfigStore {
    entries: Vec<(String, String)>,
    contents: Ghost<Map<Seq<char>, Seq<char>>>,
}

impl View for ConfigStore {
    type V = Map<Seq<char>, Seq<char>>;

    closed spec fn view(&self) -> Map<Seq<char>, Seq<char>> {
        self.contents@
    }
}

impl ConfigStore {
    /// Keys are unique, and the entries hold exactly the mapping of the view.
    pub closed spec fn wf(&self) -> bool {
        &&& forall|i: int, j: int|
            0 <= i < j < self.entries@.len() ==> #[trigger] self.entries@[i].0@
                != #[trigger] self.entries@[j].0@
        &&& forall|i: int|
            0 <= i < self.entries@.len() ==> {
                &&& self.contents@.contains_key(#[trigger] self.entries@[i].0@)
                &&& self.contents@[self.entries@[i].0@] == self.entries@[i].1@
            }
        &&& forall|k: Seq<char>|
            #[trigger] self.contents@.contains_key(k) ==> exists|i: int|
                0 <= i < self.entries@.len() && #[trigger] self.entries@[i].0@ == k
    }

    /// An empty store.
    pub fn new() -> (r: ConfigStore)
        ensures
            r.wf(),
            r@ == Map::<Seq<char>, Seq<char>>::empty(),
    {
        ConfigStore { entries: Vec::new(), contents: Ghost(Map::empty()) }
    }

    /// The index of the entry with key `key`, if any.
    fn position(&self, key: &String) -> (r: Option<usize>)
        requires
            self.wf(),
        ensures
            match r {
                Some(i) => i < self.entries@.len() && self.entries@[i as int].0@ == key@,
                None => !self@.contains_key(key@),
            },
    {
        let mut i: usize = 0;
        while i < self.entries.len()
            invariant
                self.wf(),
                i <= self.entries@.len(),
                forall|j: int| 0 <= j < i ==> self.entries@[j].0@ != key@,
            decreases self.entries@.len() - i,
        {
            if self.entries[i].0 == *key {
                return Some(i);
            }
            i = i + 1;
        }
        None
    }

    /// The value stored under `key`.
    pub fn get_key(&self, key: &String) -> (r: Option<String>)
        requires
            self.wf(),
        ensures
            match r {
                Some(v) => self@.contains_key(key@) && v@ == self@[key@],
                None => !self@.contains_key(key@),
            },
    {
        match self.position(key) {
            Some(i) => Some(self.entries[i].1.clone()),
            None => None,
        }
    }

    /// Stores `value` under `key`, replacing what was there.
    pub fn set_key(&mut self, key: String, value: String)
        requires
            old(self).wf(),
        ensures
            final(self).wf(),
            final(self)@ == old(self)@.insert(key@, value@),
    {
        let ghost k = key@;
        let ghost m = self@.insert(key@, value@);
        match self.position(&key) {
            Some(i) => {
                self.entries.set(i, (key, value));
                self.contents = Ghost(m);
                assert forall|k2: Seq<char>| #[trigger] self.contents@.contains_key(k2) implies exists|
                    j: int,
                | 0 <= j < self.entries@.len() && #[trigger] self.entries@[j].0@ == k2 by {
                    if k2 != k {
                        let j = choose|j: int|
                            0 <= j < old(self).entries@.len() && #[trigger] old(
                                self,
                            ).entries@[j].0@ == k2;
                        assert(self.entries@[j].0@ == k2);
                    } else {
                        assert(self.entries@[i as int].0@ == k2);
                    }
                }
            },
            None => {
                self.entries.push((key, value));
                self.contents = Ghost(m);
                let ghost n = self.entries@.len() - 1;
                assert(self.entries@[n].0@ == k);
                assert forall|k2: Seq<char>| #[trigger] self.contents@.contains_key(k2) implies exists|
                    j: int,
                | 0 <= j < self.entries@.len() && #[trigger] self.entries@[j].0@ == k2 by {
                    if k2 != k {
                        let j = choose|j: int|
                            0 <= j < old(self).entries@.len() && #[trigger] old(
                                self,
                            ).entries@[j].0@ == k2;
                        assert(self.entries@[j].0@ == k2);
                    }
                }
            },
        }
    }

    /// Removes the entry under `key`; says whether there was one.
    pub fn delete_key(&mut self, key: &String) -> (r: bool)
        requires
            old(self).wf(),
        ensures
            final(self).wf(),
            r == old(self)@.contains_key(key@),
            final(self)@ == old(self)@.remove(key@),
    {
        let ghost k = key@;
        match self.position(key) {
            Some(i) => {
                let ghost old_entries = self.entries@;
                self.entries.remove(i);
                self.contents = Ghost(self.contents@.remove(k));
                assert forall|j: int| 0 <= j < self.entries@.len() implies #[trigger] self.entries@[j] == if j < i {
                    old_entries[j]
                } else {
                    old_entries[j + 1]
                } by {}
                assert forall|a: int, b: int|
                    0 <= a < b < self.entries@.len() implies #[trigger] self.entries@[a].0@
                    != #[trigger] self.entries@[b].0@ by {
                    let a2 = if a < i { a } else { a + 1 };
                    let b2 = if b < i { b } else { b + 1 };
                    assert(old_entries[a2].0@ != old_entries[b2].0@);
                }
                assert forall|j: int| 0 <= j < self.entries@.len() implies {
                    &&& self.contents@.contains_key(#[trigger] self.entries@[j].0@)
                    &&& self.contents@[self.entries@[j].0@] == self.entries@[j].1@
                } by {
                    let j2 = if j < i { j } else { j + 1 };
                    assert(old_entries[j2].0@ != old_entries[i as int].0@);
                }
                assert forall|k2: Seq<char>| #[trigger] self.contents@.contains_key(k2) implies exists|
                    j: int,
                | 0 <= j < self.entries@.len() && #[trigger] self.entries@[j].0@ == k2 by {
                    let j = choose|j: int|
                        0 <= j < old_entries.len() && #[trigger] old_entries[j].0@ == k2;
                    assert(j != i);
                    let j2 = if j < i { j } else { j - 1 };
                    assert(self.entries@[j2].0@ == k2);
                }
                true
            },
            None => {
                assert(self.contents@.remove(k) =~= self.contents@);
                false
            },
        }
    }

    /// The value of `field` under the given scope.
    pub fn get(&self, kind: ScopeKind, scope: &str, field: &str) -> (r: Option<String>)
        requires
            self.wf(),
        ensures
            match r {
                Some(v) => self@.contains_key(key_of(kind, scope@, field@)) && v@ == self@[key_of(
                    kind,
                    scope@,
                    field@,
                )],
                None => !self@.contains_key(key_of(kind, scope@, field@)),
            },
    {
        self.get_key(&config_key(kind, scope, field))
    }

    /// Stores `value` as `field` under the given scope.
    pub fn set(&mut self, kind: ScopeKind, scope: &str, field: &str, value: &str)
        requires
            old(self).wf(),
        ensures
            final(self).wf(),
            final(self)@ == old(self)@.insert(key_of(kind, scope@, field@), value@),
    {
        self.set_key(config_key(kind, scope, field), String::from_str(value))
    }

    /// Removes `field` under the given scope; says whether it was there.
    pub fn delete(&mut self, kind: ScopeKind, scope: &str, field: &str) -> (r: bool)
        requires
            old(self).wf(),
        ensures
            final(self).wf(),
            r == old(self)@.contains_key(key_of(kind, scope@, field@)),
            final(self)@ == old(self)@.remove(key_of(kind, scope@, field@)),
    {
        self.delete_key(&config_key(kind, scope, field))
    }
}

} // verus!
