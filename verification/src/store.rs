//! The token store: a single persisted document mapping account names
//! to token records. The document is read whole, changed in memory,
//! and rewritten whole; this module holds that in-memory document and
//! the rules for reading and changing it. Reading the file from disk
//! and decoding it happen outside the crate; they hand this module a
//! [`StoreFile`] describing what was found.

use vstd::prelude::*;
use crate::errors::SyncError;
use crate::models::Tokens;

verus! {

/// What reading the persisted document yielded: no file at all, a file
/// that could not be decoded, or the decoded document.
pub enum StoreFile {
    Absent,
    Unreadable,
    Present(TokenStore),
}

/// The token-store document: account name to token record, with unique
/// names, kept in first-insertion order.
#[derive(Debug)]
pub struct TokenStore {
    pub accounts: Vec<(String, Tokens)>,
}

/// The abstract content of an entry list: later entries win, though
/// under [`TokenStore::wf`] names never repeat.
pub open spec fn map_of(entries: Seq<(String, Tokens)>) -> Map<Seq<char>, Tokens>
    decreases entries.len(),
{
    if entries.len() == 0 {
        Map::empty()
    } else {
        map_of(entries.drop_last()).insert(entries.last().0@, entries.last().1)
    }
}

/// A name is in the map of an entry list exactly when some entry
/// carries it, and the map then holds that entry's record.
pub proof fn lemma_map_of_index(entries: Seq<(String, Tokens)>, i: int)
    requires
        0 <= i < entries.len(),
        forall|j: int| i < j < entries.len() ==> #[trigger] entries[j].0@ != entries[i].0@,
    ensures
        map_of(entries).contains_key(entries[i].0@),
        map_of(entries)[entries[i].0@] == entries[i].1,
    decreases entries.len(),
{
    if i == entries.len() - 1 {
    } else {
        lemma_map_of_index(entries.drop_last(), i);
    }
}

/// A name carried by no entry is not in the map.
pub proof fn lemma_map_of_absent(entries: Seq<(String, Tokens)>, name: Seq<char>)
    requires
        forall|j: int| 0 <= j < entries.len() ==> #[trigger] entries[j].0@ != name,
    ensures
        !map_of(entries).contains_key(name),
    decreases entries.len(),
{
    if entries.len() > 0 {
        lemma_map_of_absent(entries.drop_last(), name);
    }
}

impl TokenStore {
    /// The document as a mapping from account name to record.
    pub open spec fn as_map(self) -> Map<Seq<char>, Tokens> {
        map_of(self.accounts@)
    }

    /// Well-formed: account names are unique keys.
    pub open spec fn wf(self) -> bool {
        forall|i: int, j: int|
            0 <= i < j < self.accounts@.len() ==> #[trigger] self.accounts@[i].0@
                != #[trigger] self.accounts@[j].0@
    }

    /// An empty document, as created lazily on the first save.
    pub fn new() -> (r: TokenStore)
        ensures
            r.wf(),
            r.as_map() == Map::<Seq<char>, Tokens>::empty(),
            r.accounts@.len() == 0,
    {
        TokenStore { accounts: Vec::new() }
    }

    /// The position of the entry under `name`, if any.
    fn find_index(&self, name: &String) -> (r: Option<usize>)
        ensures
            match r {
                Some(i) => i < self.accounts@.len() && self.accounts@[i as int].0@ == name@,
                None => forall|j: int|
                    0 <= j < self.accounts@.len() ==> #[trigger] self.accounts@[j].0@ != name@,
            },
    {
        let mut i: usize = 0;
        while i < self.accounts.len()
            invariant
                i <= self.accounts@.len(),
                forall|j: int| 0 <= j < i ==> #[trigger] self.accounts@[j].0@ != name@,
            decreases self.accounts@.len() - i,
        {
            if self.accounts[i].0 == *name {
                return Some(i);
            }
            i = i + 1;
        }
        None
    }

    /// Whether the document has an entry under `name`.
    pub fn contains_account(&self, name: &String) -> (r: bool)
        requires
            self.wf(),
        ensures
            r == self.as_map().contains_key(name@),
    {
        let r = self.find_index(name);
        proof {
            match r {
                Some(i) => lemma_map_of_index(self.accounts@, i as int),
                None => lemma_map_of_absent(self.accounts@, name@),
            }
        }
        r.is_some()
    }

    /// Inserts or overwrites the record under `name`; the last save
    /// under a name wins.
    pub fn insert_account(&mut self, name: String, tokens: Tokens)
        requires
            old(self).wf(),
        ensures
            final(self).wf(),
            final(self).as_map() == old(self).as_map().insert(name@, tokens),
    {
        let found = self.find_index(&name);
        match found {
            Some(i) => {
                proof {
                    lemma_map_of_index(self.accounts@, i as int);
                }
                self.accounts.set(i, (name, tokens));
                proof {
                    lemma_map_of_update(old(self).accounts@, self.accounts@, i as int);
                }
            },
            None => {
                self.accounts.push((name, tokens));
                proof {
                    assert(self.accounts@.drop_last() =~= old(self).accounts@);
                }
            },
        }
    }

    /// The record stored under `name`, if any.
    pub fn get_account(&self, name: &String) -> (r: Option<Tokens>)
        requires
            self.wf(),
        ensures
            match r {
                Some(t) => self.as_map().contains_key(name@) && t == self.as_map()[name@],
                None => !self.as_map().contains_key(name@),
            },
    {
        match self.find_index(name) {
            Some(i) => {
                proof {
                    lemma_map_of_index(self.accounts@, i as int);
                }
                Some(self.accounts[i].1.clone())
            },
            None => {
                proof {
                    lemma_map_of_absent(self.accounts@, name@);
                }
                None
            },
        }
    }

    /// The known account names, in the document's order.
    pub fn account_names(&self) -> (r: Vec<String>)
        ensures
            r@.len() == self.accounts@.len(),
            forall|i: int| 0 <= i < r@.len() ==> #[trigger] r@[i]@ == self.accounts@[i].0@,
    {
        let mut names: Vec<String> = Vec::new();
        let mut i: usize = 0;
        while i < self.accounts.len()
            invariant
                i <= self.accounts@.len(),
                names@.len() == i,
                forall|j: int| 0 <= j < i ==> #[trigger] names@[j]@ == self.accounts@[j].0@,
            decreases self.accounts@.len() - i,
        {
            names.push(self.accounts[i].0.clone());
            i = i + 1;
        }
        names
    }
}

/// Overwriting one entry without touching its name updates the map at
/// that name alone.
proof fn lemma_map_of_update(before: Seq<(String, Tokens)>, after: Seq<(String, Tokens)>, i: int)
    requires
        0 <= i < before.len(),
        after.len() == before.len(),
        after[i].0@ == before[i].0@,
        forall|j: int| 0 <= j < before.len() && j != i ==> after[j] == #[trigger] before[j],
        forall|j1: int, j2: int|
            0 <= j1 < j2 < before.len() ==> #[trigger] before[j1].0@ != #[trigger] before[j2].0@,
    ensures
        map_of(after) == map_of(before).insert(before[i].0@, after[i].1),
    decreases before.len(),
{
    if i == before.len() - 1 {
        assert(after.drop_last() =~= before.drop_last());
        assert(map_of(after) =~= map_of(before).insert(before[i].0@, after[i].1));
    } else {
        lemma_map_of_update(before.drop_last(), after.drop_last(), i);
        lemma_map_of_absent_of_unique(before, i);
        assert(after.last() == before.last());
        assert(map_of(after) =~= map_of(before).insert(before[i].0@, after[i].1));
    }
}

/// Under unique names, the map of all entries but the last does not
/// contain the last entry's name; helper for reordering inserts.
proof fn lemma_map_of_absent_of_unique(entries: Seq<(String, Tokens)>, i: int)
    requires
        0 <= i < entries.len() - 1,
        forall|j1: int, j2: int|
            0 <= j1 < j2 < entries.len() ==> #[trigger] entries[j1].0@ != #[trigger] entries[j2].0@,
    ensures
        entries.last().0@ != entries[i].0@,
{
}

/// What `save_tokens` yields, stated over the document's mapping:
/// a fresh or updated document whose mapping carries the new record
/// under the account name, or a decode failure passed through.
pub open spec fn save_result_spec(
    file: StoreFile,
    name: Seq<char>,
    tokens: Tokens,
) -> Result<Map<Seq<char>, Tokens>, SyncError> {
    match file {
        StoreFile::Absent => Ok(Map::<Seq<char>, Tokens>::empty().insert(name, tokens)),
        StoreFile::Unreadable => Err(SyncError::CorruptStore),
        StoreFile::Present(doc) => Ok(doc.as_map().insert(name, tokens)),
    }
}

/// What `load_tokens` yields over a decoded document's mapping.
pub open spec fn load_result_spec(
    m: Map<Seq<char>, Tokens>,
    name: Seq<char>,
) -> Result<Tokens, SyncError> {
    if m.contains_key(name) {
        Ok(m[name])
    } else {
        Err(SyncError::AccountNotFound)
    }
}

/// Inserts or overwrites `name`'s record in the loaded document and
/// returns the document to be written back whole. A missing file
/// yields a fresh document with the one entry; an undecodable file is
/// a `CorruptStore` failure.
pub fn save_tokens(file: StoreFile, name: String, tokens: Tokens) -> (r: Result<
    TokenStore,
    SyncError,
>)
    requires
        (file matches StoreFile::Present(doc) ==> doc.wf()),
    ensures
        match r {
            Ok(doc) => doc.wf() && save_result_spec(file, name@, tokens) == Ok::<_, SyncError>(
                doc.as_map(),
            ),
            Err(e) => save_result_spec(file, name@, tokens) == Err::<Map<Seq<char>, Tokens>,
                _,
            >(e),
        },
{
    match file {
        StoreFile::Absent => {
            let mut doc = TokenStore::new();
            doc.insert_account(name, tokens);
            Ok(doc)
        },
        StoreFile::Unreadable => Err(SyncError::CorruptStore),
        StoreFile::Present(mut doc) => {
            doc.insert_account(name, tokens);
            Ok(doc)
        },
    }
}

/// Looks the account up in what was read from disk: `NoStoreFile` when
/// the document was never created, `CorruptStore` when it could not be
/// decoded, `AccountNotFound` when the name has no entry, and the
/// stored record otherwise.
pub fn load_tokens(file: &StoreFile, name: &String) -> (r: Result<Tokens, SyncError>)
    requires
        (*file matches StoreFile::Present(doc) ==> doc.wf()),
    ensures
        match *file {
            StoreFile::Absent => r == Err::<Tokens, _>(SyncError::NoStoreFile),
            StoreFile::Unreadable => r == Err::<Tokens, _>(SyncError::CorruptStore),
            StoreFile::Present(doc) => r == load_result_spec(doc.as_map(), name@),
        },
{
    match file {
        StoreFile::Absent => Err(SyncError::NoStoreFile),
        StoreFile::Unreadable => Err(SyncError::CorruptStore),
        StoreFile::Present(doc) => match doc.get_account(name) {
            Some(t) => Ok(t),
            None => Err(SyncError::AccountNotFound),
        },
    }
}

/// The known account names. A missing document is an empty listing,
/// never a failure; only an undecodable document fails.
pub fn list_accounts(file: &StoreFile) -> (r: Result<Vec<String>, SyncError>)
    ensures
        (*file matches StoreFile::Absent ==> r matches Ok(names) && names@.len() == 0),
        (*file matches StoreFile::Unreadable ==> r == Err::<Vec<String>, _>(
            SyncError::CorruptStore,
        )),
        (*file matches StoreFile::Present(doc) ==> r matches Ok(names) && names@.len()
            == doc.accounts@.len() && (forall|i: int|
            0 <= i < names@.len() ==> #[trigger] names@[i]@ == doc.accounts@[i].0@)),
{
    match file {
        StoreFile::Absent => Ok(Vec::new()),
        StoreFile::Unreadable => Err(SyncError::CorruptStore),
        StoreFile::Present(doc) => Ok(doc.account_names()),
    }
}

/// Round trip of the token store: saving a record under a name and
/// then loading that name from the saved document returns exactly the
/// record that was saved, for every starting document.
pub proof fn lemma_save_load_round_trip(
    file: StoreFile,
    name: Seq<char>,
    tokens: Tokens,
    m: Map<Seq<char>, Tokens>,
)
    requires
        save_result_spec(file, name, tokens) == Ok::<_, SyncError>(m),
    ensures
        load_result_spec(m, name) == Ok::<_, SyncError>(tokens),
{
}

/// A name that a document's mapping does not contain loads as
/// `AccountNotFound`, never as a record.
pub proof fn lemma_load_unknown_account(m: Map<Seq<char>, Tokens>, name: Seq<char>)
    requires
        !m.contains_key(name),
    ensures
        load_result_spec(m, name) == Err::<Tokens, _>(SyncError::AccountNotFound),
{
}

} // verus!
