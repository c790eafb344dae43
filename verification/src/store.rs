//! The certificate store: hostname to signing identity, at most one entry per
//! hostname, filled by loading and read by the resolver.
use crate::identity::{clone_handle, identity_model, IdentityModel, TlsCollection};
use crate::loader::{
    bytes_view, get_cert_key, load_outcome, own_detail, CertificateLoadError, LoadFailure,
    LoadOutcome,
};
use rustls::sign::CertifiedKey;
use std::sync::Arc;
use vstd::hash_map::StringHashMap;
use vstd::prelude::*;

verus! {

/// What storage holds for one hostname: the contents of its certificate file
/// and of its key file, each `None` where the file does not exist.
pub struct DomainFiles {
    pub hostname: String,
    pub chain_pem: Option<Vec<u8>>,
    pub key_pem: Option<Vec<u8>>,
}

impl DomainFiles {
    /// What loading this hostname comes to.
    pub open spec fn outcome(&self) -> LoadOutcome {
        load_outcome(file_view(self.chain_pem), file_view(self.key_pem))
    }

    /// Whether loading this hostname gives an identity.
    pub open spec fn is_loaded(&self) -> bool {
        self.outcome() is Loaded
    }
}

/// The contents of a file that may be missing, as a sequence of bytes.
pub open spec fn file_view(file: Option<Vec<u8>>) -> Option<Seq<u8>> {
    match file {
        Some(bytes) => Some(bytes@),
        None => None,
    }
}

/// Whether some entry of `files` gives an identity for `hostname`.
pub open spec fn loads(files: Seq<DomainFiles>, hostname: Seq<char>) -> bool
    decreases files.len(),
{
    files.len() > 0 && ((files.last().hostname@ == hostname && files.last().is_loaded()) || loads(
        files.drop_last(),
        hostname,
    ))
}

/// The identity of the last entry of `files` that gives one for
/// `hostname`; meaningful where [`loads`] holds.
pub open spec fn last_identity(files: Seq<DomainFiles>, hostname: Seq<char>) -> IdentityModel
    decreases files.len(),
{
    if files.len() == 0 {
        arbitrary()
    } else {
        match files.last().outcome() {
            LoadOutcome::Loaded(identity) if files.last().hostname@ == hostname => identity,
            _ => last_identity(files.drop_last(), hostname),
        }
    }
}

/// The identities in a store after loading `files` in order into one that held
/// `before`: each identity made replaces what its hostname had, and nothing
/// else changes.
pub open spec fn identities_after(
    before: Map<Seq<char>, IdentityModel>,
    files: Seq<DomainFiles>,
) -> Map<Seq<char>, IdentityModel>
    decreases files.len(),
{
    if files.len() == 0 {
        before
    } else {
        let rest = identities_after(before, files.drop_last());
        match files.last().outcome() {
            LoadOutcome::Loaded(identity) => rest.insert(files.last().hostname@, identity),
            _ => rest,
        }
    }
}

/// How many entries of `files` give an identity.
pub open spec fn loaded_count(files: Seq<DomainFiles>) -> nat
    decreases files.len(),
{
    if files.len() == 0 {
        0
    } else {
        loaded_count(files.drop_last()) + if files.last().is_loaded() {
            1nat
        } else {
            0nat
        }
    }
}

/// The hostnames of `files` whose files are present and unusable, each with
/// its failure, in order.
pub open spec fn faults(files: Seq<DomainFiles>) -> Seq<(Seq<char>, LoadFailure)>
    decreases files.len(),
{
    if files.len() == 0 {
        Seq::empty()
    } else {
        match files.last().outcome() {
            LoadOutcome::Failed(failure) => faults(files.drop_last()).push(
                (files.last().hostname@, failure),
            ),
            _ => faults(files.drop_last()),
        }
    }
}

/// Whether `errors`, taken as the errors of the entries of `files` that
/// fail, in order, carry the detail that is fixed for a chain file without
/// certificate and for a key file without key.
pub open spec fn carries_details(files: Seq<DomainFiles>, errors: Seq<CertificateLoadError>) -> bool
    decreases files.len(),
{
    if files.len() == 0 {
        true
    } else if files.last().outcome() is Failed {
        &&& errors.len() > 0
        &&& own_detail(file_view(files.last().chain_pem), file_view(files.last().key_pem)) matches Some(
            detail,
        ) ==> errors.last().detail@ == detail
        &&& carries_details(files.drop_last(), errors.drop_last())
    } else {
        carries_details(files.drop_last(), errors)
    }
}

/// Hostname and failure of each error, in order.
pub open spec fn errors_view(errors: Seq<CertificateLoadError>) -> Seq<(Seq<char>, LoadFailure)> {
    errors.map_values(|e: CertificateLoadError| (e.hostname@, e.failure))
}

/// Whether every hostname for which `files` gives no identity has in `after`
/// what it had in `before`: the same entry, or none.
pub open spec fn keeps_others(
    before: Map<Seq<char>, TlsCollection>,
    after: Map<Seq<char>, TlsCollection>,
    files: Seq<DomainFiles>,
) -> bool {
    forall|h: Seq<char>|
        !loads(files, h) ==> (#[trigger] after.contains_key(h) == before.contains_key(h)) && (
        before.contains_key(h) ==> after[h] == before[h])
}

/// What one pass of loading did.
pub struct LoadReport {
    /// How many identities were made and stored.
    pub loaded: usize,
    /// The hostnames that were skipped because a file was unusable.
    pub errors: Vec<CertificateLoadError>,
}

/// The mapping from hostname to signing identity.
pub struct CertificateStore {
    entries: StringHashMap<TlsCollection>,
}

impl View for CertificateStore {
    type V = Map<Seq<char>, TlsCollection>;

    closed spec fn view(&self) -> Map<Seq<char>, TlsCollection> {
        self.entries@
    }
}

impl CertificateStore {
    /// What is stored for each hostname, as contracts speak of it: chain,
    /// signer's key and OCSP response.
    pub open spec fn identities(&self) -> Map<Seq<char>, IdentityModel> {
        Map::new(|h: Seq<char>| self@.contains_key(h), |h: Seq<char>| self@[h]@)
    }

    /// A store without entries.
    pub fn new() -> (r: Self)
        ensures
            r@ == Map::<Seq<char>, TlsCollection>::empty(),
    {
        CertificateStore { entries: StringHashMap::new() }
    }

    /// Whether the store holds no entry.
    pub fn is_empty(&self) -> (r: bool)
        ensures
            r == self@.is_empty(),
    {
        self.entries.is_empty()
    }

    /// The number of hostnames that have an identity.
    pub fn len(&self) -> (r: usize)
        ensures
            r == self@.len(),
    {
        self.entries.len()
    }

    /// Whether `hostname` has an identity.
    pub fn contains(&self, hostname: &str) -> (r: bool)
        ensures
            r == self@.contains_key(hostname@),
    {
        self.entries.contains_key(hostname)
    }

    /// Stores `identity` for `hostname`, in place of what it had.
    pub fn insert(&mut self, hostname: String, identity: TlsCollection)
        ensures
            final(self)@ == old(self)@.insert(hostname@, identity),
    {
        self.entries.insert(hostname, identity);
    }

    /// Removes every entry.
    pub fn clear(&mut self)
        ensures
            final(self)@ == Map::<Seq<char>, TlsCollection>::empty(),
    {
        self.entries.clear();
    }

    /// Takes over every entry of `other`, each in place of what its hostname
    /// had here; hostnames that `other` lacks keep what they have.
    ///
    /// A store filled on the side can so be brought in by map updates alone.
    pub fn absorb(&mut self, other: CertificateStore)
        ensures
            final(self)@ == old(self)@.union_prefer_right(other@),
    {
        self.entries.union_prefer_right(other.entries);
    }

    /// A handle to the identity of `hostname`, compared exactly as given, or
    /// `None` where it has none.
    pub fn lookup(&self, hostname: &str) -> (r: Option<TlsCollection>)
        ensures
            r == if self@.contains_key(hostname@) {
                Some(self@[hostname@])
            } else {
                None
            },
    {
        match self.entries.get(hostname) {
            Some(entry) => Some(entry.share()),
            None => None,
        }
    }

    /// The identity to present to a client that asked for `server_name`.
    ///
    /// A client that named no host gets none, whatever the store holds; one
    /// that named a host gets what `lookup` finds for it.
    pub fn resolve(&self, server_name: Option<&str>) -> (r: Option<Arc<CertifiedKey>>)
        ensures
            r == match server_name {
                Some(name) if self@.contains_key(name@) => Some(self@[name@].certified_key),
                _ => None,
            },
    {
        match server_name {
            Some(name) => match self.entries.get(name) {
                Some(entry) => Some(clone_handle(&entry.certified_key)),
                None => None,
            },
            None => None,
        }
    }

    /// Loads each hostname of `files` in order: an identity that can be made
    /// is stored in place of what the hostname had, a hostname without files
    /// is skipped, and one with unusable files is skipped and reported.
    pub fn load(&mut self, files: &Vec<DomainFiles>) -> (report: LoadReport)
        ensures
            final(self).identities() == identities_after(old(self).identities(), files@),
            keeps_others(old(self)@, final(self)@, files@),
            report.loaded == loaded_count(files@),
            errors_view(report.errors@) == faults(files@),
            carries_details(files@, report.errors@),
    {
        let mut loaded: usize = 0;
        let mut errors: Vec<CertificateLoadError> = Vec::new();
        let mut i: usize = 0;
        assert(files@.take(0) =~= Seq::empty());
        assert(errors_view(errors@) =~= Seq::empty());
        while i < files.len()
            invariant
                i <= files.len(),
                self.identities() == identities_after(old(self).identities(), files@.take(i as int)),
                keeps_others(old(self)@, self@, files@.take(i as int)),
                loaded == loaded_count(files@.take(i as int)),
                errors_view(errors@) == faults(files@.take(i as int)),
                carries_details(files@.take(i as int), errors@),
            decreases files.len() - i,
        {
            let entry = &files[i];
            let ghost prefix = files@.take(i as int);
            let ghost next = files@.take(i + 1);
            let ghost identities_before = self.identities();
            let ghost errors_before = errors@;
            let ghost entries_before = self@;
            proof {
                assert(next.drop_last() =~= prefix);
                assert(next.last() == files@[i as int]);
                lemma_loaded_count_bound(prefix);
            }
            let chain_pem = as_bytes(&entry.chain_pem);
            let key_pem = as_bytes(&entry.key_pem);
            match get_cert_key(entry.hostname.as_str(), chain_pem, key_pem) {
                Ok(Some(key)) => {
                    self.entries.insert(entry.hostname.clone(), TlsCollection::new(key));
                    loaded = loaded + 1;
                    assert(self.identities() =~= identities_before.insert(
                        entry.hostname@,
                        identity_model(key),
                    ));
                },
                Ok(None) => {},
                Err(e) => {
                    errors.push(e);
                    assert(errors_view(errors@) =~= errors_view(errors_before).push(
                        (entry.hostname@, e.failure),
                    ));
                    assert(errors@.drop_last() =~= errors_before);
                },
            }
            i = i + 1;
            assert forall|h: Seq<char>| !loads(next, h) implies (#[trigger] self@.contains_key(h)
                == old(self)@.contains_key(h)) && (old(self)@.contains_key(h) ==> self@[h] == old(
                self,
            )@[h]) by {
                assert(!loads(prefix, h));
                assert(entries_before.contains_key(h) == old(self)@.contains_key(h));
            }
        }
        assert(files@.take(i as int) =~= files@);
        LoadReport { loaded, errors }
    }

    /// Loads `files` again, as [`Self::load`] does: entries of
    /// hostnames that `files` does not name stay as they are.
    pub fn reload(&mut self, files: &Vec<DomainFiles>) -> (report: LoadReport)
        ensures
            final(self).identities() == identities_after(old(self).identities(), files@),
            keeps_others(old(self)@, final(self)@, files@),
            report.loaded == loaded_count(files@),
            errors_view(report.errors@) == faults(files@),
            carries_details(files@, report.errors@),
    {
        self.load(files)
    }
}

/// Fills `store` at startup with the identities of the hostnames to listen
/// for, as [`CertificateStore::load`] does.
pub fn init_cert_in_memory(store: &mut CertificateStore, listen: &Vec<DomainFiles>) -> (report:
    LoadReport)
    ensures
        final(store).identities() == identities_after(old(store).identities(), listen@),
        keeps_others(old(store)@, final(store)@, listen@),
        report.loaded == loaded_count(listen@),
        errors_view(report.errors@) == faults(listen@),
        carries_details(listen@, report.errors@),
{
    store.load(listen)
}

fn as_bytes(file: &Option<Vec<u8>>) -> (r: Option<&[u8]>)
    ensures
        bytes_view(r) == file_view(*file),
{
    match file {
        Some(bytes) => Some(bytes.as_slice()),
        None => None,
    }
}

proof fn lemma_loaded_count_bound(files: Seq<DomainFiles>)
    ensures
        loaded_count(files) <= files.len(),
    decreases files.len(),
{
    if files.len() > 0 {
        lemma_loaded_count_bound(files.drop_last());
    }
}

/// After loading, a hostname has an identity exactly if it had one before or
/// `files` gives it one; in the second case the identity is that of the
/// last entry of `files` that does so, in the first case alone it is the
/// identity it had.
pub proof fn lemma_identities_after(
    before: Map<Seq<char>, IdentityModel>,
    files: Seq<DomainFiles>,
    hostname: Seq<char>,
)
    ensures
        identities_after(before, files).contains_key(hostname) == (before.contains_key(hostname)
            || loads(files, hostname)),
        loads(files, hostname) ==> identities_after(before, files)[hostname] == last_identity(
            files,
            hostname,
        ),
        !loads(files, hostname) && before.contains_key(hostname) ==> identities_after(
            before,
            files,
        )[hostname] == before[hostname],
    decreases files.len(),
{
    if files.len() > 0 {
        lemma_identities_after(before, files.drop_last(), hostname);
    }
}

/// Every hostname for which an entry of `files` gives an identity is found
/// after loading, as the last such entry gave it: if entry `i` gives
/// one and no later entry gives one for the same hostname, the store holds
/// the identity of entry `i`.
pub proof fn lemma_loaded_is_found(
    before: Map<Seq<char>, IdentityModel>,
    files: Seq<DomainFiles>,
    i: int,
)
    requires
        0 <= i < files.len(),
        files[i].is_loaded(),
        forall|j: int|
            i < j < files.len() && files[j].is_loaded() ==> files[j].hostname@
                != files[i].hostname@,
    ensures
        identities_after(before, files).contains_key(files[i].hostname@),
        LoadOutcome::Loaded(identities_after(before, files)[files[i].hostname@])
            == files[i].outcome(),
    decreases files.len(),
{
    if i < files.len() - 1 {
        let rest = files.drop_last();
        assert(files.last() == files[files.len() - 1]);
        assert forall|j: int| i < j < rest.len() && rest[j].is_loaded() implies rest[j].hostname@
            != rest[i].hostname@ by {
            assert(rest[j] == files[j]);
        }
        lemma_loaded_is_found(before, rest, i);
    }
}

/// A hostname whose identity was loaded is found in the store afterwards,
/// as its files gave it: if entry `i` of `files` gives an
/// identity and no later entry gives one for the same hostname, a store that
/// loaded `files` holds an entry for that hostname with the identity of entry
/// `i`.
pub proof fn lemma_loaded_host_is_stored(
    before: CertificateStore,
    after: CertificateStore,
    files: Seq<DomainFiles>,
    i: int,
)
    requires
        after.identities() == identities_after(before.identities(), files),
        0 <= i < files.len(),
        files[i].is_loaded(),
        forall|j: int|
            i < j < files.len() && files[j].is_loaded() ==> files[j].hostname@
                != files[i].hostname@,
    ensures
        after@.contains_key(files[i].hostname@),
        LoadOutcome::Loaded(after@[files[i].hostname@]@) == files[i].outcome(),
{
    lemma_loaded_is_found(before.identities(), files, i);
    assert(after.identities().contains_key(files[i].hostname@));
}

/// Loading is idempotent: loading the same files a second time leaves every
/// hostname with the identity that the first pass gave it, and adds none.
pub proof fn lemma_load_twice(before: Map<Seq<char>, IdentityModel>, files: Seq<DomainFiles>)
    ensures
        identities_after(identities_after(before, files), files) == identities_after(before, files),
{
    let once = identities_after(before, files);
    let twice = identities_after(once, files);
    assert forall|h: Seq<char>|
        #[trigger] twice.dom().contains(h) == once.dom().contains(h) && (once.dom().contains(h)
            ==> twice[h] == once[h]) by {
        lemma_identities_after(before, files, h);
        lemma_identities_after(once, files, h);
    }
    assert(twice =~= once);
}

/// Whether some entry of `files` is for `hostname`.
pub open spec fn names(files: Seq<DomainFiles>, hostname: Seq<char>) -> bool {
    exists|i: int| 0 <= i < files.len() && #[trigger] files[i].hostname@ == hostname
}

/// A hostname that `files` does not name gets no identity from it.
pub proof fn lemma_unnamed_not_loaded(files: Seq<DomainFiles>, hostname: Seq<char>)
    requires
        !names(files, hostname),
    ensures
        !loads(files, hostname),
    decreases files.len(),
{
    if files.len() > 0 {
        let rest = files.drop_last();
        assert(files[files.len() - 1].hostname@ != hostname);
        assert forall|i: int| 0 <= i < rest.len() implies #[trigger] rest[i].hostname@
            != hostname by {
            assert(rest[i] == files[i]);
        }
        lemma_unnamed_not_loaded(rest, hostname);
    }
}

/// Loading again leaves alone what it does not name: a hostname that had a
/// identity and is not among `files` keeps it, and one that had none and
/// is not among `files` still has none. What `files` names and can be loaded
/// is present afterwards.
pub proof fn lemma_reload_keeps_unnamed(
    before: Map<Seq<char>, IdentityModel>,
    files: Seq<DomainFiles>,
    hostname: Seq<char>,
)
    ensures
        !names(files, hostname) ==> identities_after(before, files).contains_key(hostname)
            == before.contains_key(hostname),
        !names(files, hostname) && before.contains_key(hostname) ==> identities_after(
            before,
            files,
        )[hostname] == before[hostname],
        loads(files, hostname) ==> identities_after(before, files).contains_key(hostname),
{
    lemma_identities_after(before, files, hostname);
    if !names(files, hostname) {
        lemma_unnamed_not_loaded(files, hostname);
    }
}

/// The identities of a store that absorbed another are those it had, overridden
/// by those of the other.
pub proof fn lemma_absorbed_identities(
    here: CertificateStore,
    other: CertificateStore,
    merged: CertificateStore,
)
    requires
        merged@ == here@.union_prefer_right(other@),
    ensures
        merged.identities() == here.identities().union_prefer_right(other.identities()),
{
    assert(merged.identities() =~= here.identities().union_prefer_right(other.identities()));
}

/// Loading into an empty store on the side and absorbing it gives the identities
/// that loading in place gives.
pub proof fn lemma_load_aside(before: Map<Seq<char>, IdentityModel>, files: Seq<DomainFiles>)
    ensures
        before.union_prefer_right(identities_after(Map::empty(), files)) == identities_after(
            before,
            files,
        ),
{
    let aside = identities_after(Map::empty(), files);
    let merged = before.union_prefer_right(aside);
    let direct = identities_after(before, files);
    assert forall|h: Seq<char>|
        #[trigger] merged.dom().contains(h) == direct.dom().contains(h) && (
        direct.dom().contains(h) ==> merged[h] == direct[h]) by {
        lemma_identities_after(before, files, h);
        lemma_identities_after(Map::empty(), files, h);
    }
    assert(merged =~= direct);
}

} // verus!
