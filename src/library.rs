use vstd::prelude::*;
use crate::client::Client;
use crate::isbn::Isbn;
use crate::storage::Storage;
use crate::volume::Volume;

verus! {

/// Whether some volume of `vols` carries the identifier `id`.
pub open spec fn in_catalog(vols: Seq<Volume>, id: Seq<char>) -> bool {
    exists|j: int| 0 <= j < vols.len() && (#[trigger] vols[j]).isbn@ == id
}

/// The requested identifiers that the catalog does not hold yet, in request order.
pub open spec fn new_isbns(vols: Seq<Volume>, list: Seq<Isbn>) -> Seq<Isbn>
    decreases list.len(),
{
    if list.len() == 0 {
        Seq::empty()
    } else {
        let rest = new_isbns(vols, list.drop_last());
        if in_catalog(vols, list.last()@) {
            rest
        } else {
            rest.push(list.last())
        }
    }
}

/// The volumes among lookup results, in order, failures left out.
pub open spec fn found(results: Seq<Option<Volume>>) -> Seq<Volume>
    decreases results.len(),
{
    if results.len() == 0 {
        Seq::empty()
    } else {
        let rest = found(results.drop_last());
        match results.last() {
            Some(v) => rest.push(v),
            None => rest,
        }
    }
}

/// How many lookups failed.
pub open spec fn failures(results: Seq<Option<Volume>>) -> nat
    decreases results.len(),
{
    if results.len() == 0 {
        0
    } else {
        failures(results.drop_last()) + if results.last() is None { 1nat } else { 0nat }
    }
}

/// Each found book carries the identifier that was looked up for it.
pub open spec fn carries_ids(asked: Seq<Isbn>, results: Seq<Option<Volume>>) -> bool {
    forall|j: int|
        0 <= j < results.len() && j < asked.len() && (#[trigger] results[j]) is Some
            ==> results[j]->Some_0.isbn@ == asked[j]@
}

/// No two volumes of `vols` share an identifier.
pub open spec fn unique_ids(vols: Seq<Volume>) -> bool {
    forall|i: int, j: int|
        0 <= i < j < vols.len() ==> (#[trigger] vols[i]).isbn@ != (#[trigger] vols[j]).isbn@
}

/// No identifier appears twice in `list`.
pub open spec fn distinct_ids(list: Seq<Isbn>) -> bool {
    forall|i: int, j: int| 0 <= i < j < list.len() ==> (#[trigger] list[i])@ != (#[trigger] list[j])@
}

/// The identifiers of a sequence of ISBNs.
pub open spec fn ids(list: Seq<Isbn>) -> Seq<Seq<char>> {
    list.map_values(|i: Isbn| i@)
}

/// The catalog: volumes in insertion order.
pub struct Library {
    pub volumes: Vec<Volume>,
}

impl Library {
    pub fn new() -> (r: Library)
        ensures
            r.volumes@ == Seq::<Volume>::empty(),
    {
        Library { volumes: Vec::new() }
    }
}

/// What one run did: how many identifiers were asked for, how many volumes were added.
pub struct AppendStats {
    pub input_list: usize,
    pub new_volumes: usize,
}

/// Keeps the catalog and merges resolved volumes into it.
pub struct LibraryService {
    client: Client,
    storage: Storage,
    library: Library,
}

impl LibraryService {
    /// A service over the catalog that `storage` held when it was loaded.
    pub fn new(client: Client, storage: Storage, library: Library) -> (r: LibraryService)
        ensures
            r.volumes() == library.volumes@,
            r.client() == client,
            r.storage() == storage,
    {
        LibraryService { library, client, storage }
    }

    pub closed spec fn volumes(&self) -> Seq<Volume> {
        self.library.volumes@
    }

    pub closed spec fn client(&self) -> Client {
        self.client
    }

    pub closed spec fn storage(&self) -> Storage {
        self.storage
    }

    /// The catalog as it stands.
    pub fn library(&self) -> (r: &Library)
        ensures
            r.volumes@ == self.volumes(),
    {
        &self.library
    }

    pub fn get_client(&self) -> (r: &Client)
        ensures
            *r == self.client(),
    {
        &self.client
    }

    pub fn get_storage(&self) -> (r: &Storage)
        ensures
            *r == self.storage(),
    {
        &self.storage
    }

    /// Whether the catalog holds a volume with identifier `isbn`.
    fn contains(&self, isbn: &Isbn) -> (r: bool)
        ensures
            r == in_catalog(self.volumes(), isbn@),
    {
        let vols = &self.library.volumes;
        let mut j: usize = 0;
        while j < vols.len()
            invariant
                j <= vols@.len(),
                vols@ == self.volumes(),
                forall|k: int| 0 <= k < j ==> (#[trigger] vols@[k]).isbn@ != isbn@,
            decreases vols@.len() - j,
        {
            if vols[j].isbn == *isbn {
                return true;
            }
            j += 1;
        }
        false
    }

    /// The outcome of writing the catalog to its store: a failed write fails the run.
    pub fn save(&self, written: Result<(), String>) -> (r: Result<(), &'static str>)
        ensures
            r is Ok <==> written is Ok,
            written is Err ==> r == Err::<(), &'static str>("Impossible to write library"),
    {
        match written {
            Ok(()) => Ok(()),
            Err(_) => Err("Impossible to write library"),
        }
    }

    /// The requested identifiers that the catalog does not hold yet, in request order.
    /// Repeats within the request are kept.
    pub fn identify_new_isbns(&self, isbns: &[Isbn]) -> (r: Vec<Isbn>)
        ensures
            r@ == new_isbns(self.volumes(), isbns@),
    {
        let mut list: Vec<Isbn> = Vec::new();
        let mut i: usize = 0;
        while i < isbns.len()
            invariant
                i <= isbns@.len(),
                list@ == new_isbns(self.volumes(), isbns@.subrange(0, i as int)),
            decreases isbns@.len() - i,
        {
            assert(isbns@.subrange(0, i + 1).drop_last() =~= isbns@.subrange(0, i as int));
            if !self.contains(&isbns[i]) {
                list.push(isbns[i].clone());
            }
            i += 1;
        }
        assert(isbns@.subrange(0, isbns@.len() as int) =~= isbns@);
        list
    }

    /// Appends the volumes found for the new identifiers of `list` and reports what was done.
    /// `results` holds one lookup outcome per identifier of `identify_new_isbns(list)`,
    /// and each book found carries the identifier it was looked up for.
    pub fn append_volumes(&mut self, list: &[Isbn], results: Vec<Option<Volume>>) -> (r: AppendStats)
        requires
            results@.len() == new_isbns(old(self).volumes(), list@).len(),
            carries_ids(new_isbns(old(self).volumes(), list@), results@),
        ensures
            final(self).volumes() == old(self).volumes() + found(results@),
            forall|k: int|
                0 <= k < found(results@).len() ==> ids(list@).contains(
                    (#[trigger] found(results@)[k]).isbn@,
                ) && !in_catalog(old(self).volumes(), found(results@)[k].isbn@),
            unique_ids(old(self).volumes()) && distinct_ids(list@) ==> unique_ids(
                final(self).volumes(),
            ),
            final(self).client() == old(self).client(),
            final(self).storage() == old(self).storage(),
            r.input_list == list@.len(),
            r.new_volumes == found(results@).len(),
            r.new_volumes == results@.len() - failures(results@),
            r.new_volumes <= r.input_list,
    {
        proof {
            lemma_new_isbns_len(old(self).volumes(), list@);
            lemma_found_len(results@);
            lemma_merge_ids(old(self).volumes(), list@, results@);
        }
        let input_list = list.len();
        let new_volumes = collect_found(results);
        let count = new_volumes.len();
        let mut new_volumes = new_volumes;
        self.library.volumes.append(&mut new_volumes);
        AppendStats { input_list, new_volumes: count }
    }
}

/// The volumes among lookup results, in order; failed lookups are dropped.
pub fn collect_found(results: Vec<Option<Volume>>) -> (r: Vec<Volume>)
    ensures
        r@ == found(results@),
        r@.len() == results@.len() - failures(results@),
{
    proof {
        lemma_found_len(results@);
    }
    let ghost all = results@;
    let mut rest = results;
    let mut out: Vec<Volume> = Vec::new();
    while rest.len() > 0
        invariant
            rest@.len() <= all.len(),
            rest@ == all.subrange(all.len() - rest@.len(), all.len() as int),
            out@ == found(all.subrange(0, all.len() - rest@.len())),
        decreases rest@.len(),
    {
        let ghost k = all.len() - rest@.len();
        let x = rest.remove(0);
        assert(all.subrange(0, k + 1).drop_last() =~= all.subrange(0, k));
        assert(rest@ =~= all.subrange(all.len() - rest@.len(), all.len() as int));
        match x {
            Option::Some(v) => out.push(v),
            Option::None => {},
        }
    }
    assert(all.subrange(0, all.len() as int) =~= all);
    out
}

/// `found` keeps exactly the successful lookups.
pub proof fn lemma_found_len(results: Seq<Option<Volume>>)
    ensures
        failures(results) <= results.len(),
        found(results).len() == results.len() - failures(results),
    decreases results.len(),
{
    if results.len() > 0 {
        lemma_found_len(results.drop_last());
    }
}

/// The new identifiers are drawn from the request, so there are no more of them.
pub proof fn lemma_new_isbns_len(vols: Seq<Volume>, list: Seq<Isbn>)
    ensures
        new_isbns(vols, list).len() <= list.len(),
    decreases list.len(),
{
    if list.len() > 0 {
        lemma_new_isbns_len(vols, list.drop_last());
    }
}

/// `results` are the outcomes of looking up `asked` one by one with a service
/// that finds exactly the identifiers that `resolves` holds, and that gives each
/// book found the identifier that was asked for.
pub open spec fn resolved_by(
    asked: Seq<Isbn>,
    results: Seq<Option<Volume>>,
    resolves: spec_fn(Seq<char>) -> bool,
) -> bool {
    &&& results.len() == asked.len()
    &&& forall|j: int|
        0 <= j < asked.len() ==> ((#[trigger] results[j]) is Some <==> resolves(asked[j]@))
    &&& forall|j: int|
        0 <= j < asked.len() && (#[trigger] results[j]) is Some ==> results[j]->Some_0.isbn@
            == asked[j]@
}

/// An identifier is passed on for resolution exactly when it was requested and no
/// volume of the catalog carries it; so two requests that hold the same
/// identifiers, in whatever order, pass on the same ones.
pub proof fn lemma_dedupe(vols: Seq<Volume>, list: Seq<Isbn>, other: Seq<Isbn>)
    requires
        forall|x: Seq<char>| ids(list).contains(x) <==> ids(other).contains(x),
    ensures
        forall|x: Seq<char>|
            #![trigger ids(new_isbns(vols, list)).contains(x)]
            #![trigger ids(list).contains(x)]
            ids(new_isbns(vols, list)).contains(x) <==> (ids(list).contains(x) && !in_catalog(
                vols,
                x,
            )),
        forall|x: Seq<char>|
            ids(new_isbns(vols, list)).contains(x) <==> ids(new_isbns(vols, other)).contains(x),
{
    assert forall|x: Seq<char>|
        #![trigger ids(new_isbns(vols, list)).contains(x)]
        #![trigger ids(list).contains(x)]
        ids(new_isbns(vols, list)).contains(x) <==> (ids(list).contains(x) && !in_catalog(
            vols,
            x,
        )) by {
        lemma_new_isbns_member(vols, list, x);
    }
    assert forall|x: Seq<char>|
        ids(new_isbns(vols, list)).contains(x) <==> ids(new_isbns(vols, other)).contains(x) by {
        lemma_new_isbns_member(vols, list, x);
        lemma_new_isbns_member(vols, other, x);
    }
}

proof fn lemma_new_isbns_member(vols: Seq<Volume>, list: Seq<Isbn>, x: Seq<char>)
    ensures
        ids(new_isbns(vols, list)).contains(x) <==> (ids(list).contains(x) && !in_catalog(vols, x)),
    decreases list.len(),
{
    if list.len() == 0 {
        assert(ids(list) =~= Seq::<Seq<char>>::empty());
        assert(ids(new_isbns(vols, list)) =~= Seq::<Seq<char>>::empty());
    } else {
        let init = list.drop_last();
        let a = list.last();
        lemma_new_isbns_member(vols, init, x);
        let rest = new_isbns(vols, init);
        assert(ids(list) =~= ids(init).push(a@));
        assert(ids(rest.push(a)) =~= ids(rest).push(a@));
        lemma_push_contains(ids(init), a@, x);
        lemma_push_contains(ids(rest), a@, x);
        if in_catalog(vols, a@) {
            assert(new_isbns(vols, list) == rest);
        } else {
            assert(new_isbns(vols, list) == rest.push(a));
        }
    }
}

proof fn lemma_push_contains(s: Seq<Seq<char>>, a: Seq<char>, x: Seq<char>)
    ensures
        s.push(a).contains(x) <==> (s.contains(x) || a == x),
{
    if s.contains(x) {
        let k = choose|k: int| 0 <= k < s.len() && s[k] == x;
        assert(s.push(a)[k] == x);
    }
    if a == x {
        assert(s.push(a)[s.len() as int] == x);
    }
    if s.push(a).contains(x) {
        let k = choose|k: int| 0 <= k < s.push(a).len() && s.push(a)[k] == x;
        if k < s.len() {
            assert(s[k] == x);
        }
    }
}

/// Every successful lookup among `results` is among the volumes found.
proof fn lemma_found_has(results: Seq<Option<Volume>>, k: int)
    requires
        0 <= k < results.len(),
        results[k] is Some,
    ensures
        exists|m: int| 0 <= m < found(results).len() && found(results)[m] == results[k]->Some_0,
    decreases results.len(),
{
    let init = results.drop_last();
    if k < results.len() - 1 {
        lemma_found_has(init, k);
        let m = choose|m: int| 0 <= m < found(init).len() && found(init)[m] == init[k]->Some_0;
        assert(found(results)[m] == found(init)[m]);
    } else {
        assert(found(results)[found(init).len() as int] == results[k]->Some_0);
    }
}

/// Lookups that all failed find nothing.
proof fn lemma_found_none(results: Seq<Option<Volume>>)
    requires
        forall|j: int| 0 <= j < results.len() ==> (#[trigger] results[j]) is None,
    ensures
        found(results).len() == 0,
    decreases results.len(),
{
    if results.len() > 0 {
        lemma_found_none(results.drop_last());
    }
}

/// Running a sync a second time with the same request, against a service that
/// answers the same way, adds nothing: every identifier that the service finds
/// was added by the first run.
pub proof fn lemma_sync_idempotent(
    vols: Seq<Volume>,
    list: Seq<Isbn>,
    first: Seq<Option<Volume>>,
    second: Seq<Option<Volume>>,
    resolves: spec_fn(Seq<char>) -> bool,
)
    requires
        resolved_by(new_isbns(vols, list), first, resolves),
        resolved_by(new_isbns(vols + found(first), list), second, resolves),
    ensures
        found(second).len() == 0,
{
    let vols2 = vols + found(first);
    let new1 = new_isbns(vols, list);
    let new2 = new_isbns(vols2, list);
    assert forall|j: int| 0 <= j < second.len() implies (#[trigger] second[j]) is None by {
        let x = new2[j]@;
        lemma_new_isbns_member(vols, list, x);
        lemma_new_isbns_member(vols2, list, x);
        assert(ids(new2)[j] == x);
        assert(ids(new2).contains(x));
        if in_catalog(vols, x) {
            let i = choose|i: int| 0 <= i < vols.len() && (#[trigger] vols[i]).isbn@ == x;
            assert(vols2[i] == vols[i]);
        }
        if resolves(x) {
            assert(ids(new1).contains(x));
            let k = choose|k: int| 0 <= k < ids(new1).len() && ids(new1)[k] == x;
            assert(new1[k]@ == x);
            assert(first[k] is Some);
            lemma_found_has(first, k);
            let m = choose|m: int|
                0 <= m < found(first).len() && found(first)[m] == first[k]->Some_0;
            assert(vols2[vols.len() + m] == found(first)[m]);
        }
    }
    lemma_found_none(second);
}

/// Each volume found comes from one successful lookup.
proof fn lemma_found_origin(results: Seq<Option<Volume>>, k: int)
    requires
        0 <= k < found(results).len(),
    ensures
        exists|j: int| 0 <= j < results.len() && results[j] == Some(found(results)[k]),
    decreases results.len(),
{
    lemma_found_len(results);
    let init = results.drop_last();
    lemma_found_len(init);
    if k < found(init).len() {
        lemma_found_origin(init, k);
        let j = choose|j: int| 0 <= j < init.len() && init[j] == Some(found(init)[k]);
        assert(results[j] == init[j]);
        assert(found(results)[k] == found(init)[k]);
    } else {
        assert(results[results.len() - 1] == Some(found(results)[k]));
    }
}

/// Volumes found keep the order of the lookups they came from.
proof fn lemma_found_order(results: Seq<Option<Volume>>, k1: int, k2: int)
    requires
        0 <= k1 < k2 < found(results).len(),
    ensures
        exists|j1: int, j2: int|
            0 <= j1 < j2 < results.len() && results[j1] == Some(found(results)[k1]) && results[j2]
                == Some(found(results)[k2]),
    decreases results.len(),
{
    lemma_found_len(results);
    let init = results.drop_last();
    lemma_found_len(init);
    assert(found(results)[k1] == found(init)[k1]);
    if k2 < found(init).len() {
        lemma_found_order(init, k1, k2);
        let (j1, j2) = choose|j1: int, j2: int|
            0 <= j1 < j2 < init.len() && init[j1] == Some(found(init)[k1]) && init[j2] == Some(
                found(init)[k2],
            );
        assert(found(results)[k2] == found(init)[k2]);
        assert(results[j1] == init[j1] && results[j2] == init[j2]);
    } else {
        lemma_found_origin(init, k1);
        let j1 = choose|j1: int| 0 <= j1 < init.len() && init[j1] == Some(found(init)[k1]);
        assert(results[j1] == init[j1]);
        assert(results[results.len() - 1] == Some(found(results)[k2]));
    }
}

/// Taking the new identifiers of a request without repeats gives no repeats.
proof fn lemma_new_isbns_distinct(vols: Seq<Volume>, list: Seq<Isbn>)
    requires
        distinct_ids(list),
    ensures
        distinct_ids(new_isbns(vols, list)),
    decreases list.len(),
{
    if list.len() > 0 {
        let init = list.drop_last();
        let a = list.last();
        assert(distinct_ids(init)) by {
            assert forall|i: int, j: int| 0 <= i < j < init.len() implies (#[trigger] init[i])@
                != (#[trigger] init[j])@ by {
                assert(init[i] == list[i] && init[j] == list[j]);
            }
        }
        lemma_new_isbns_distinct(vols, init);
        let rest = new_isbns(vols, init);
        if !in_catalog(vols, a@) {
            lemma_new_isbns_member(vols, init, a@);
            assert(!ids(init).contains(a@)) by {
                if ids(init).contains(a@) {
                    let k = choose|k: int| 0 <= k < ids(init).len() && ids(init)[k] == a@;
                    assert(list[k]@ == list[list.len() - 1]@);
                }
            }
            let r = rest.push(a);
            assert(new_isbns(vols, list) == r);
            assert forall|i: int, j: int| 0 <= i < j < r.len() implies (#[trigger] r[i])@
                != (#[trigger] r[j])@ by {
                if j == r.len() - 1 {
                    assert(ids(rest)[i] == r[i]@);
                }
            }
        }
    }
}

/// What a merge adds: volumes whose identifiers were requested and were not in
/// the catalog; and a catalog without repeated identifiers keeps none after a
/// request without repeats.
proof fn lemma_merge_ids(vols: Seq<Volume>, list: Seq<Isbn>, results: Seq<Option<Volume>>)
    requires
        results.len() == new_isbns(vols, list).len(),
        carries_ids(new_isbns(vols, list), results),
    ensures
        forall|k: int|
            0 <= k < found(results).len() ==> ids(list).contains(
                (#[trigger] found(results)[k]).isbn@,
            ) && !in_catalog(vols, found(results)[k].isbn@),
        unique_ids(vols) && distinct_ids(list) ==> unique_ids(vols + found(results)),
{
    let asked = new_isbns(vols, list);
    let f = found(results);
    assert forall|k: int| 0 <= k < f.len() implies ids(list).contains((#[trigger] f[k]).isbn@)
        && !in_catalog(vols, f[k].isbn@) by {
        lemma_found_origin(results, k);
        let j = choose|j: int| 0 <= j < results.len() && results[j] == Some(f[k]);
        assert(f[k].isbn@ == asked[j]@);
        assert(ids(asked)[j] == asked[j]@);
        lemma_new_isbns_member(vols, list, asked[j]@);
    }
    if unique_ids(vols) && distinct_ids(list) {
        lemma_new_isbns_distinct(vols, list);
        let all = vols + f;
        assert forall|i: int, j: int| 0 <= i < j < all.len() implies (#[trigger] all[i]).isbn@
            != (#[trigger] all[j]).isbn@ by {
            if j < vols.len() {
                assert(all[i] == vols[i] && all[j] == vols[j]);
            } else if i < vols.len() {
                let k = j - vols.len();
                assert(all[j] == f[k]);
                assert(!in_catalog(vols, f[k].isbn@));
                assert(all[i] == vols[i]);
            } else {
                let k1 = i - vols.len();
                let k2 = j - vols.len();
                lemma_found_order(results, k1, k2);
                let (j1, j2) = choose|j1: int, j2: int|
                    0 <= j1 < j2 < results.len() && results[j1] == Some(f[k1]) && results[j2]
                        == Some(f[k2]);
                assert(f[k1].isbn@ == asked[j1]@);
                assert(f[k2].isbn@ == asked[j2]@);
                assert(all[i] == f[k1] && all[j] == f[k2]);
            }
        }
    }
}

} // verus!
