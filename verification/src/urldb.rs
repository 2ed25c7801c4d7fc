//! Concurrency-agnostic bookkeeping of per-URL crawl status: a map from URL
//! string to a five-state status, the crawl's ground truth.

use vstd::prelude::*;

verus! {

broadcast use vstd::set::group_set_axioms, vstd::seq::group_seq_axioms;

/// Lifecycle status of a discovered URL. A URL always holds exactly one of
/// these five states; a status is overwritten, never removed.
#[derive(Copy, Clone, Debug, PartialEq, Eq, Structural)]
pub enum Status {
    /// Already visited successfully.
    Visited,
    /// Selected for the current depth round, about to be visited.
    Staged,
    /// Newly discovered, not yet processed.
    Unvisited,
    /// Determined to be skipped; will not be visited.
    Skip,
    /// An error was encountered while attempting to visit.
    Error,
}

/// The map denoted by two parallel columns of keys and statuses; a later
/// entry for the same key wins, though a well-formed store has unique keys.
pub open spec fn entries_map(keys: Seq<Seq<char>>, sts: Seq<Status>) -> Map<Seq<char>, Status>
    decreases keys.len(),
{
    if keys.len() == 0 || sts.len() == 0 {
        Map::empty()
    } else {
        entries_map(keys.drop_last(), sts.drop_last()).insert(keys.last(), sts.last())
    }
}

/// Insert a key only if the map does not already hold it; how newly
/// discovered URLs are recorded without regressing a resolved one.
pub open spec fn cond_insert(m: Map<Seq<char>, Status>, k: Seq<char>, st: Status) -> Map<
    Seq<char>,
    Status,
> {
    if m.dom().contains(k) {
        m
    } else {
        m.insert(k, st)
    }
}

/// What staging does to one status: Unvisited becomes Staged, all else stays.
pub open spec fn stage_status(st: Status) -> Status {
    if st == Status::Unvisited {
        Status::Staged
    } else {
        st
    }
}

/// What one round's staging does to the whole store.
pub open spec fn stage_all(m: Map<Seq<char>, Status>) -> Map<Seq<char>, Status> {
    Map::new(|k: Seq<char>| m.dom().contains(k), |k: Seq<char>| stage_status(m[k]))
}

/// The URLs of the map that hold the given status.
pub open spec fn status_keys(m: Map<Seq<char>, Status>, st: Status) -> Set<Seq<char>> {
    m.dom().filter(|k: Seq<char>| m[k] == st)
}

/// How many URLs of the map hold the given status.
pub open spec fn count_with_status(m: Map<Seq<char>, Status>, st: Status) -> nat {
    status_keys(m, st).len()
}

/// The keys of the column representation whose status matches, in order.
spec fn filtered_keys(keys: Seq<Seq<char>>, sts: Seq<Status>, st: Status) -> Seq<Seq<char>>
    decreases keys.len(),
{
    if keys.len() == 0 || sts.len() == 0 {
        Seq::empty()
    } else if sts.last() == st {
        filtered_keys(keys.drop_last(), sts.drop_last(), st).push(keys.last())
    } else {
        filtered_keys(keys.drop_last(), sts.drop_last(), st)
    }
}

/// Characterization of the column representation: the map's domain is the set
/// of keys, and with unique keys each column pair is an entry of the map.
proof fn lemma_entries_map_props(keys: Seq<Seq<char>>, sts: Seq<Status>)
    requires
        keys.len() == sts.len(),
    ensures
        entries_map(keys, sts).dom().finite(),
        forall|k: Seq<char>| #[trigger]
            entries_map(keys, sts).dom().contains(k) <==> keys.contains(k),
        keys.no_duplicates() ==> forall|i: int|
            0 <= i < keys.len() ==> entries_map(keys, sts)[#[trigger] keys[i]] == sts[i],
    decreases keys.len(),
{
    if keys.len() == 0 {
        assert(forall|k: Seq<char>| !keys.contains(k));
    } else {
        let kp = keys.drop_last();
        let sp = sts.drop_last();
        lemma_entries_map_props(kp, sp);
        let m = entries_map(keys, sts);
        assert forall|k: Seq<char>| #[trigger] m.dom().contains(k) <==> keys.contains(k) by {
            if m.dom().contains(k) {
                if k == keys.last() {
                    assert(keys.contains(k)) by {
                        assert(keys[keys.len() - 1] == k);
                    }
                } else {
                    let i = choose|i: int| 0 <= i < kp.len() && kp[i] == k;
                    assert(keys[i] == k);
                }
            }
            if keys.contains(k) {
                let i = choose|i: int| 0 <= i < keys.len() && keys[i] == k;
                if i < keys.len() - 1 {
                    assert(kp[i] == k);
                }
            }
        }
        if keys.no_duplicates() {
            assert(kp.no_duplicates());
            assert forall|i: int| 0 <= i < keys.len() implies m[#[trigger] keys[i]] == sts[i] by {
                if i < keys.len() - 1 {
                    assert(keys[i] != keys.last());
                    assert(kp[i] == keys[i] && sp[i] == sts[i]);
                }
            }
        }
    }
}

/// The matching keys carry over to the map: they are exactly the domain
/// restricted to the status, they are distinct, and they count it.
proof fn lemma_filtered_keys(keys: Seq<Seq<char>>, sts: Seq<Status>, st: Status)
    requires
        keys.len() == sts.len(),
        keys.no_duplicates(),
    ensures
        filtered_keys(keys, sts, st).to_set() =~= status_keys(entries_map(keys, sts), st),
        filtered_keys(keys, sts, st).no_duplicates(),
        filtered_keys(keys, sts, st).len() == count_with_status(entries_map(keys, sts), st),
    decreases keys.len(),
{
    lemma_entries_map_props(keys, sts);
    let m = entries_map(keys, sts);
    let f = filtered_keys(keys, sts, st);
    let fset = status_keys(m, st);
    m.dom().lemma_len_filter(|k: Seq<char>| m[k] == st);
    assert(m.dom().filter(|k: Seq<char>| m[k] == st) =~= fset);
    if keys.len() == 0 {
        assert(f.to_set() =~= fset);
    } else {
        let kp = keys.drop_last();
        let sp = sts.drop_last();
        assert(kp.no_duplicates());
        lemma_filtered_keys(kp, sp, st);
        lemma_entries_map_props(kp, sp);
        let mp = entries_map(kp, sp);
        let fp = filtered_keys(kp, sp, st);
        let fpset = status_keys(mp, st);
        mp.dom().lemma_len_filter(|k: Seq<char>| mp[k] == st);
        assert(mp.dom().filter(|k: Seq<char>| mp[k] == st) =~= fpset);
        assert(fp.to_set() =~= fpset);
        fp.unique_seq_to_set();
        assert(!kp.contains(keys.last()));
        assert(!mp.dom().contains(keys.last()));
        // The filtered set of the extended map is the previous one, plus the
        // last key when its status matches.
        assert forall|k: Seq<char>| #[trigger] fset.contains(k) implies (fpset.contains(k) || (k
            == keys.last() && sts.last() == st)) by {
            if k != keys.last() {
                assert(mp.dom().contains(k));
                assert(m[k] == mp[k]);
            }
        }
        assert forall|k: Seq<char>| #[trigger] fpset.contains(k) implies fset.contains(k) by {
            assert(k != keys.last());
            assert(m[k] == mp[k]);
            assert(keys.contains(k)) by {
                let i = choose|i: int| 0 <= i < kp.len() && kp[i] == k;
                assert(keys[i] == k);
            }
        }
        if sts.last() == st {
            assert(fset =~= fpset.insert(keys.last()));
            assert(!fpset.contains(keys.last()));
            assert(f == fp.push(keys.last()));
            assert(f.to_set() =~= fp.to_set().insert(keys.last())) by {
                assert forall|k: Seq<char>| #[trigger] f.to_set().contains(k) implies fp.to_set(
                ).insert(keys.last()).contains(k) by {
                    let i = choose|i: int| 0 <= i < f.len() && f[i] == k;
                    if i < fp.len() {
                        assert(fp[i] == k);
                    }
                }
                assert forall|k: Seq<char>|
                    fp.to_set().insert(keys.last()).contains(k) implies #[trigger] f.to_set(
                ).contains(k) by {
                    if fp.to_set().contains(k) {
                        let i = choose|i: int| 0 <= i < fp.len() && fp[i] == k;
                        assert(f[i] == k);
                    } else {
                        assert(f[f.len() - 1] == k);
                    }
                }
            }
            assert(!fp.to_set().contains(keys.last())) by {
                if fp.to_set().contains(keys.last()) {
                    assert(fpset.contains(keys.last()));
                }
            }
            assert(f.no_duplicates()) by {
                assert forall|i: int, j: int| 0 <= i < j < f.len() implies f[i] != f[j] by {
                    if j < f.len() - 1 {
                        assert(fp[i] != fp[j]);
                    } else {
                        assert(fp.to_set().contains(fp[i]));
                    }
                }
            }
            assert(fset.len() == fpset.len() + 1);
        } else {
            assert(fset =~= fpset);
            assert(f == fp);
        }
    }
    f.unique_seq_to_set();
}

/// Every url the store knows holds a status, and that status places it in
/// exactly one of the five partitions: never unset, never ambiguous.
pub proof fn lemma_one_status_per_url(m: Map<Seq<char>, Status>, url: Seq<char>)
    requires
        m.dom().contains(url),
    ensures
        exists|st: Status| #[trigger] status_keys(m, st).contains(url),
        forall|s1: Status, s2: Status|
            #[trigger] status_keys(m, s1).contains(url) && #[trigger] status_keys(
                m,
                s2,
            ).contains(url) ==> s1 == s2,
{
    assert(status_keys(m, m[url]).contains(url));
}

/// Conditional marking is idempotent: once a url is known, a further
/// conditional mark never changes its status, whatever status it proposes.
pub proof fn lemma_cond_mark_idempotent(
    m: Map<Seq<char>, Status>,
    url: Seq<char>,
    st1: Status,
    st2: Status,
)
    ensures
        m.dom().contains(url) ==> cond_insert(m, url, st1) == m,
        cond_insert(cond_insert(m, url, st1), url, st2) == cond_insert(m, url, st1),
{
}

/// Staging moves all and only the Unvisited urls to Staged: afterwards no
/// url is Unvisited, the Staged partition is the old Staged and Unvisited
/// partitions together, and every other partition is untouched.
pub proof fn lemma_stage_moves_all_and_only_unvisited(m: Map<Seq<char>, Status>)
    ensures
        stage_all(m).dom() =~= m.dom(),
        forall|k: Seq<char>|
            #[trigger] m.dom().contains(k) ==> stage_all(m)[k] == stage_status(m[k]),
        status_keys(stage_all(m), Status::Unvisited) =~= Set::<Seq<char>>::empty(),
        status_keys(stage_all(m), Status::Staged) =~= status_keys(m, Status::Staged) + status_keys(
            m,
            Status::Unvisited,
        ),
        status_keys(stage_all(m), Status::Visited) =~= status_keys(m, Status::Visited),
        status_keys(stage_all(m), Status::Skip) =~= status_keys(m, Status::Skip),
        status_keys(stage_all(m), Status::Error) =~= status_keys(m, Status::Error),
{
}

/// A url the store knows is never removed: marking, conditional marking
/// and staging each keep every existing url in the domain.
pub proof fn lemma_urls_never_removed(m: Map<Seq<char>, Status>, url: Seq<char>, st: Status)
    ensures
        m.insert(url, st).dom().contains(url),
        forall|k: Seq<char>| m.dom().contains(k) ==> #[trigger] m.insert(url, st).dom().contains(
            k,
        ),
        forall|k: Seq<char>| m.dom().contains(k) ==> #[trigger] cond_insert(
            m,
            url,
            st,
        ).dom().contains(k),
        forall|k: Seq<char>| m.dom().contains(k) <==> #[trigger] stage_all(m).dom().contains(k),
{
}

/// Stores urls, tracking whether or not they have been visited.
pub struct UrlDb {
    urls: Vec<String>,
    statuses: Vec<Status>,
}

impl View for UrlDb {
    type V = Map<Seq<char>, Status>;

    closed spec fn view(&self) -> Map<Seq<char>, Status> {
        entries_map(self.keys(), self.statuses@)
    }
}

impl UrlDb {
    /// The sequence of keys held by the store, as character sequences.
    closed spec fn keys(&self) -> Seq<Seq<char>> {
        self.urls@.map_values(|s: String| s@)
    }

    /// Well-formedness: one status per url, and no url occurs twice.
    pub closed spec fn wf(&self) -> bool {
        &&& self.urls.len() == self.statuses.len()
        &&& self.keys().no_duplicates()
    }

    /// Returns a new UrlDb instance.
    pub fn new() -> (db: UrlDb)
        ensures
            db.wf(),
            db@ == Map::<Seq<char>, Status>::empty(),
    {
        let db = UrlDb { urls: Vec::new(), statuses: Vec::new() };
        proof {
            assert(db.keys() =~= Seq::empty());
        }
        db
    }

    /// Index of the entry holding the url, if any.
    fn find_index(&self, url: &String) -> (r: Option<usize>)
        requires
            self.wf(),
        ensures
            match r {
                Some(i) => i < self.urls.len() && self.keys()[i as int] == url@,
                None => !self.keys().contains(url@),
            },
    {
        let n = self.urls.len();
        let mut j: usize = 0;
        while j < n
            invariant
                n == self.urls.len(),
                j <= n,
                forall|i: int| 0 <= i < j ==> self.keys()[i] != url@,
            decreases n - j,
        {
            if self.urls[j].eq(url) {
                return Some(j);
            }
            j += 1;
        }
        proof {
            if self.keys().contains(url@) {
                let i = choose|i: int| 0 <= i < n && self.keys()[i] == url@;
            }
        }
        None
    }

    /// Overwrite (or create) the entry for the url with the given status.
    fn mark(&mut self, url: String, st: Status)
        requires
            old(self).wf(),
        ensures
            final(self).wf(),
            final(self)@ == old(self)@.insert(url@, st),
    {
        proof {
            lemma_entries_map_props(self.keys(), self.statuses@);
        }
        match self.find_index(&url) {
            Some(i) => {
                self.statuses.set(i, st);
                proof {
                    let oldkeys = old(self).keys();
                    assert(self.keys() == oldkeys);
                    lemma_entries_map_props(self.keys(), self.statuses@);
                    assert forall|k: Seq<char>| true implies #[trigger] self@.index_opt(k) == old(
                        self,
                    )@.insert(url@, st).index_opt(k) by {
                        if self.keys().contains(k) {
                            let j = choose|j: int| 0 <= j < oldkeys.len() && oldkeys[j] == k;
                            if k == url@ {
                                assert(j == i) by {
                                    if j != i {
                                        assert(oldkeys[j] != oldkeys[i as int]);
                                    }
                                }
                            } else {
                                assert(self.statuses@[j] == old(self).statuses@[j]);
                            }
                        }
                    }
                    assert(self@ =~= old(self)@.insert(url@, st));
                }
            },
            None => {
                let ghost oldkeys = self.keys();
                let ghost oldsts = self.statuses@;
                self.urls.push(url);
                self.statuses.push(st);
                proof {
                    assert(self.keys() =~= oldkeys.push(url@));
                    assert(self.keys().drop_last() =~= oldkeys);
                    assert(self.statuses@.drop_last() =~= oldsts);
                    assert(self.keys().no_duplicates()) by {
                        assert forall|i: int, j: int|
                            0 <= i < j < self.keys().len() implies self.keys()[i]
                            != self.keys()[j] by {
                            if j == self.keys().len() - 1 {
                                assert(!oldkeys.contains(self.keys()[j])) by {
                                    assert(self.keys()[j] == url@);
                                }
                                assert(oldkeys[i] == self.keys()[i]);
                            }
                        }
                    }
                    assert(self@ == entries_map(oldkeys, oldsts).insert(url@, st));
                }
            },
        }
    }

    /// Create the entry for the url with the given status, only if the url is
    /// not yet known; an already-resolved url is never changed.
    fn cond_mark(&mut self, url: String, st: Status)
        requires
            old(self).wf(),
        ensures
            final(self).wf(),
            final(self)@ == cond_insert(old(self)@, url@, st),
    {
        proof {
            lemma_entries_map_props(self.keys(), self.statuses@);
        }
        match self.find_index(&url) {
            Some(i) => {
                proof {
                    assert(self.keys().contains(url@)) by {
                        assert(self.keys()[i as int] == url@);
                    }
                }
            },
            None => {
                self.mark(url, st);
            },
        }
    }

    /// Inserts and marks a url as visited.
    pub fn mark_visited(&mut self, url: String)
        requires
            old(self).wf(),
        ensures
            final(self).wf(),
            final(self)@ == old(self)@.insert(url@, Status::Visited),
    {
        self.mark(url, Status::Visited);
    }

    /// Inserts and marks a url as staged.
    pub fn mark_staged(&mut self, url: String)
        requires
            old(self).wf(),
        ensures
            final(self).wf(),
            final(self)@ == old(self)@.insert(url@, Status::Staged),
    {
        self.mark(url, Status::Staged);
    }

    /// Inserts and marks a url as unvisited.
    pub fn mark_unvisited(&mut self, url: String)
        requires
            old(self).wf(),
        ensures
            final(self).wf(),
            final(self)@ == old(self)@.insert(url@, Status::Unvisited),
    {
        self.mark(url, Status::Unvisited);
    }

    /// Inserts and marks a url as skipped.
    pub fn mark_skipped(&mut self, url: String)
        requires
            old(self).wf(),
        ensures
            final(self).wf(),
            final(self)@ == old(self)@.insert(url@, Status::Skip),
    {
        self.mark(url, Status::Skip);
    }

    /// Inserts and marks a url as errored.
    pub fn mark_errored(&mut self, url: String)
        requires
            old(self).wf(),
        ensures
            final(self).wf(),
            final(self)@ == old(self)@.insert(url@, Status::Error),
    {
        self.mark(url, Status::Error);
    }

    /// Inserts and marks a url as visited, only if the url is new.
    pub fn cond_mark_visited(&mut self, url: String)
        requires
            old(self).wf(),
        ensures
            final(self).wf(),
            final(self)@ == cond_insert(old(self)@, url@, Status::Visited),
    {
        self.cond_mark(url, Status::Visited);
    }

    /// Inserts and marks a url as staged, only if the url is new.
    pub fn cond_mark_staged(&mut self, url: String)
        requires
            old(self).wf(),
        ensures
            final(self).wf(),
            final(self)@ == cond_insert(old(self)@, url@, Status::Staged),
    {
        self.cond_mark(url, Status::Staged);
    }

    /// Inserts and marks a url as unvisited, only if the url is new.
    pub fn cond_mark_unvisited(&mut self, url: String)
        requires
            old(self).wf(),
        ensures
            final(self).wf(),
            final(self)@ == cond_insert(old(self)@, url@, Status::Unvisited),
    {
        self.cond_mark(url, Status::Unvisited);
    }

    /// Inserts and marks a url as skipped, only if the url is new.
    pub fn cond_mark_skipped(&mut self, url: String)
        requires
            old(self).wf(),
        ensures
            final(self).wf(),
            final(self)@ == cond_insert(old(self)@, url@, Status::Skip),
    {
        self.cond_mark(url, Status::Skip);
    }

    /// Inserts and marks a url as errored, only if the url is new.
    pub fn cond_mark_errored(&mut self, url: String)
        requires
            old(self).wf(),
        ensures
            final(self).wf(),
            final(self)@ == cond_insert(old(self)@, url@, Status::Error),
    {
        self.cond_mark(url, Status::Error);
    }

    /// Move all unvisited urls onto the stage.
    pub fn stage_unvisited_urls(&mut self)
        requires
            old(self).wf(),
        ensures
            final(self).wf(),
            final(self)@ == stage_all(old(self)@),
    {
        let n = self.statuses.len();
        let mut i: usize = 0;
        while i < n
            invariant
                self.wf(),
                n == self.statuses.len(),
                i <= n,
                self.urls@ == old(self).urls@,
                forall|j: int|
                    0 <= j < i ==> self.statuses@[j] == stage_status(old(self).statuses@[j]),
                forall|j: int| i <= j < n ==> self.statuses@[j] == old(self).statuses@[j],
            decreases n - i,
        {
            if self.statuses[i] == Status::Unvisited {
                self.statuses.set(i, Status::Staged);
            }
            i += 1;
        }
        proof {
            let keys = self.keys();
            assert(keys == old(self).keys());
            lemma_entries_map_props(keys, self.statuses@);
            lemma_entries_map_props(keys, old(self).statuses@);
            assert forall|k: Seq<char>| true implies #[trigger] self@.index_opt(k) == stage_all(
                old(self)@,
            ).index_opt(k) by {
                if keys.contains(k) {
                    let j = choose|j: int| 0 <= j < keys.len() && keys[j] == k;
                    assert(self.statuses@[j] == stage_status(old(self).statuses@[j]));
                }
            }
            assert(self@ =~= stage_all(old(self)@));
        }
    }

    /// The urls currently holding the given status, each exactly once.
    fn urls_with_status(&self, st: Status) -> (r: Vec<String>)
        requires
            self.wf(),
        ensures
            r@.map_values(|s: String| s@).to_set() == status_keys(self@, st),
            r@.map_values(|s: String| s@).no_duplicates(),
            r@.len() == count_with_status(self@, st),
    {
        let n = self.urls.len();
        let mut out: Vec<String> = Vec::new();
        let mut i: usize = 0;
        while i < n
            invariant
                self.wf(),
                n == self.urls.len(),
                i <= n,
                out@.map_values(|s: String| s@) == filtered_keys(
                    self.keys().take(i as int),
                    self.statuses@.take(i as int),
                    st,
                ),
            decreases n - i,
        {
            let ghost prefix_keys = self.keys().take(i as int);
            let ghost prefix_sts = self.statuses@.take(i as int);
            if self.statuses[i] == st {
                out.push(self.urls[i].clone());
            }
            i += 1;
            proof {
                let pk2 = self.keys().take(i as int);
                let ps2 = self.statuses@.take(i as int);
                assert(pk2.drop_last() =~= prefix_keys);
                assert(ps2.drop_last() =~= prefix_sts);
                assert(pk2.last() == self.keys()[i - 1]);
                assert(ps2.last() == self.statuses@[i - 1]);
                if ps2.last() == st {
                    assert(out@.map_values(|s: String| s@) =~= filtered_keys(
                        prefix_keys,
                        prefix_sts,
                        st,
                    ).push(self.keys()[i - 1]));
                }
            }
        }
        proof {
            assert(self.keys().take(n as int) =~= self.keys());
            assert(self.statuses@.take(n as int) =~= self.statuses@);
            lemma_filtered_keys(self.keys(), self.statuses@, st);
            assert(out@.len() == out@.map_values(|s: String| s@).len());
        }
        out
    }

    /// Count the urls currently holding the given status.
    fn count_status(&self, st: Status) -> (n: usize)
        requires
            self.wf(),
        ensures
            n == count_with_status(self@, st),
    {
        let total = self.statuses.len();
        let mut cnt: usize = 0;
        let mut i: usize = 0;
        while i < total
            invariant
                self.wf(),
                total == self.statuses.len(),
                i <= total,
                cnt <= i,
                cnt == filtered_keys(
                    self.keys().take(i as int),
                    self.statuses@.take(i as int),
                    st,
                ).len(),
            decreases total - i,
        {
            let ghost prefix_keys = self.keys().take(i as int);
            let ghost prefix_sts = self.statuses@.take(i as int);
            if self.statuses[i] == st {
                cnt += 1;
            }
            i += 1;
            proof {
                let pk2 = self.keys().take(i as int);
                let ps2 = self.statuses@.take(i as int);
                assert(pk2.drop_last() =~= prefix_keys);
                assert(ps2.drop_last() =~= prefix_sts);
                assert(ps2.last() == self.statuses@[i - 1]);
            }
        }
        proof {
            assert(self.keys().take(total as int) =~= self.keys());
            assert(self.statuses@.take(total as int) =~= self.statuses@);
            lemma_filtered_keys(self.keys(), self.statuses@, st);
        }
        cnt
    }

    /// Returns the urls that were discovered and visited.
    pub fn visited_urls_iter(&self) -> (r: Vec<String>)
        requires
            self.wf(),
        ensures
            r@.map_values(|s: String| s@).to_set() == status_keys(self@, Status::Visited),
            r@.map_values(|s: String| s@).no_duplicates(),
            r@.len() == count_with_status(self@, Status::Visited),
    {
        self.urls_with_status(Status::Visited)
    }

    /// Returns the urls that are currently staged.
    pub fn staged_urls_iter(&self) -> (r: Vec<String>)
        requires
            self.wf(),
        ensures
            r@.map_values(|s: String| s@).to_set() == status_keys(self@, Status::Staged),
            r@.map_values(|s: String| s@).no_duplicates(),
            r@.len() == count_with_status(self@, Status::Staged),
    {
        self.urls_with_status(Status::Staged)
    }

    /// Returns the urls that were discovered, but unvisited.
    pub fn unvisited_urls_iter(&self) -> (r: Vec<String>)
        requires
            self.wf(),
        ensures
            r@.map_values(|s: String| s@).to_set() == status_keys(self@, Status::Unvisited),
            r@.map_values(|s: String| s@).no_duplicates(),
            r@.len() == count_with_status(self@, Status::Unvisited),
    {
        self.urls_with_status(Status::Unvisited)
    }

    /// Returns the urls that were discovered, but skipped.
    pub fn skipped_urls_iter(&self) -> (r: Vec<String>)
        requires
            self.wf(),
        ensures
            r@.map_values(|s: String| s@).to_set() == status_keys(self@, Status::Skip),
            r@.map_values(|s: String| s@).no_duplicates(),
            r@.len() == count_with_status(self@, Status::Skip),
    {
        self.urls_with_status(Status::Skip)
    }

    /// Returns the urls that were discovered, but encountered an error while
    /// visiting.
    pub fn errored_urls_iter(&self) -> (r: Vec<String>)
        requires
            self.wf(),
        ensures
            r@.map_values(|s: String| s@).to_set() == status_keys(self@, Status::Error),
            r@.map_values(|s: String| s@).no_duplicates(),
            r@.len() == count_with_status(self@, Status::Error),
    {
        self.urls_with_status(Status::Error)
    }

    /// Returns the urls that were visited.
    pub fn visited_urls(&self) -> (r: Vec<String>)
        requires
            self.wf(),
        ensures
            r@.map_values(|s: String| s@).to_set() == status_keys(self@, Status::Visited),
            r@.map_values(|s: String| s@).no_duplicates(),
            r@.len() == count_with_status(self@, Status::Visited),
    {
        self.urls_with_status(Status::Visited)
    }

    /// Returns the urls that were unvisited.
    pub fn unvisited_urls(&self) -> (r: Vec<String>)
        requires
            self.wf(),
        ensures
            r@.map_values(|s: String| s@).to_set() == status_keys(self@, Status::Unvisited),
            r@.map_values(|s: String| s@).no_duplicates(),
            r@.len() == count_with_status(self@, Status::Unvisited),
    {
        self.urls_with_status(Status::Unvisited)
    }

    /// Returns the urls that were skipped.
    pub fn skipped_urls(&self) -> (r: Vec<String>)
        requires
            self.wf(),
        ensures
            r@.map_values(|s: String| s@).to_set() == status_keys(self@, Status::Skip),
            r@.map_values(|s: String| s@).no_duplicates(),
            r@.len() == count_with_status(self@, Status::Skip),
    {
        self.urls_with_status(Status::Skip)
    }

    /// Returns the urls that encountered errors.
    pub fn errored_urls(&self) -> (r: Vec<String>)
        requires
            self.wf(),
        ensures
            r@.map_values(|s: String| s@).to_set() == status_keys(self@, Status::Error),
            r@.map_values(|s: String| s@).no_duplicates(),
            r@.len() == count_with_status(self@, Status::Error),
    {
        self.urls_with_status(Status::Error)
    }

    /// Returns the number of urls that were visited.
    pub fn num_visited_urls(&self) -> (n: usize)
        requires
            self.wf(),
        ensures
            n == count_with_status(self@, Status::Visited),
    {
        self.count_status(Status::Visited)
    }

    /// Returns the number of urls that were staged.
    pub fn num_staged_urls(&self) -> (n: usize)
        requires
            self.wf(),
        ensures
            n == count_with_status(self@, Status::Staged),
    {
        self.count_status(Status::Staged)
    }

    /// Returns the number of urls that were unvisited.
    pub fn num_unvisited_urls(&self) -> (n: usize)
        requires
            self.wf(),
        ensures
            n == count_with_status(self@, Status::Unvisited),
    {
        self.count_status(Status::Unvisited)
    }

    /// Returns the number of urls that were skipped.
    pub fn num_skipped_urls(&self) -> (n: usize)
        requires
            self.wf(),
        ensures
            n == count_with_status(self@, Status::Skip),
    {
        self.count_status(Status::Skip)
    }

    /// Returns the number of urls that encountered an error.
    pub fn num_errored_urls(&self) -> (n: usize)
        requires
            self.wf(),
        ensures
            n == count_with_status(self@, Status::Error),
    {
        self.count_status(Status::Error)
    }
}

} // verus!
