//! Resumable crawl state: a snapshot of the URL store partitions, the depth
//! reached, and the options of the run that produced it; restoring drains
//! the snapshot into a fresh store.

use vstd::prelude::*;

verus! {

broadcast use vstd::set::group_set_axioms, vstd::seq::group_seq_axioms;

use crate::cli::Cli;
use crate::cli::FilterArg;
use crate::cli::SitePolicyArg;
use crate::cli::Target;
use crate::urldb::Status;
use crate::urldb::UrlDb;
use crate::urldb::count_with_status;
use crate::urldb::status_keys;

/// The views of a sequence of strings.
pub open spec fn str_views(v: Seq<String>) -> Seq<Seq<char>> {
    v.map_values(|s: String| s@)
}

/// A map after unconditionally marking every url of a list with one status,
/// in order.
pub open spec fn marks_folded(
    m: Map<Seq<char>, Status>,
    urls: Seq<String>,
    st: Status,
) -> Map<Seq<char>, Status>
    decreases urls.len(),
{
    if urls.len() == 0 {
        m
    } else {
        marks_folded(m, urls.drop_last(), st).insert(urls.last()@, st)
    }
}

/// The store a snapshot restores to, starting from the given map: the five
/// partitions are written in order, visited first, errored last.
pub open spec fn restored_map(
    m: Map<Seq<char>, Status>,
    visited: Seq<String>,
    staged: Seq<String>,
    unvisited: Seq<String>,
    skipped: Seq<String>,
    errored: Seq<String>,
) -> Map<Seq<char>, Status> {
    marks_folded(
        marks_folded(
            marks_folded(
                marks_folded(marks_folded(m, visited, Status::Visited), staged, Status::Staged),
                unvisited,
                Status::Unvisited,
            ),
            skipped,
            Status::Skip,
        ),
        errored,
        Status::Error,
    )
}

/// A snapshot of an in-progress crawl: the starting URL, the depth reached,
/// the five status-partitioned URL lists, and every tunable option of the
/// run that produced it.
#[derive(Clone, Debug)]
pub struct State {
    /// The URL the crawl started from.
    pub starting_url: String,
    /// The depth the crawl had reached.
    pub depth_reached: usize,
    /// The visited urls.
    pub visited: Vec<String>,
    /// The staged urls.
    pub staged: Vec<String>,
    /// The unvisited urls.
    pub unvisited: Vec<String>,
    /// The skipped urls.
    pub skipped: Vec<String>,
    /// The errored urls.
    pub errored: Vec<String>,
    /// The configured depth limit.
    pub depth: usize,
    /// The configured word filters.
    pub filters: Vec<FilterArg>,
    /// Whether css was included.
    pub include_css: bool,
    /// Whether js was included.
    pub include_js: bool,
    /// The configured requests per second.
    pub req_per_sec: u64,
    /// The configured concurrency limit.
    pub limit_concurrent: usize,
    /// The configured minimum word length.
    pub min_word_length: usize,
    /// The configured maximum word length.
    pub max_word_length: usize,
    /// The configured site policy.
    pub site_policy: SitePolicyArg,
}

impl State {
    /// Returns a fresh State for a crawl that starts at the given URL: no
    /// depth reached, empty partitions, and neutral options; a run that
    /// does not resume takes its options from the command line, not from
    /// here.
    pub fn new(starting_url: &str) -> (r: State)
        ensures
            r.starting_url@ == starting_url@,
            r.depth_reached == 0,
            r.visited@ == Seq::<String>::empty(),
            r.staged@ == Seq::<String>::empty(),
            r.unvisited@ == Seq::<String>::empty(),
            r.skipped@ == Seq::<String>::empty(),
            r.errored@ == Seq::<String>::empty(),
    {
        State {
            starting_url: starting_url.to_owned(),
            depth_reached: 0,
            visited: Vec::new(),
            staged: Vec::new(),
            unvisited: Vec::new(),
            skipped: Vec::new(),
            errored: Vec::new(),
            depth: 0,
            filters: Vec::new(),
            include_css: false,
            include_js: false,
            req_per_sec: 0,
            limit_concurrent: 0,
            min_word_length: 0,
            max_word_length: 0,
            site_policy: SitePolicyArg::Same,
        }
    }
}

/// Unconditionally mark every url of the list with the given status, in
/// order.
fn mark_all(db: &mut UrlDb, urls: &Vec<String>, st: Status)
    requires
        old(db).wf(),
    ensures
        final(db).wf(),
        final(db)@ == marks_folded(old(db)@, urls@, st),
{
    let n = urls.len();
    let mut i: usize = 0;
    while i < n
        invariant
            db.wf(),
            n == urls@.len(),
            i <= n,
            db@ == marks_folded(old(db)@, urls@.take(i as int), st),
        decreases n - i,
    {
        match st {
            Status::Visited => db.mark_visited(urls[i].clone()),
            Status::Staged => db.mark_staged(urls[i].clone()),
            Status::Unvisited => db.mark_unvisited(urls[i].clone()),
            Status::Skip => db.mark_skipped(urls[i].clone()),
            Status::Error => db.mark_errored(urls[i].clone()),
        }
        i += 1;
        proof {
            assert(urls@.take(i as int).drop_last() =~= urls@.take(i - 1));
        }
    }
    proof {
        assert(urls@.take(n as int) =~= urls@);
    }
}

/// Populate urldb from state; state urls are consumed: the five lists are
/// written into the store partition by partition, visited first, errored
/// last, and drained.
pub fn fill_urldb_from_state(db: &mut UrlDb, s: &mut State)
    requires
        old(db).wf(),
    ensures
        final(db).wf(),
        final(db)@ == restored_map(
            old(db)@,
            old(s).visited@,
            old(s).staged@,
            old(s).unvisited@,
            old(s).skipped@,
            old(s).errored@,
        ),
        final(s).visited@ == Seq::<String>::empty(),
        final(s).staged@ == Seq::<String>::empty(),
        final(s).unvisited@ == Seq::<String>::empty(),
        final(s).skipped@ == Seq::<String>::empty(),
        final(s).errored@ == Seq::<String>::empty(),
        final(s).starting_url == old(s).starting_url,
        final(s).depth_reached == old(s).depth_reached,
        final(s).depth == old(s).depth,
        final(s).filters == old(s).filters,
        final(s).include_css == old(s).include_css,
        final(s).include_js == old(s).include_js,
        final(s).req_per_sec == old(s).req_per_sec,
        final(s).limit_concurrent == old(s).limit_concurrent,
        final(s).min_word_length == old(s).min_word_length,
        final(s).max_word_length == old(s).max_word_length,
        final(s).site_policy == old(s).site_policy,
{
    mark_all(db, &s.visited, Status::Visited);
    mark_all(db, &s.staged, Status::Staged);
    mark_all(db, &s.unvisited, Status::Unvisited);
    mark_all(db, &s.skipped, Status::Skip);
    mark_all(db, &s.errored, Status::Error);
    s.visited.clear();
    s.staged.clear();
    s.unvisited.clear();
    s.skipped.clear();
    s.errored.clear();
}


/// A copy of a filter argument list.
fn copy_filter_args(v: &Vec<FilterArg>) -> (r: Vec<FilterArg>)
    ensures
        r@ == v@,
{
    let n = v.len();
    let mut out: Vec<FilterArg> = Vec::new();
    let mut i: usize = 0;
    while i < n
        invariant
            n == v@.len(),
            i <= n,
            out@.len() == i,
            forall|j: int| 0 <= j < i ==> out@[j] == v@[j],
        decreases n - i,
    {
        out.push(v[i]);
        i += 1;
    }
    proof {
        assert(out@ =~= v@);
    }
    out
}

/// A copy of an optional string.
fn clone_opt_string(v: &Option<String>) -> (r: Option<String>)
    ensures
        r == *v,
{
    match v {
        Some(s) => Some(s.clone()),
        None => None,
    }
}

/// A copy of a crawl target.
fn clone_target(t: &Target) -> (r: Target)
    ensures
        r == *t,
{
    Target {
        url: clone_opt_string(&t.url),
        theme: t.theme,
        path: clone_opt_string(&t.path),
        resume: t.resume,
        resume_strict: t.resume_strict,
    }
}

/// The effective options of a resumed run: under a strict resume every
/// tunable option comes from the persisted state, overriding what the
/// current invocation supplied; otherwise the current invocation's options
/// stand. The target and the output choices always come from the current
/// invocation.
pub fn merge(persisted: &State, current: &Cli, strict: bool) -> (r: Cli)
    ensures
        r.target == current.target,
        r.output == current.output,
        r.append == current.append,
        r.output_state == current.output_state,
        r.state_file == current.state_file,
        r.depth == if strict { persisted.depth } else { current.depth },
        r.min_word_length == if strict { persisted.min_word_length } else { current.min_word_length },
        r.max_word_length == if strict { persisted.max_word_length } else { current.max_word_length },
        r.include_js == if strict { persisted.include_js } else { current.include_js },
        r.include_css == if strict { persisted.include_css } else { current.include_css },
        r.filters@ == if strict { persisted.filters@ } else { current.filters@ },
        r.site_policy == if strict { persisted.site_policy } else { current.site_policy },
        r.req_per_sec == if strict { persisted.req_per_sec } else { current.req_per_sec },
        r.limit_concurrent == if strict { persisted.limit_concurrent } else { current.limit_concurrent },
{
    Cli {
        target: clone_target(&current.target),
        depth: if strict { persisted.depth } else { current.depth },
        min_word_length: if strict { persisted.min_word_length } else { current.min_word_length },
        max_word_length: if strict { persisted.max_word_length } else { current.max_word_length },
        include_js: if strict { persisted.include_js } else { current.include_js },
        include_css: if strict { persisted.include_css } else { current.include_css },
        filters: if strict { copy_filter_args(&persisted.filters) } else { copy_filter_args(&current.filters) },
        site_policy: if strict { persisted.site_policy } else { current.site_policy },
        req_per_sec: if strict { persisted.req_per_sec } else { current.req_per_sec },
        limit_concurrent: if strict { persisted.limit_concurrent } else { current.limit_concurrent },
        output: current.output.clone(),
        append: current.append,
        output_state: current.output_state,
        state_file: current.state_file.clone(),
    }
}

/// Pointwise characterization of marking a whole list: a key ends in the
/// map iff it was there or is in the list; a listed key gets the status; an
/// unlisted key keeps its value.
proof fn lemma_marks_folded_at(m: Map<Seq<char>, Status>, urls: Seq<String>, st: Status, k: Seq<char>)
    ensures
        marks_folded(m, urls, st).dom().contains(k) <==> (m.dom().contains(k) || str_views(
            urls,
        ).contains(k)),
        str_views(urls).contains(k) ==> marks_folded(m, urls, st)[k] == st,
        (m.dom().contains(k) && !str_views(urls).contains(k)) ==> marks_folded(m, urls, st)[k]
            == m[k],
    decreases urls.len(),
{
    if urls.len() > 0 {
        lemma_marks_folded_at(m, urls.drop_last(), st, k);
        assert(str_views(urls.drop_last()) =~= str_views(urls).drop_last());
        let vs = str_views(urls);
        if k == urls.last()@ {
            assert(vs[vs.len() - 1] == k);
            assert(vs.contains(k));
        } else {
            if vs.contains(k) {
                let i = choose|i: int| 0 <= i < vs.len() && vs[i] == k;
                assert(vs.drop_last()[i] == k);
                assert(vs.drop_last().contains(k));
            }
            if vs.drop_last().contains(k) {
                let i = choose|i: int| 0 <= i < vs.len() - 1 && vs.drop_last()[i] == k;
                assert(vs[i] == k);
            }
        }
    } else {
        assert(str_views(urls).len() == 0);
        if str_views(urls).contains(k) {
            let i = choose|i: int| 0 <= i < str_views(urls).len() && str_views(urls)[i] == k;
        }
    }
}

/// Splitting a duplicate-free concatenation: each part is duplicate-free
/// and the parts share no element.
proof fn lemma_concat_no_dup(a: Seq<Seq<char>>, b: Seq<Seq<char>>)
    requires
        (a + b).no_duplicates(),
    ensures
        a.no_duplicates(),
        b.no_duplicates(),
        forall|k: Seq<char>| a.contains(k) ==> !b.contains(k),
{
    assert forall|i: int, j: int| 0 <= i < j < a.len() implies a[i] != a[j] by {
        assert((a + b)[i] == a[i]);
        assert((a + b)[j] == a[j]);
    }
    assert forall|i: int, j: int| 0 <= i < j < b.len() implies b[i] != b[j] by {
        assert((a + b)[a.len() + i] == b[i]);
        assert((a + b)[a.len() + j] == b[j]);
    }
    assert forall|k: Seq<char>| a.contains(k) implies !b.contains(k) by {
        if a.contains(k) && b.contains(k) {
            let i = choose|i: int| 0 <= i < a.len() && a[i] == k;
            let j = choose|j: int| 0 <= j < b.len() && b[j] == k;
            assert((a + b)[i] == k);
            assert((a + b)[a.len() + j] == k);
        }
    }
}

/// Restoring a snapshot into a fresh store yields exactly the snapshot's
/// partitions: with the five lists free of repeated urls, the restored
/// store holds as many urls of each status as the matching list is long,
/// and no others.
pub proof fn lemma_restore_fills_partitions(
    visited: Seq<String>,
    staged: Seq<String>,
    unvisited: Seq<String>,
    skipped: Seq<String>,
    errored: Seq<String>,
)
    requires
        (str_views(visited) + str_views(staged) + str_views(unvisited) + str_views(skipped)
            + str_views(errored)).no_duplicates(),
    ensures
        count_with_status(
            restored_map(
                Map::<Seq<char>, Status>::empty(),
                visited,
                staged,
                unvisited,
                skipped,
                errored,
            ),
            Status::Visited,
        ) == visited.len(),
        count_with_status(
            restored_map(
                Map::<Seq<char>, Status>::empty(),
                visited,
                staged,
                unvisited,
                skipped,
                errored,
            ),
            Status::Staged,
        ) == staged.len(),
        count_with_status(
            restored_map(
                Map::<Seq<char>, Status>::empty(),
                visited,
                staged,
                unvisited,
                skipped,
                errored,
            ),
            Status::Unvisited,
        ) == unvisited.len(),
        count_with_status(
            restored_map(
                Map::<Seq<char>, Status>::empty(),
                visited,
                staged,
                unvisited,
                skipped,
                errored,
            ),
            Status::Skip,
        ) == skipped.len(),
        count_with_status(
            restored_map(
                Map::<Seq<char>, Status>::empty(),
                visited,
                staged,
                unvisited,
                skipped,
                errored,
            ),
            Status::Error,
        ) == errored.len(),
{
    let vv = str_views(visited);
    let vs = str_views(staged);
    let vu = str_views(unvisited);
    let vk = str_views(skipped);
    let ve = str_views(errored);
    lemma_concat_no_dup(vv + vs + vu + vk, ve);
    lemma_concat_no_dup(vv + vs + vu, vk);
    lemma_concat_no_dup(vv + vs, vu);
    lemma_concat_no_dup(vv, vs);
    assert forall|k: Seq<char>| #[trigger] (vv + vs).contains(k) implies vv.contains(k)
        || vs.contains(k) by {
        let i = choose|i: int| 0 <= i < (vv + vs).len() && (vv + vs)[i] == k;
        if i < vv.len() {
            assert(vv[i] == k);
        } else {
            assert(vs[i - vv.len()] == k);
        }
    }
    assert forall|k: Seq<char>| vv.contains(k) || vs.contains(k) implies #[trigger] (vv
        + vs).contains(k) by {
        if vv.contains(k) {
            let i = choose|i: int| 0 <= i < vv.len() && vv[i] == k;
            assert((vv + vs)[i] == k);
        } else {
            let i = choose|i: int| 0 <= i < vs.len() && vs[i] == k;
            assert((vv + vs)[vv.len() + i] == k);
        }
    }
    assert forall|k: Seq<char>| #[trigger] (vv + vs + vu).contains(k) implies (vv + vs).contains(
        k,
    ) || vu.contains(k) by {
        let i = choose|i: int| 0 <= i < (vv + vs + vu).len() && (vv + vs + vu)[i] == k;
        if i < (vv + vs).len() {
            assert((vv + vs)[i] == k);
        } else {
            assert(vu[i - (vv + vs).len()] == k);
        }
    }
    assert forall|k: Seq<char>| (vv + vs).contains(k) || vu.contains(k) implies #[trigger] (vv + vs
        + vu).contains(k) by {
        if (vv + vs).contains(k) {
            let i = choose|i: int| 0 <= i < (vv + vs).len() && (vv + vs)[i] == k;
            assert((vv + vs + vu)[i] == k);
        } else {
            let i = choose|i: int| 0 <= i < vu.len() && vu[i] == k;
            assert((vv + vs + vu)[(vv + vs).len() + i] == k);
        }
    }
    assert forall|k: Seq<char>| #[trigger] (vv + vs + vu + vk).contains(k) implies (vv + vs
        + vu).contains(k) || vk.contains(k) by {
        let i = choose|i: int|
            0 <= i < (vv + vs + vu + vk).len() && (vv + vs + vu + vk)[i] == k;
        if i < (vv + vs + vu).len() {
            assert((vv + vs + vu)[i] == k);
        } else {
            assert(vk[i - (vv + vs + vu).len()] == k);
        }
    }
    assert forall|k: Seq<char>| (vv + vs + vu).contains(k) || vk.contains(k) implies #[trigger] (vv
        + vs + vu + vk).contains(k) by {
        if (vv + vs + vu).contains(k) {
            let i = choose|i: int| 0 <= i < (vv + vs + vu).len() && (vv + vs + vu)[i] == k;
            assert((vv + vs + vu + vk)[i] == k);
        } else {
            let i = choose|i: int| 0 <= i < vk.len() && vk[i] == k;
            assert((vv + vs + vu + vk)[(vv + vs + vu).len() + i] == k);
        }
    }
    let m0 = Map::<Seq<char>, Status>::empty();
    let m1 = marks_folded(m0, visited, Status::Visited);
    let m2 = marks_folded(m1, staged, Status::Staged);
    let m3 = marks_folded(m2, unvisited, Status::Unvisited);
    let m4 = marks_folded(m3, skipped, Status::Skip);
    let m5 = marks_folded(m4, errored, Status::Error);
    assert forall|k: Seq<char>| true implies ((m5.dom().contains(k) && m5[k] == Status::Visited
        <==> vv.contains(k)) && (m5.dom().contains(k) && m5[k] == Status::Staged <==> vs.contains(
        k,
    )) && (m5.dom().contains(k) && m5[k] == Status::Unvisited <==> vu.contains(k)) && (
    m5.dom().contains(k) && m5[k] == Status::Skip <==> vk.contains(k)) && (m5.dom().contains(k)
        && m5[k] == Status::Error <==> ve.contains(k))) by {
        lemma_marks_folded_at(m0, visited, Status::Visited, k);
        lemma_marks_folded_at(m1, staged, Status::Staged, k);
        lemma_marks_folded_at(m2, unvisited, Status::Unvisited, k);
        lemma_marks_folded_at(m3, skipped, Status::Skip, k);
        lemma_marks_folded_at(m4, errored, Status::Error, k);
    }
    assert(status_keys(m5, Status::Visited) =~= vv.to_set());
    assert(status_keys(m5, Status::Staged) =~= vs.to_set());
    assert(status_keys(m5, Status::Unvisited) =~= vu.to_set());
    assert(status_keys(m5, Status::Skip) =~= vk.to_set());
    assert(status_keys(m5, Status::Error) =~= ve.to_set());
    vv.unique_seq_to_set();
    vs.unique_seq_to_set();
    vu.unique_seq_to_set();
    vk.unique_seq_to_set();
    ve.unique_seq_to_set();
}

} // verus!
