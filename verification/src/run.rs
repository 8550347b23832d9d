//! The run store: an append-only log of run observations, and the resolver
//! that picks the latest run of a project, workflow and branch.
use crate::error::BadgeError;
use crate::middlewares::auth::{AuthMiddleware, PREFLIGHT_METHOD};
use crate::models::{clone_opt, opt_text, Run, RunView};
use vstd::prelude::*;

verus! {

/// The query for the latest run of a workflow, on a branch or on none.
#[derive(Debug)]
pub struct QueryRun {
    pub project_key: String,
    pub workflow_name: String,
    pub branch: Option<String>,
}

/// The mathematical value of a [`QueryRun`].
pub struct QueryRunView {
    pub project_key: Seq<char>,
    pub workflow_name: Seq<char>,
    pub branch: Option<Seq<char>>,
}

impl View for QueryRun {
    type V = QueryRunView;

    open spec fn view(&self) -> QueryRunView {
        QueryRunView {
            project_key: self.project_key@,
            workflow_name: self.workflow_name@,
            branch: opt_text(self.branch),
        }
    }
}

impl Clone for QueryRun {
    fn clone(&self) -> (r: QueryRun)
        ensures
            r == *self,
    {
        QueryRun {
            project_key: self.project_key.clone(),
            workflow_name: self.workflow_name.clone(),
            branch: clone_opt(&self.branch),
        }
    }
}

/// The command that appends one run to the store.
pub struct CreateRun {
    pub run: Run,
}

/// The views of a list of runs, in order.
pub open spec fn run_views(rows: Seq<Run>) -> Seq<RunView> {
    rows.map_values(|r: Run| r@)
}

/// The key that a run is filed under.
pub open spec fn key_of(row: RunView) -> QueryRunView {
    QueryRunView {
        project_key: row.project_key,
        workflow_name: row.workflow_name,
        branch: row.branch,
    }
}

/// Whether a row answers a query: same project, same workflow, and the same
/// branch, where no branch only equals no branch.
pub open spec fn matches_key(row: RunView, key: QueryRunView) -> bool {
    key_of(row) == key
}

/// Whether `a` stands at or before `b` in the order by `(num, updated)`.
pub open spec fn not_after(a: RunView, b: RunView) -> bool {
    a.num < b.num || (a.num == b.num && a.updated <= b.updated)
}

/// Whether some row of the log answers the query.
pub open spec fn has_candidate(log: Seq<RunView>, key: QueryRunView) -> bool {
    exists|j: int| 0 <= j < log.len() && matches_key(#[trigger] log[j], key)
}

/// Whether row `i` is the latest answer to the query: it answers it, no
/// answer stands after it in the order by `(num, updated)`, and of several
/// answers with the same `(num, updated)` it was appended last.
pub open spec fn is_latest(log: Seq<RunView>, key: QueryRunView, i: int) -> bool {
    &&& 0 <= i < log.len()
    &&& matches_key(log[i], key)
    &&& forall|j: int|
        0 <= j < log.len() && matches_key(#[trigger] log[j], key) ==> not_after(log[j], log[i])
    &&& forall|j: int|
        i < j < log.len() && matches_key(#[trigger] log[j], key) ==> !not_after(log[i], log[j])
}

/// The latest answer to a query, if the log holds any.
pub open spec fn latest(log: Seq<RunView>, key: QueryRunView) -> Option<RunView> {
    if has_candidate(log, key) {
        Some(log[choose|i: int| is_latest(log, key, i)])
    } else {
        None
    }
}

/// At most one row is the latest answer, so finding one settles `latest`.
pub proof fn lemma_latest_unique(log: Seq<RunView>, key: QueryRunView, i: int)
    requires
        is_latest(log, key, i),
    ensures
        has_candidate(log, key),
        latest(log, key) == Some(log[i]),
        forall|k: int| is_latest(log, key, k) ==> k == i,
{
    assert(matches_key(log[i], key));
    assert forall|k: int| is_latest(log, key, k) implies k == i by {
        if k < i {
            assert(!not_after(log[k], log[i]));
            assert(not_after(log[i], log[k]));
        } else if i < k {
            assert(!not_after(log[i], log[k]));
            assert(not_after(log[k], log[i]));
        }
    }
}

/// Whether a row answers a query.
pub fn answers(row: &Run, query: &QueryRun) -> (r: bool)
    ensures
        r == matches_key(row@, query@),
{
    let same_branch = match (&row.branch, &query.branch) {
        (Some(a), Some(b)) => *a == *b,
        (None, None) => true,
        _ => false,
    };
    row.project_key == query.project_key && row.workflow_name == query.workflow_name && same_branch
}

/// Whether `best` is the latest answer in the log, or, where it is `None`,
/// the log holds no answer.
pub open spec fn is_latest_or_none(log: Seq<RunView>, key: QueryRunView, best: Option<int>) -> bool {
    match best {
        Some(b) => is_latest(log, key, b),
        None => !has_candidate(log, key),
    }
}

/// Whether a row that is appended takes the place of the latest answer: it
/// does where it answers the query and the latest so far does not stand after
/// it.
pub open spec fn takes_over(log: Seq<RunView>, row: RunView, key: QueryRunView, best: Option<int>) -> bool {
    matches_key(row, key) && (best is None || not_after(log[best->0], row))
}

/// How the latest answer moves when a row is appended.
pub proof fn lemma_latest_push(log: Seq<RunView>, row: RunView, key: QueryRunView, best: Option<int>)
    requires
        is_latest_or_none(log, key, best),
    ensures
        is_latest_or_none(
            log.push(row),
            key,
            if takes_over(log, row, key, best) {
                Some(log.len() as int)
            } else {
                best
            },
        ),
{
    let next = log.push(row);
    let n = log.len() as int;
    assert(next[n] == row);
    assert forall|j: int| 0 <= j < n implies next[j] == log[j] by {}
    if takes_over(log, row, key, best) {
        assert forall|j: int| 0 <= j < next.len() && matches_key(#[trigger] next[j], key) implies not_after(
            next[j],
            next[n],
        ) by {
            if j < n {
                assert(matches_key(log[j], key));
            }
        }
    } else if best is Some {
        let b = best->0;
        assert forall|j: int| 0 <= j < next.len() && matches_key(#[trigger] next[j], key) implies not_after(
            next[j],
            next[b],
        ) by {
            if j < n {
                assert(matches_key(log[j], key));
            }
        }
        assert forall|j: int| b < j < next.len() && matches_key(#[trigger] next[j], key) implies !not_after(
            next[b],
            next[j],
        ) by {
            if j < n {
                assert(matches_key(log[j], key));
            }
        }
    } else {
        assert forall|j: int| 0 <= j < next.len() implies !matches_key(#[trigger] next[j], key) by {
            if j < n {
                assert(!matches_key(log[j], key));
            }
        }
    }
}

/// Picks the latest run among `rows` for a query: of the rows with the query's
/// project, workflow and branch, the one greatest by `(num, updated)`. Fails
/// with `NoRunAvailable` exactly when no row answers the query.
pub fn latest_run(rows: &Vec<Run>, query: &QueryRun) -> (r: Result<Run, BadgeError>)
    ensures
        match r {
            Ok(run) => latest(run_views(rows@), query@) == Some(run@),
            Err(e) => e is NoRunAvailable && latest(run_views(rows@), query@) is None,
        },
{
    let ghost log = run_views(rows@);
    let mut best: Option<usize> = None;
    let mut k: usize = 0;
    while k < rows.len()
        invariant
            k <= rows.len(),
            log == run_views(rows@),
            best is Some ==> best->0 < k,
            is_latest_or_none(
                log.take(k as int),
                query@,
                match best {
                    Some(b) => Some(b as int),
                    None => None,
                },
            ),
        decreases rows.len() - k,
    {
        let ghost seen = log.take(k as int);
        let ghost found: Option<int> = match best {
            Some(b) => Some(b as int),
            None => None,
        };
        proof {
            lemma_latest_push(seen, log[k as int], query@, found);
            assert(log.take(k + 1) == seen.push(log[k as int]));
        }
        let row = &rows[k];
        if answers(row, query) {
            let newer = match best {
                Some(b) => {
                    let held = &rows[b];
                    held.num < row.num || (held.num == row.num && held.updated <= row.updated)
                },
                None => true,
            };
            if newer {
                best = Some(k);
            }
        }
        k = k + 1;
    }
    assert(log.take(k as int) == log);
    match best {
        Some(b) => {
            proof {
                lemma_latest_unique(log, query@, b as int);
            }
            Ok(rows[b].clone())
        },
        None => Err(BadgeError::NoRunAvailable),
    }
}

/// The row that the store files for a run: the run as it was handed in, under
/// the identifier and the timestamp that the store assigns.
pub open spec fn stored(run: RunView, id: i64, now: i64) -> RunView {
    RunView { id: id, updated: now, ..run }
}

/// Whether the identifiers of a log rise strictly and stay below `next_id`.
pub open spec fn ids_rise(log: Seq<RunView>, next_id: i64) -> bool {
    &&& forall|i: int, j: int| 0 <= i < j < log.len() ==> (#[trigger] log[i]).id < (#[trigger] log[j]).id
    &&& forall|i: int| 0 <= i < log.len() ==> 0 < (#[trigger] log[i]).id < next_id
}

/// The run store: a log to which rows are only ever appended. Each row gets
/// an identifier that no earlier row had.
pub struct RunStore {
    rows: Vec<Run>,
    next_id: i64,
}

impl View for RunStore {
    type V = Seq<RunView>;

    closed spec fn view(&self) -> Seq<RunView> {
        run_views(self.rows@)
    }
}

impl RunStore {
    /// The identifier that the next row will get.
    pub closed spec fn next_id(&self) -> i64 {
        self.next_id
    }

    /// What holds of every store: identifiers are positive, rise in the
    /// order of insertion, and are all below the next one to be assigned.
    #[verifier::type_invariant]
    pub open spec fn wf(&self) -> bool {
        &&& 0 < self.next_id()
        &&& ids_rise(self@, self.next_id())
    }

    /// An empty store, whose first row will get identifier 1.
    pub fn new() -> (r: RunStore)
        ensures
            r.wf(),
            r@ == Seq::<RunView>::empty(),
            r.next_id() == 1,
    {
        RunStore { rows: Vec::new(), next_id: 1 }
    }

    /// The store that holds the given rows, under the identifiers and
    /// timestamps they carry; the next row gets the identifier after the last.
    /// There is such a store exactly when the identifiers are positive, rise
    /// from row to row, and leave the greatest number free.
    pub fn from_rows(rows: Vec<Run>) -> (r: Option<RunStore>)
        ensures
            r is Some <==> ids_rise(run_views(rows@), i64::MAX),
            r is Some ==> {
                &&& r->0.wf()
                &&& r->0@ == run_views(rows@)
                &&& r->0.next_id() == if rows@.len() == 0 {
                    1
                } else {
                    rows@.last().id + 1
                }
            },
    {
        let ghost log = run_views(rows@);
        let mut last: i64 = 0;
        let mut k: usize = 0;
        while k < rows.len()
            invariant
                k <= rows.len(),
                log == run_views(rows@),
                0 <= last < i64::MAX,
                ids_rise(log.take(k as int), (last + 1) as i64),
                last == if k == 0 {
                    0
                } else {
                    log[k - 1].id
                },
            decreases rows.len() - k,
        {
            let id = rows[k].id;
            assert(log[k as int].id == id);
            if id <= last || id == i64::MAX {
                proof {
                    if ids_rise(log, i64::MAX) {
                        assert(0 < log[k as int].id < i64::MAX);
                        if k > 0 {
                            assert(log[k - 1].id < log[k as int].id);
                        }
                    }
                }
                return None;
            }
            proof {
                let next = log.take(k + 1);
                let seen = log.take(k as int);
                assert forall|i: int, j: int| 0 <= i < j < next.len() implies (#[trigger] next[i]).id < (
                #[trigger] next[j]).id by {
                    assert(next[i] == seen[i]);
                    if j < k {
                        assert(next[j] == seen[j]);
                    }
                }
                assert forall|i: int| 0 <= i < next.len() implies 0 < (#[trigger] next[i]).id < id
                    + 1 by {
                    if i < k {
                        assert(next[i] == seen[i]);
                    }
                }
            }
            last = id;
            k = k + 1;
        }
        assert(log.take(k as int) == log);
        Some(RunStore { rows, next_id: last + 1 })
    }

    /// The number of rows.
    pub fn len(&self) -> (r: usize)
        ensures
            r == self@.len(),
            self.wf(),
    {
        proof {
            use_type_invariant(self);
        }
        self.rows.len()
    }

    /// Appends one run, stamped with the time `now`, and hands the run back as
    /// it came. Fails with `DatabaseError`, leaving the log as it was, exactly
    /// when the identifiers are used up.
    pub fn create_run(&mut self, msg: CreateRun, now: i64) -> (r: Result<Run, BadgeError>)
        ensures
            final(self).wf(),
            match r {
                Ok(run) => {
                    &&& old(self).next_id() < i64::MAX
                    &&& run == msg.run
                    &&& final(self)@ == old(self)@.push(stored(msg.run@, old(self).next_id(), now))
                    &&& final(self).next_id() == old(self).next_id() + 1
                },
                Err(e) => {
                    &&& old(self).next_id() == i64::MAX
                    &&& e is DatabaseError
                    &&& final(self)@ == old(self)@
                    &&& final(self).next_id() == old(self).next_id()
                },
            },
    {
        proof {
            use_type_invariant(&*self);
        }
        if self.next_id == i64::MAX {
            return Err(BadgeError::DatabaseError { cause: "identifiers are used up".to_owned() });
        }
        let ghost before = self@;
        let mut taken = RunStore { rows: Vec::new(), next_id: 1 };
        std::mem::swap(self, &mut taken);
        let RunStore { mut rows, next_id } = taken;
        let mut row = msg.run.clone();
        row.id = next_id;
        row.updated = now;
        rows.push(row);
        assert(run_views(rows@) == before.push(stored(msg.run@, next_id, now)));
        *self = RunStore { rows, next_id: next_id + 1 };
        Ok(msg.run)
    }

    /// The latest run for a query: of the rows with the query's project,
    /// workflow and branch, the one greatest by `(num, updated)`. Fails with
    /// `NoRunAvailable` exactly when the log holds no row for the query.
    pub fn query_latest_run(&self, msg: &QueryRun) -> (r: Result<Run, BadgeError>)
        ensures
            self.wf(),
            match r {
                Ok(run) => latest(self@, msg@) == Some(run@),
                Err(e) => e is NoRunAvailable && latest(self@, msg@) is None,
            },
    {
        proof {
            use_type_invariant(self);
        }
        latest_run(&self.rows, msg)
    }
}

/// Whether a direct write may pass: only with a token that is not empty and
/// equals the hash of the service.
pub open spec fn may_write(token: Option<Seq<char>>, hash: Seq<char>) -> bool {
    token is Some && token->0.len() > 0 && token->0 == hash
}

/// Serves a direct write, given the token that the request carries and the
/// hash of the service. A request that may not pass fails with `Unauthorised`
/// and leaves the store as it was. Any other files the run in the store, as
/// the consumer does for the run of an event, and gets it back as it came.
pub fn run_handler(
    store: &mut RunStore,
    token: Option<&str>,
    hash: &str,
    run: Run,
    now: i64,
) -> (r: Result<Run, BadgeError>)
    ensures
        final(store).wf(),
        ({
            let allowed = may_write(
                match token {
                    Some(t) => Some(t@),
                    None => None,
                },
                hash@,
            );
            match r {
                Ok(back) => {
                    &&& allowed
                    &&& old(store).next_id() < i64::MAX
                    &&& back == run
                    &&& final(store)@ == old(store)@.push(stored(run@, old(store).next_id(), now))
                    &&& final(store).next_id() == old(store).next_id() + 1
                },
                Err(e) => {
                    &&& final(store)@ == old(store)@
                    &&& final(store).next_id() == old(store).next_id()
                    &&& e is Unauthorised <==> !allowed
                    &&& e is DatabaseError <==> allowed && old(store).next_id() == i64::MAX
                },
            }
        }),
{
    proof {
        use_type_invariant(&*store);
        reveal_strlit("POST");
        reveal_strlit("OPTIONS");
        assert("POST"@.len() == 4);
        assert(PREFLIGHT_METHOD@.len() == 7);
    }
    match AuthMiddleware.start("POST", token, hash) {
        Ok(()) => store.create_run(CreateRun { run }, now),
        Err(e) => Err(e),
    }
}

/// Write, then read: once a run is appended, a query for its key finds a run
/// with its status, provided no row already filed under that key stands after
/// the new one in the order by `(num, updated)`.
pub proof fn lemma_write_then_read(log: Seq<RunView>, run: RunView, id: i64, now: i64)
    requires
        forall|j: int|
            0 <= j < log.len() && matches_key(#[trigger] log[j], key_of(run)) ==> not_after(
                log[j],
                stored(run, id, now),
            ),
    ensures
        latest(log.push(stored(run, id, now)), key_of(run)) == Some(stored(run, id, now)),
        latest(log.push(stored(run, id, now)), key_of(run))->0.status == run.status,
{
    let row = stored(run, id, now);
    let after = log.push(row);
    let key = key_of(run);
    assert(after[log.len() as int] == row);
    assert forall|j: int| 0 <= j < after.len() && matches_key(#[trigger] after[j], key) implies not_after(
        after[j],
        row,
    ) by {
        if j < log.len() {
            assert(after[j] == log[j]);
        }
    }
    assert(is_latest(after, key, log.len() as int));
    lemma_latest_unique(after, key, log.len() as int);
}

/// Order: the latest run is filed under the query's key, and no row under
/// that key has a greater `num`, nor the same `num` and a greater `updated`.
pub proof fn lemma_latest_is_greatest(log: Seq<RunView>, key: QueryRunView)
    requires
        has_candidate(log, key),
    ensures
        latest(log, key) is Some,
        matches_key(latest(log, key)->0, key),
        log.contains(latest(log, key)->0),
        forall|j: int|
            0 <= j < log.len() && matches_key(#[trigger] log[j], key) ==> {
                ||| log[j].num < latest(log, key)->0.num
                ||| (log[j].num == latest(log, key)->0.num && log[j].updated <= latest(
                    log,
                    key,
                )->0.updated)
            },
{
    lemma_latest_exists(log, key);
    let i = choose|i: int| is_latest(log, key, i);
    assert(log[i] == latest(log, key)->0);
}

/// Where rows of one key were appended with strictly rising `num`, the latest
/// run of that key is the one appended last.
pub proof fn lemma_rising_num_latest_is_last(log: Seq<RunView>, key: QueryRunView, last: int)
    requires
        0 <= last < log.len(),
        matches_key(log[last], key),
        forall|j: int| last < j < log.len() ==> !matches_key(#[trigger] log[j], key),
        forall|i: int, j: int|
            0 <= i < j < log.len() && matches_key(#[trigger] log[i], key) && matches_key(
                #[trigger] log[j],
                key,
            ) ==> log[i].num < log[j].num,
    ensures
        latest(log, key) == Some(log[last]),
{
    assert(is_latest(log, key, last));
    lemma_latest_unique(log, key, last);
}

/// Miss: a log without a row for the query has no latest run, and only such
/// a log has none.
pub proof fn lemma_miss(log: Seq<RunView>, key: QueryRunView)
    ensures
        latest(log, key) is None <==> !has_candidate(log, key),
        latest(Seq::<RunView>::empty(), key) is None,
{
}

/// A log with a row for the query has a latest one.
pub proof fn lemma_latest_exists(log: Seq<RunView>, key: QueryRunView)
    requires
        has_candidate(log, key),
    ensures
        exists|i: int| is_latest(log, key, i),
    decreases log.len(),
{
    let front = log.drop_last();
    let last = log.last();
    assert(log == front.push(last));
    if has_candidate(front, key) {
        lemma_latest_exists(front, key);
        let b = choose|i: int| is_latest(front, key, i);
        lemma_latest_push(front, last, key, Some(b));
        if takes_over(front, last, key, Some(b)) {
            assert(is_latest(log, key, front.len() as int));
        } else {
            assert(is_latest(log, key, b));
        }
    } else {
        lemma_latest_push(front, last, key, None);
        let w = choose|j: int| 0 <= j < log.len() && matches_key(#[trigger] log[j], key);
        if w < front.len() {
            assert(matches_key(front[w], key));
        }
        assert(is_latest(log, key, front.len() as int));
    }
}

} // verus!
