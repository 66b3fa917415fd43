//! Decisions of the high-level client: how a failed sign-in is reported,
//! when a simulation is finished, and how data-field pages are gathered.
use crate::err::{ApiClientError, BrainClientError};
use polars::io::SerReader;
use vstd::prelude::*;
use vstd::string::*;

verus! {

/// `polars::frame::DataFrame`, handed out as an opaque value.
#[verifier::external_type_specification]
#[verifier::external_body]
pub struct ExDataFrame(polars::frame::DataFrame);

/// `polars::frame::column::Column`, declared because `DataFrame` indexes to
/// columns; the library never holds one.
#[verifier::external_type_specification]
#[verifier::external_body]
pub struct ExColumn(polars::frame::column::Column);

/// Configuration for the brain client.
#[derive(Debug, Clone)]
pub struct BrainClientConfig {
    pub auth_file_path: String,
}

/// The status of an answer that refuses the credentials.
pub const UNAUTHORIZED: u16 = 401;

/// A refused sign-in (status 401), as opposed to any other failure.
pub open spec fn is_refused_sign_in(err: ApiClientError) -> bool {
    err matches ApiClientError::ResponseError { status, .. } && status.0 == Some(UNAUTHORIZED)
}

/// How a failed sign-in is reported: a refusal of the credentials becomes
/// `LoginFailed`, any other failure is passed on.
pub fn login_error(err: ApiClientError) -> (r: BrainClientError)
    ensures
        is_refused_sign_in(err) ==> r is LoginFailed,
        !is_refused_sign_in(err) ==> r == BrainClientError::ApiClientError(err),
{
    let refused = match &err {
        ApiClientError::ResponseError { status, .. } => match status.0 {
            Some(code) => code == UNAUTHORIZED,
            None => false,
        },
        _ => false,
    };
    if refused {
        BrainClientError::LoginFailed()
    } else {
        BrainClientError::ApiClientError(err)
    }
}

/// What to do after polling a simulation.
#[derive(Debug)]
pub enum SimulationStep {
    /// The simulation still runs: poll again after this many seconds.
    Wait(u64),
    /// The simulation is over: the id of the alpha it produced, or why
    /// there is none.
    Finished(Result<String, BrainClientError>),
}

/// Judges one poll of a simulation: a positive `retry_after` means the
/// simulation still runs; otherwise its answer must name an alpha.
pub fn simulation_step(retry_after: u64, alpha: Option<String>) -> (step: SimulationStep)
    ensures
        retry_after > 0 ==> step == SimulationStep::Wait(retry_after),
        retry_after == 0 ==> match alpha {
            Some(a) => step matches SimulationStep::Finished(Ok(id)) && id@ == a@,
            None => step matches SimulationStep::Finished(Err(BrainClientError::NotFoundField(f)))
                && f@ == "alpha"@,
        },
{
    if retry_after != 0 {
        return SimulationStep::Wait(retry_after);
    }
    match alpha {
        Some(a) => SimulationStep::Finished(Ok(a)),
        None => SimulationStep::Finished(Err(BrainClientError::NotFoundField(String::from_str("alpha")))),
    }
}

/// What one poll of a simulation answered, as the client reads it: the
/// seconds after which to poll again (0 once the simulation is over) and
/// the alpha id that the answer names, if any.
#[derive(Debug, Clone)]
pub struct PollAnswer {
    pub retry_after: u64,
    pub alpha: Option<String>,
}

/// The pause after a poll that answered `a` before the next poll, or none
/// when that poll ends the simulation: it failed, or it reported no delay.
pub open spec fn poll_delay(a: Result<PollAnswer, ApiClientError>) -> Option<u64> {
    match a {
        Ok(p) => if p.retry_after > 0 {
            Some(p.retry_after)
        } else {
            None
        },
        Err(_) => None,
    }
}

/// `r` is the outcome of a simulation whose last poll answered `a`: a failed
/// poll passes its error on, a finished one names its alpha or lacks one.
pub open spec fn ends_with(a: Result<PollAnswer, ApiClientError>, r: Result<String, BrainClientError>) -> bool {
    match a {
        Err(e) => r == Err::<String, BrainClientError>(BrainClientError::ApiClientError(e)),
        Ok(p) => match p.alpha {
            Some(id) => r matches Ok(s) && s@ == id@,
            None => r matches Err(BrainClientError::NotFoundField(f)) && f@ == "alpha"@,
        },
    }
}

/// What follows `post_simulations`: the id of the simulation to poll, or
/// its failure, passed on, which ends the call before any poll is made.
pub fn after_post(posted: Result<String, ApiClientError>) -> (r: Result<String, BrainClientError>)
    ensures
        posted matches Ok(id) ==> r == Ok::<String, BrainClientError>(id),
        posted matches Err(e) ==> r == Err::<String, BrainClientError>(
            BrainClientError::ApiClientError(e),
        ),
{
    match posted {
        Ok(id) => Ok(id),
        Err(e) => Err(BrainClientError::ApiClientError(e)),
    }
}

/// Judges the answer of one poll: a failed poll ends the simulation with its
/// error; otherwise `simulation_step` decides.
pub fn poll_step(answer: Result<PollAnswer, ApiClientError>) -> (step: SimulationStep)
    ensures
        poll_delay(answer) matches Some(d) ==> step == SimulationStep::Wait(d),
        poll_delay(answer) is None ==> (step matches SimulationStep::Finished(r) && ends_with(
            answer,
            r,
        )),
{
    match answer {
        Err(e) => SimulationStep::Finished(Err(BrainClientError::ApiClientError(e))),
        Ok(p) => simulation_step(p.retry_after, p.alpha),
    }
}

/// The polls that a simulation makes when its successive polls would answer
/// `answers`: one entry per poll made, holding the pause that follows it
/// (`poll_delay`); polling stops after the first entry with none.
pub open spec fn poll_trace(answers: Seq<Result<PollAnswer, ApiClientError>>) -> Seq<Option<u64>>
    decreases answers.len(),
{
    if answers.len() == 0 {
        Seq::empty()
    } else {
        match poll_delay(answers[0]) {
            Some(d) => seq![Some(d)] + poll_trace(answers.drop_first()),
            None => seq![None::<u64>],
        }
    }
}

/// The seconds paused over a trace of polls.
pub open spec fn paused(t: Seq<Option<u64>>) -> nat
    decreases t.len(),
{
    if t.len() == 0 {
        0
    } else {
        (match t[0] {
            Some(d) => d as nat,
            None => 0,
        }) + paused(t.drop_first())
    }
}

/// The sum of the delays that `answers` report (a failed answer reports none).
pub open spec fn total_delay(answers: Seq<Result<PollAnswer, ApiClientError>>) -> nat
    decreases answers.len(),
{
    if answers.len() == 0 {
        0
    } else {
        (match answers[0] {
            Ok(p) => p.retry_after as nat,
            Err(_) => 0,
        }) + total_delay(answers.drop_first())
    }
}

/// A simulation whose first poll that fails or reports no delay is poll `i`
/// is polled exactly `i + 1` times: every earlier poll is followed by a pause
/// of the delay it reported, so the call pauses the sum of those delays, and
/// poll `i` is the last (its outcome is the one `poll_step` gives for its
/// answer: a failure is passed on as it came). What later polls would have
/// answered plays no part.
pub proof fn poll_law(answers: Seq<Result<PollAnswer, ApiClientError>>, i: int)
    requires
        0 <= i < answers.len(),
        poll_delay(answers[i]) is None,
        forall|j: int| 0 <= j < i ==> #[trigger] poll_delay(answers[j]) is Some,
    ensures
        poll_trace(answers).len() == i + 1,
        forall|k: int| 0 <= k < i ==> #[trigger] poll_trace(answers)[k] == poll_delay(answers[k]),
        poll_trace(answers)[i] is None,
        poll_trace(answers) == poll_trace(answers.take(i + 1)),
        paused(poll_trace(answers)) == total_delay(answers.take(i)),
    decreases i,
{
    let t = poll_trace(answers);
    let front = answers.take(i + 1);
    if i == 0 {
        assert(t =~= seq![None::<u64>]);
        assert(front[0] == answers[0]);
        assert(poll_trace(front) =~= seq![None::<u64>]);
        assert(paused(t.drop_first()) == 0);
        assert(answers.take(0) =~= Seq::<Result<PollAnswer, ApiClientError>>::empty());
    } else {
        let rest = answers.drop_first();
        assert(poll_delay(answers[0]) is Some);
        assert forall|j: int| 0 <= j < i - 1 implies #[trigger] poll_delay(rest[j]) is Some by {
            assert(poll_delay(answers[j + 1]) is Some);
        }
        assert(rest[i - 1] == answers[i]);
        poll_law(rest, i - 1);
        let d = poll_delay(answers[0])->0;
        let r = poll_trace(rest);
        assert(t =~= seq![Some(d)] + r);
        assert forall|k: int| 0 <= k < i implies #[trigger] t[k] == poll_delay(answers[k]) by {
            if k > 0 {
                assert(t[k] == r[k - 1]);
                assert(answers[k] == rest[k - 1]);
            }
        }
        assert(front[0] == answers[0]);
        assert(front.drop_first() =~= rest.take(i));
        assert(poll_trace(front) =~= seq![Some(d)] + poll_trace(rest.take(i)));
        assert(t.drop_first() =~= r);
        assert(answers.take(i).drop_first() =~= rest.take(i - 1));
        assert(answers.take(i)[0] == answers[0]);
    }
}

/// The number of data fields asked for per page.
pub const PAGE_LIMIT: u32 = 50;

/// What one page of a data-field listing holds, as the client reads it:
/// the total count (absent unless a non-negative integer) and the records of
/// the page, each as compact JSON text (absent unless an array).
#[derive(Debug, Clone)]
pub struct FieldsPage {
    pub count: Option<u64>,
    pub results: Option<Vec<String>>,
}

/// The offsets of the pages after the first: `limit`, `2 * limit`, ... as
/// long as they stay below `count`.
pub open spec fn page_offsets(limit: nat, count: nat) -> Seq<nat> {
    let n = if count == 0 { 0 } else { ((count - 1) as nat) / limit };
    Seq::new(n, |k: int| ((k + 1) * limit) as nat)
}

/// The records of a page, as text.
pub open spec fn record_texts(rs: Seq<String>) -> Seq<Seq<char>> {
    rs.map_values(|r: String| r@)
}

/// The records joined by commas.
pub open spec fn join_records(rs: Seq<Seq<char>>) -> Seq<char>
    decreases rs.len(),
{
    if rs.len() == 0 {
        Seq::empty()
    } else if rs.len() == 1 {
        rs[0]
    } else {
        join_records(rs.drop_last()) + ","@ + rs.last()
    }
}

/// The records as one JSON array, as `serde_json::to_string` writes it.
pub open spec fn json_array(rs: Seq<Seq<char>>) -> Seq<char> {
    "["@ + join_records(rs) + "]"@
}

proof fn lemma_offset_bound(k: nat, limit: nat, count: nat)
    requires
        limit > 0,
    ensures
        ((k + 1) * limit < count) <==> (count > 0 && k < ((count - 1) as nat) / limit),
{
    if count > 0 {
        let c1 = (count - 1) as nat;
        let q = c1 / limit;
        let r = c1 % limit;
        assert(c1 == q * limit + r && 0 <= r < limit) by (nonlinear_arith)
            requires
                limit > 0,
                q == c1 / limit,
                r == c1 % limit,
        ;
        assert(((k + 1) * limit <= c1) <==> (k + 1 <= q)) by (nonlinear_arith)
            requires
                c1 == q * limit + r,
                0 <= r < limit,
                limit > 0,
        ;
    }
}

/// Gathers the pages of a data-field listing: after the first page it names
/// the offset of each further page, and it keeps the records in order.
pub struct DataFieldPager {
    limit: u32,
    count: u32,
    pages_done: u64,
    upcoming: u64,
    records: Vec<String>,
    pages: Ghost<Seq<Seq<Seq<char>>>>,
}

impl DataFieldPager {
    /// The pager's own consistency: a positive page size, no more pages
    /// added than there are, the next offset kept in step, one entry of
    /// `pages` for the first page and each page added, and the records being
    /// those of the pages, in order.
    pub closed spec fn wf(&self) -> bool {
        &&& self.limit > 0
        &&& self.pages_done <= page_offsets(self.limit as nat, self.count as nat).len()
        &&& self.upcoming == (self.pages_done + 1) * self.limit
        &&& self.pages@.len() == self.pages_done + 1
        &&& record_texts(self.records@) == self.pages@.flatten()
    }

    /// The records of each page read so far, the first page first.
    pub closed spec fn pages(&self) -> Seq<Seq<Seq<char>>> {
        self.pages@
    }

    /// The page size.
    pub closed spec fn limit(&self) -> nat {
        self.limit as nat
    }

    /// The total number of records, as read from the first page.
    pub closed spec fn count(&self) -> nat {
        self.count as nat
    }

    /// How many pages after the first were added.
    pub closed spec fn pages_done(&self) -> nat {
        self.pages_done as nat
    }

    /// The records gathered so far, in order.
    pub closed spec fn records(&self) -> Seq<Seq<char>> {
        record_texts(self.records@)
    }

    /// The offsets of the pages that follow the first.
    pub open spec fn offsets(&self) -> Seq<nat> {
        page_offsets(self.limit(), self.count())
    }

    /// Starts gathering from the first page (offset 0). The count is taken
    /// modulo 2^32, as `as u32` does.
    pub fn start(limit: u32, first: FieldsPage) -> (res: Result<DataFieldPager, BrainClientError>)
        requires
            limit > 0,
        ensures
            first.count is None ==> (res matches Err(BrainClientError::NotFoundField(f)) && f@
                == "count"@),
            first.count is Some && first.results is None ==> (res matches Err(
                BrainClientError::NotFoundField(f),
            ) && f@ == "results"@),
            first.count is Some && first.results is Some ==> (res matches Ok(p) && p.wf() && p.limit()
                == limit && p.count() == (first.count->0 as u32) && p.pages_done() == 0
                && p.records() == record_texts(first.results->0@) && p.pages() == seq![
                record_texts(first.results->0@),
            ]),
    {
        let count = match first.count {
            Some(c) => c as u32,
            None => return Err(BrainClientError::NotFoundField(String::from_str("count"))),
        };
        let records = match first.results {
            Some(rs) => rs,
            None => return Err(BrainClientError::NotFoundField(String::from_str("results"))),
        };
        proof {
            assert(1 * limit == limit) by (nonlinear_arith);
            Seq::<Seq<Seq<char>>>::empty().push(record_texts(records@)).lemma_flatten_one_element();
            assert(Seq::<Seq<Seq<char>>>::empty().push(record_texts(records@)) =~= seq![record_texts(records@)]);
        }
        let pages: Ghost<Seq<Seq<Seq<char>>>> = Ghost(Seq::empty().push(record_texts(records@)));
        Ok(DataFieldPager { limit, count, pages_done: 0, upcoming: limit as u64, records, pages })
    }

    /// The offset of the next page to ask for, if any.
    pub fn next_offset(&self) -> (o: Option<u32>)
        requires
            self.wf(),
        ensures
            self.pages_done() < self.offsets().len() ==> o == Some(
                self.offsets()[self.pages_done() as int] as u32,
            ),
            self.pages_done() >= self.offsets().len() ==> o is None,
    {
        proof {
            lemma_offset_bound(self.pages_done as nat, self.limit as nat, self.count as nat);
        }
        if self.upcoming < self.count as u64 {
            Some(self.upcoming as u32)
        } else {
            None
        }
    }

    /// Adds the page at the next offset.
    pub fn add_page(&mut self, page: FieldsPage) -> (res: Result<(), BrainClientError>)
        requires
            old(self).wf(),
            old(self).pages_done() < old(self).offsets().len(),
        ensures
            final(self).wf(),
            final(self).limit() == old(self).limit(),
            final(self).count() == old(self).count(),
            page.results is None ==> (res matches Err(BrainClientError::NotFoundField(f)) && f@
                == "results"@),
            page.results is Some ==> res is Ok && final(self).pages_done() == old(self).pages_done()
                + 1 && final(self).records() == old(self).records() + record_texts(
                page.results->0@,
            ) && final(self).pages() == old(self).pages().push(record_texts(page.results->0@)),
    {
        proof {
            lemma_offset_bound(self.pages_done as nat, self.limit as nat, self.count as nat);
        }
        let mut more = match page.results {
            Some(rs) => rs,
            None => return Err(BrainClientError::NotFoundField(String::from_str("results"))),
        };
        let ghost before = self.records@;
        let ghost added = more@;
        self.records.append(&mut more);
        proof {
            assert(record_texts(self.records@) =~= record_texts(before) + record_texts(added));
            assert((self.pages_done + 2) * self.limit == (self.pages_done + 1) * self.limit
                + self.limit) by (nonlinear_arith);
        }
        proof {
            self.pages@.lemma_flatten_push(record_texts(added));
        }
        self.pages = Ghost(self.pages@.push(record_texts(added)));
        self.pages_done = self.pages_done + 1;
        self.upcoming = self.upcoming + self.limit as u64;
        Ok(())
    }

    /// The gathered records as one JSON array, or none when there are no
    /// records (the data frame is then the empty one).
    pub fn records_json(&self) -> (res: Option<String>)
        ensures
            self.records().len() == 0 ==> res is None,
            self.records().len() > 0 ==> (res matches Some(t) && t@ == json_array(self.records())),
    {
        let n = self.records.len();
        if n == 0 {
            return None;
        }
        let mut s = String::from_str("[");
        let mut i: usize = 0;
        proof {
            reveal_strlit("[");
            assert(record_texts(self.records@).take(0) =~= Seq::<Seq<char>>::empty());
        }
        while i < n
            invariant
                n == self.records@.len(),
                i <= n,
                s@ == "["@ + join_records(record_texts(self.records@).take(i as int)),
            decreases n - i,
        {
            let ghost rs = record_texts(self.records@);
            proof {
                assert(rs.take(i + 1).drop_last() =~= rs.take(i as int));
                assert(rs.take(i + 1).last() == self.records@[i as int]@);
            }
            if i > 0 {
                s.append(",");
            }
            s.append(self.records[i].as_str());
            proof {
                if i == 0 {
                    assert(rs.take(1) =~= seq![rs[0]]);
                }
            }
            i = i + 1;
        }
        s.append("]");
        proof {
            assert(record_texts(self.records@).take(n as int) =~= record_texts(self.records@));
        }
        Some(s)
    }
}

/// Record `j` lies on the first page or on a page at one of `page_offsets`.
pub open spec fn record_is_paged(limit: nat, count: nat, j: int) -> bool {
    let o = page_offsets(limit, count);
    j < limit || exists|k: int| 0 <= k < o.len() && #[trigger] o[k] <= j < o[k] + limit
}

/// Reads the records that `pager` gathered into a data frame, given as
/// their JSON array: a caller may hand it no other text than
/// `json_array(pager.records())`, and only when there are records.
///
/// Calls `polars::prelude::JsonReader::finish` on the text; `pager` is not
/// read. Nothing is claimed of the outcome: polars infers the schema by
/// folding column types out of a hash set whose iteration order is seeded per
/// process, so even whether reading succeeds is not a function of the text
/// alone.
#[verifier::external_body]
fn frame_from_json(pager: &DataFieldPager, json: String) -> (res: Result<polars::frame::DataFrame, polars::error::PolarsError>)
    requires
        pager.records().len() > 0,
        json@ == json_array(pager.records()),
{
    polars::prelude::JsonReader::new(std::io::Cursor::new(json)).finish()
}

/// The data frame with no columns and no rows.
///
/// Calls `polars::frame::DataFrame::empty`; nothing is claimed of the value.
#[verifier::external_body]
fn empty_frame() -> (res: polars::frame::DataFrame) {
    polars::frame::DataFrame::empty()
}

impl DataFieldPager {
    /// The gathered records as a data frame: the empty frame when there are
    /// none, else the frame that polars reads from the JSON array of all of
    /// them, in order (`records_json`; the read accepts no other text).
    /// Whether that read succeeds, and which rows the frame holds, are
    /// polars' and are left unstated.
    pub fn frame(&self) -> (res: Result<polars::frame::DataFrame, BrainClientError>)
        ensures
            self.records().len() == 0 ==> res is Ok,
            res matches Err(e) ==> e is DFERROR,
    {
        match self.records_json() {
            None => Ok(empty_frame()),
            Some(text) => match frame_from_json(self, text) {
                Ok(df) => Ok(df),
                Err(e) => Err(BrainClientError::DFERROR(e)),
            },
        }
    }
}

/// The pages a listing is read in cover every record once: the first page
/// (offset 0) and the pages at `page_offsets` are consecutive windows of
/// `limit` records, each starting below `count`, and every record index below
/// `count` falls in one of them.
pub proof fn paging_law(limit: nat, count: nat)
    requires
        limit > 0,
    ensures
        ({
            let o = page_offsets(limit, count);
            &&& forall|k: int| 0 <= k < o.len() ==> #[trigger] o[k] == (k + 1) * limit && o[k] < count
            &&& forall|j: int| 0 <= j < count ==> #[trigger] record_is_paged(limit, count, j)
        }),
{
    let o = page_offsets(limit, count);
    assert forall|k: int| 0 <= k < o.len() implies #[trigger] o[k] == (k + 1) * limit && o[k]
        < count by {
        lemma_offset_bound(k as nat, limit, count);
    }
    assert forall|j: int| 0 <= j < count implies #[trigger] record_is_paged(limit, count, j) by {
      if j >= limit {
        let q = j / (limit as int);
        assert(q * limit <= j < q * limit + limit && q >= 1) by (nonlinear_arith)
            requires
                limit > 0,
                q == j / (limit as int),
                j >= limit,
        ;
        let k = q - 1;
        lemma_offset_bound(k as nat, limit, count);
        assert((k + 1) * limit == q * limit);
        assert(0 <= k < o.len());
        assert(o[k] == q * limit);
        assert(o[k] <= j < o[k] + limit);
      }
    }
}

/// The number of pages in which `count` records are read, `limit` at a time:
/// the first page always, and as many as it takes to reach `count`.
pub open spec fn page_count(limit: nat, count: nat) -> nat {
    if count <= limit {
        1
    } else {
        ((count + limit - 1) as nat) / limit
    }
}

/// Once the pager names no further offset, every page has been read once,
/// in order: the first page and then one page at each of `offsets()`,
/// `page_count` pages in all, and the records gathered are those of these
/// pages, concatenated in the order the pages came.
pub proof fn gathered_law(p: &DataFieldPager)
    requires
        p.wf(),
        p.pages_done() >= p.offsets().len(),
    ensures
        p.pages_done() == p.offsets().len(),
        p.pages().len() == p.offsets().len() + 1,
        p.pages().len() == page_count(p.limit(), p.count()),
        p.records() == p.pages().flatten(),
{
    let limit = p.limit();
    let count = p.count();
    if count > limit {
        let c1: int = count - 1;
        let l: int = limit as int;
        vstd::arithmetic::div_mod::lemma_div_plus_one(c1, l);
        assert(l + c1 == count + limit - 1);
    } else if count > 0 {
        let c1 = (count - 1) as nat;
        assert(c1 / limit == 0) by (nonlinear_arith)
            requires
                limit > 0,
                c1 < limit,
        ;
    }
}

} // verus!
