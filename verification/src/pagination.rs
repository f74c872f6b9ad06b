use vstd::arithmetic::div_mod::lemma_basic_div;
use vstd::arithmetic::div_mod::lemma_hoist_over_denominator;
use vstd::arithmetic::div_mod::lemma_mod_sub_multiples_vanish;
use vstd::arithmetic::div_mod::lemma_small_mod;
use vstd::prelude::*;

use crate::guild::ApiError;
use crate::guild::GuildSummary;

verus! {

/// How many page-fetch attempts one enumeration may spend before it gives
/// up. The budget is shared by the whole enumeration, not granted per page.
pub const RETRY_BUDGET: u32 = 3;

/// What one page request asks of the REST client: the entries strictly after
/// `after` (from the start of the collection when `after` is `None`), at most
/// `limit` of them.
pub struct PageRequest {
    pub after: Option<u64>,
    pub limit: u32,
}

/// The mathematical state of an enumeration in progress: the entries gathered
/// so far, the continuation cursor, the attempts still allowed, and the page
/// size every request asks for.
#[verifier::ext_equal]
pub ghost struct EnumModel {
    pub acc: Seq<GuildSummary>,
    pub cursor: Option<u64>,
    pub retries_left: nat,
    pub limit: nat,
}

impl EnumModel {
    /// A fresh enumeration: nothing gathered, cursor at the start of the
    /// collection, full budget.
    pub open spec fn init(limit: nat) -> EnumModel {
        EnumModel {
            acc: Seq::empty(),
            cursor: None,
            retries_left: RETRY_BUDGET as nat,
            limit,
        }
    }

    /// The same state with the budget replaced.
    pub open spec fn with_retries(self, retries_left: nat) -> EnumModel {
        EnumModel { retries_left, ..self }
    }

    /// A state the machine can actually be in: some budget remains and the
    /// page size is a positive `u32`.
    pub open spec fn wf(self) -> bool {
        &&& 1 <= self.retries_left <= RETRY_BUDGET
        &&& 1 <= self.limit <= u32::MAX
    }
}

/// What one observed page outcome makes of an enumeration.
#[verifier::ext_equal]
pub ghost enum StepModel {
    /// The page was full, so more entries may exist: fetch again with the
    /// advanced cursor.
    More(EnumModel),
    /// The fetch failed but budget remains: repeat the same request after a
    /// delay.
    Retry(EnumModel),
    /// A short page ended the enumeration: the complete collection.
    Done(Seq<GuildSummary>),
    /// The budget is exhausted: the enumeration fails with the last error,
    /// and everything gathered is discarded.
    Failed(ApiError),
}

/// The transition of the enumeration state machine on one page outcome.
///
/// A successful page is appended to the accumulator; a full page advances the
/// cursor to the last entry gathered and asks for more, a short one ends the
/// enumeration. A failure repeats the same request while more than one
/// attempt remains, and otherwise aborts with that error.
pub open spec fn enum_step(
    m: EnumModel,
    outcome: Result<Seq<GuildSummary>, ApiError>,
) -> StepModel {
    match outcome {
        Result::Ok(page) => {
            let acc = m.acc + page;
            if page.len() < m.limit {
                StepModel::Done(acc)
            } else {
                StepModel::More(
                    EnumModel {
                        acc,
                        cursor: Some(acc.last().id),
                        retries_left: m.retries_left,
                        limit: m.limit,
                    },
                )
            }
        },
        Result::Err(e) => {
            if m.retries_left <= 1 {
                StepModel::Failed(e)
            } else {
                StepModel::Retry(m.with_retries((m.retries_left - 1) as nat))
            }
        },
    }
}

/// The view of a page outcome as the model sees it.
pub open spec fn outcome_model(
    outcome: Result<Vec<GuildSummary>, ApiError>,
) -> Result<Seq<GuildSummary>, ApiError> {
    match outcome {
        Result::Ok(page) => Result::Ok(page@),
        Result::Err(e) => Result::Err(e),
    }
}

/// An enumeration of the guild collection in progress.
pub struct Enumeration {
    acc: Vec<GuildSummary>,
    cursor: Option<u64>,
    retries_left: u32,
    limit: u32,
}

impl View for Enumeration {
    type V = EnumModel;

    closed spec fn view(&self) -> EnumModel {
        EnumModel {
            acc: self.acc@,
            cursor: self.cursor,
            retries_left: self.retries_left as nat,
            limit: self.limit as nat,
        }
    }
}

/// What the driver must do after handing one page outcome to the enumeration.
pub enum EnumStep {
    /// Fetch the next page with the request the carried state now asks.
    More(Enumeration),
    /// Wait the retry delay, then repeat the unchanged request.
    Retry(Enumeration),
    /// The complete collection, in fetch order.
    Done(Vec<GuildSummary>),
    /// The enumeration is over; the cycle fails with this error.
    Failed(ApiError),
}

impl View for EnumStep {
    type V = StepModel;

    open spec fn view(&self) -> StepModel {
        match self {
            EnumStep::More(e) => StepModel::More(e@),
            EnumStep::Retry(e) => StepModel::Retry(e@),
            EnumStep::Done(v) => StepModel::Done(v@),
            EnumStep::Failed(e) => StepModel::Failed(*e),
        }
    }
}

impl Enumeration {
    /// Begin an enumeration of the whole collection with the given page size.
    pub fn new(limit: u32) -> (r: Enumeration)
        requires
            1 <= limit,
        ensures
            r@ == EnumModel::init(limit as nat),
    {
        Enumeration { acc: Vec::new(), cursor: None, retries_left: RETRY_BUDGET, limit }
    }

    /// The request to put to the REST client next.
    pub fn request(&self) -> (r: PageRequest)
        ensures
            r.after == self@.cursor,
            r.limit as nat == self@.limit,
    {
        PageRequest { after: self.cursor, limit: self.limit }
    }

    /// Advance the enumeration by one observed page outcome, exactly as
    /// [`enum_step`] says.
    pub fn on_page(self, outcome: Result<Vec<GuildSummary>, ApiError>) -> (r: EnumStep)
        requires
            self@.wf(),
        ensures
            r@ == enum_step(self@, outcome_model(outcome)),
            (r matches EnumStep::More(e) ==> e@.wf()) && (r matches EnumStep::Retry(e)
                ==> e@.wf()),
    {
        match outcome {
            Result::Ok(mut page) => {
                let page_len = page.len();
                let mut acc = self.acc;
                acc.append(&mut page);
                if page_len < self.limit as usize {
                    EnumStep::Done(acc)
                } else {
                    let last_idx = acc.len() - 1;
                    let last_id = acc[last_idx].id;
                    proof {
                        assert(acc@.last() == acc@[acc@.len() - 1]);
                    }
                    EnumStep::More(
                        Enumeration {
                            acc,
                            cursor: Some(last_id),
                            retries_left: self.retries_left,
                            limit: self.limit,
                        },
                    )
                }
            },
            Result::Err(e) => {
                if self.retries_left <= 1 {
                    EnumStep::Failed(e)
                } else {
                    EnumStep::Retry(
                        Enumeration {
                            acc: self.acc,
                            cursor: self.cursor,
                            retries_left: self.retries_left - 1,
                            limit: self.limit,
                        },
                    )
                }
            },
        }
    }
}

/// The outcome of an error-free enumeration from state `m` whose remaining
/// entries are `rest`, together with the number of page requests it makes:
/// each request is answered with the next `m.limit` entries of `rest`, or
/// with all that remain when fewer are left.
pub open spec fn run_without_errors(m: EnumModel, rest: Seq<GuildSummary>) -> (StepModel, nat)
    decreases rest.len(),
{
    if m.limit < 1 || rest.len() < m.limit {
        (enum_step(m, Result::Ok(rest)), 1)
    } else {
        match enum_step(m, Result::Ok(rest.take(m.limit as int))) {
            StepModel::More(m2) => {
                let tail = run_without_errors(m2, rest.skip(m.limit as int));
                (tail.0, tail.1 + 1)
            },
            other => (other, 1),
        }
    }
}

/// `n / p` rounded up.
pub open spec fn div_round_up(n: nat, p: nat) -> nat {
    if n % p == 0 {
        n / p
    } else {
        n / p + 1
    }
}

/// Termination condition: a page strictly shorter than the requested limit
/// ends the enumeration at once with everything gathered so far followed by
/// that page — even when it is the very first page and empty, in which case
/// the result is the empty sequence, not an error.
pub proof fn lemma_short_page_terminates(m: EnumModel, page: Seq<GuildSummary>)
    requires
        page.len() < m.limit,
    ensures
        enum_step(m, Result::Ok(page)) == StepModel::Done(m.acc + page),
        m == EnumModel::init(m.limit) && page.len() == 0 ==> enum_step(m, Result::Ok(page))
            == StepModel::Done(Seq::<GuildSummary>::empty()),
{
    if m == EnumModel::init(m.limit) && page.len() == 0 {
        assert(m.acc + page =~= Seq::<GuildSummary>::empty());
    }
}

/// Retry budget: from a state holding the full budget, three consecutive
/// fetch failures leave the third error as the enumeration's outcome, with no
/// fourth attempt; two failures followed by a success leave exactly the
/// outcome that the successful page alone determines, the budget aside.
pub proof fn lemma_retry_budget(
    m: EnumModel,
    e1: ApiError,
    e2: ApiError,
    e3: ApiError,
    page: Seq<GuildSummary>,
)
    requires
        m.wf(),
        m.retries_left == RETRY_BUDGET,
    ensures
        enum_step(m, Result::Err(e1)) == StepModel::Retry(m.with_retries(2)),
        enum_step(m.with_retries(2), Result::Err(e2)) == StepModel::Retry(m.with_retries(1)),
        enum_step(m.with_retries(1), Result::Err(e3)) == StepModel::Failed(e3),
        page.len() < m.limit ==> enum_step(m.with_retries(1), Result::Ok(page)) == enum_step(
            m,
            Result::Ok(page),
        ),
        page.len() >= m.limit ==> enum_step(m.with_retries(1), Result::Ok(page)) == StepModel::More(
            EnumModel {
                acc: m.acc + page,
                cursor: Some((m.acc + page).last().id),
                retries_left: 1,
                limit: m.limit,
            },
        ),
{
}

/// The induction behind pagination completeness: an error-free run from a
/// well-formed state gathers exactly the remaining entries, in order, behind
/// what it already holds. It spends `ceil(rest.len() / limit)` requests,
/// except when the page size divides the remainder exactly: the last page is
/// then full, and one further request — answered with an empty page — is
/// needed to show the collection finished.
proof fn lemma_run_without_errors(m: EnumModel, rest: Seq<GuildSummary>)
    requires
        m.wf(),
    ensures
        run_without_errors(m, rest).0 == StepModel::Done(m.acc + rest),
        rest.len() % m.limit != 0 ==> run_without_errors(m, rest).1 == div_round_up(
            rest.len(),
            m.limit,
        ),
        rest.len() % m.limit == 0 ==> run_without_errors(m, rest).1 == rest.len() / m.limit + 1,
    decreases rest.len(),
{
    let p = m.limit;
    if rest.len() < p {
        lemma_small_mod(rest.len(), p);
        lemma_basic_div(rest.len() as int, p as int);
    } else {
        let page = rest.take(p as int);
        let tail = rest.skip(p as int);
        assert(page.len() == p);
        let stepped = enum_step(m, Result::Ok(page));
        let m2 = EnumModel {
            acc: m.acc + page,
            cursor: Some((m.acc + page).last().id),
            retries_left: m.retries_left,
            limit: m.limit,
        };
        assert(stepped == StepModel::More(m2));
        lemma_mod_sub_multiples_vanish(rest.len() as int, p as int);
        assert(tail.len() % p == rest.len() % p);
        lemma_run_without_errors(m2, tail);
        assert(m.acc + page + tail =~= m.acc + rest);
        lemma_hoist_over_denominator(tail.len() as int, 1, p);
        assert(tail.len() as int / p as int + 1 == (tail.len() + p) as int / p as int);
    }
}

/// Pagination completeness: over a backing collection of `coll.len()` entries
/// and page size `limit` that does not divide it exactly, an error-free
/// enumeration started fresh ends with exactly those entries in their stable
/// order, using `ceil(coll.len() / limit)` successful page requests.
pub proof fn lemma_pagination_complete(coll: Seq<GuildSummary>, limit: nat)
    requires
        1 <= limit <= u32::MAX,
        coll.len() % limit != 0,
    ensures
        run_without_errors(EnumModel::init(limit), coll).0 == StepModel::Done(coll),
        run_without_errors(EnumModel::init(limit), coll).1 == div_round_up(coll.len(), limit),
{
    lemma_run_without_errors(EnumModel::init(limit), coll);
    assert(Seq::<GuildSummary>::empty() + coll =~= coll);
}

/// The boundary of the request count: when the page size divides the
/// collection exactly — the empty collection included — every entry is still
/// returned in stable order, but every page comes back full, so one request
/// beyond `coll.len() / limit` is spent on the empty page that shows the
/// collection finished.
pub proof fn lemma_pagination_complete_exact_multiple(coll: Seq<GuildSummary>, limit: nat)
    requires
        1 <= limit <= u32::MAX,
        coll.len() % limit == 0,
    ensures
        run_without_errors(EnumModel::init(limit), coll).0 == StepModel::Done(coll),
        run_without_errors(EnumModel::init(limit), coll).1 == coll.len() / limit + 1,
{
    lemma_run_without_errors(EnumModel::init(limit), coll);
    assert(Seq::<GuildSummary>::empty() + coll =~= coll);
}

} // verus!
