use vstd::prelude::*;
use crate::document::{count_at, lookup};
use crate::pagination::{pages_for, params_view, request_params, PaginationType, QueryParam};
use crate::run::{accepts, advance, is_final, Action, Event, Notice, PageError, Paginator, Plan, RunState};

verus! {

/// The page count is the ceiling of the item count over the page size: the
/// pages hold every item, one page fewer would not, and there are no pages
/// exactly when there are no items.
pub proof fn lemma_total_pages_is_ceiling(total_count: int, page_size: int)
    requires
        total_count >= 0,
        page_size > 0,
    ensures
        pages_for(total_count, page_size) * page_size >= total_count,
        total_count > 0 ==> (pages_for(total_count, page_size) - 1) * page_size < total_count,
        pages_for(total_count, page_size) == 0 <==> total_count == 0,
{
    if total_count > 0 {
        let q = (total_count - 1) / page_size;
        let m = (total_count - 1) % page_size;
        vstd::arithmetic::div_mod::lemma_fundamental_div_mod(total_count - 1, page_size);
        vstd::arithmetic::div_mod::lemma_mod_bound(total_count - 1, page_size);
        vstd::arithmetic::div_mod::lemma_div_pos_is_pos(total_count - 1, page_size);
        assert((q + 1) * page_size >= total_count && q * page_size < total_count) by (nonlinear_arith)
            requires
                total_count - 1 == page_size * q + m,
                0 <= m < page_size,
        ;
    }
}

/// The parameters of a page request are never negative.
pub proof fn lemma_request_params_nonnegative(t: PaginationType, page_index: int, page_size: int)
    requires
        page_index >= 1,
        page_size >= 0,
    ensures
        forall|k: int|
            0 <= k < request_params(t, page_index, page_size).len() ==> #[trigger] request_params(
                t,
                page_index,
                page_size,
            )[k].1 >= 0,
{
    assert((page_index - 1) * page_size >= 0) by (nonlinear_arith)
        requires
            page_index >= 1,
            page_size >= 0,
    ;
}

/// Two requests built for the same variant, page and page size are the same
/// parameter list.
pub proof fn lemma_request_deterministic(
    t: PaginationType,
    page_index: int,
    page_size: int,
    a: Seq<QueryParam>,
    b: Seq<QueryParam>,
)
    requires
        params_view(a) == request_params(t, page_index, page_size),
        params_view(b) == request_params(t, page_index, page_size),
    ensures
        a == b,
{
    assert(a.len() == params_view(a).len());
    assert(b.len() == params_view(b).len());
    assert forall|k: int| 0 <= k < a.len() implies a[k] == b[k] by {
        assert(params_view(a)[k] == params_view(b)[k]);
    }
    assert(a =~= b);
}

/// Whatever happens to a page, the run goes on to the next page, or completes
/// once the last page has been dealt with: a failed fetch or a response
/// without data skips the page, and a stored or unstorable page moves on.
pub proof fn lemma_page_failure_does_not_stop_run(p: Paginator, s: RunState, e: Event)
    requires
        p.wf(),
        p.state_wf(s),
        s is Fetching || s is Writing,
        accepts(s, e),
    ensures
        ({
            let (plan, page) = match s {
                RunState::Fetching { plan, page } => (plan, page),
                RunState::Writing { plan, page } => (plan, page),
                _ => (Plan { total_count: 0, total_pages: 0 }, 0),
            };
            &&& p.next_state(s, e) == advance(plan, page) || p.next_state(s, e) == (
            RunState::Writing { plan, page })
            &&& page < plan.total_pages ==> advance(plan, page) == (RunState::Fetching {
                plan,
                page: (page + 1) as u64,
            })
            &&& page == plan.total_pages ==> advance(plan, page) == (RunState::Completed { plan })
            &&& s is Fetching && e is FetchFailed ==> p.next_state(s, e) == advance(plan, page)
                && p.notice_for(s, e) == Some(
                Notice::PageSkipped { page, error: PageError::FetchFailed },
            )
            &&& s is Fetching && (e matches Event::Fetched(doc) && lookup(
                doc.members@,
                p.config.data_path@,
            ) is None) ==> p.next_state(s, e) == advance(plan, page) && p.notice_for(s, e) == Some(
                Notice::PageSkipped { page, error: PageError::DataNotFound },
            )
            &&& s is Writing ==> p.next_state(s, e) == advance(plan, page)
        }),
{
}

/// The state reached from `s` through the events `es`, one after another.
pub open spec fn run_from(p: Paginator, s: RunState, es: Seq<Event>) -> RunState
    decreases es.len(),
{
    if es.len() == 0 {
        s
    } else {
        run_from(p, p.next_state(s, es[0]), es.drop_first())
    }
}

/// Each event of `es` is an outcome of the action that led to the state before it.
pub open spec fn run_accepted(p: Paginator, s: RunState, es: Seq<Event>) -> bool
    decreases es.len(),
{
    es.len() == 0 || (accepts(s, es[0]) && run_accepted(p, p.next_state(s, es[0]), es.drop_first()))
}

proof fn lemma_run_from_prefix(p: Paginator, s: RunState, es: Seq<Event>, i: int)
    requires
        0 <= i < es.len(),
    ensures
        run_from(p, s, es.take(i + 1)) == run_from(p, p.next_state(s, es[0]), es.drop_first().take(i)),
{
    assert(es.take(i + 1)[0] == es[0]);
    assert(es.take(i + 1).drop_first() =~= es.drop_first().take(i));
}

/// Once page `page` is being fetched or stored, every later page is requested
/// before the run ends, whatever the outcome of each request or write: a
/// failed page never keeps a later one from being attempted.
pub proof fn lemma_later_pages_are_requested(p: Paginator, s: RunState, es: Seq<Event>, m: u64)
    requires
        p.wf(),
        p.state_wf(s),
        s is Fetching || s is Writing,
        run_accepted(p, s, es),
        is_final(run_from(p, s, es)),
        ({
            let (plan, page) = match s {
                RunState::Fetching { plan, page } => (plan, page),
                RunState::Writing { plan, page } => (plan, page),
                _ => (Plan { total_count: 0, total_pages: 0 }, 0),
            };
            page < m <= plan.total_pages
        }),
    ensures
        ({
            let plan = match s {
                RunState::Fetching { plan, .. } => plan,
                RunState::Writing { plan, .. } => plan,
                _ => Plan { total_count: 0, total_pages: 0 },
            };
            exists|i: int|
                0 <= i <= es.len() && #[trigger] run_from(p, s, es.take(i)) == (RunState::Fetching {
                    plan,
                    page: m,
                })
        }),
    decreases es.len(),
{
    let (plan, page) = match s {
        RunState::Fetching { plan, page } => (plan, page),
        RunState::Writing { plan, page } => (plan, page),
        _ => (Plan { total_count: 0, total_pages: 0 }, 0),
    };
    if es.len() == 0 {
        assert(run_from(p, s, es) == s);
    } else {
        let s1 = p.next_state(s, es[0]);
        let rest = es.drop_first();
        assert(run_from(p, s, es) == run_from(p, s1, rest));
        assert(s1 == advance(plan, page) || s1 == (RunState::Writing { plan, page }));
        if s1 == (RunState::Fetching { plan, page: m }) {
            lemma_run_from_prefix(p, s, es, 0);
            assert(rest.take(0) =~= Seq::<Event>::empty());
            assert(run_from(p, s, es.take(1)) == s1);
        } else {
            assert(p.state_wf(s1));
            assert(s1 is Fetching || s1 is Writing);
            lemma_later_pages_are_requested(p, s1, rest, m);
            let i = choose|i: int|
                0 <= i <= rest.len() && #[trigger] run_from(p, s1, rest.take(i)) == (
                RunState::Fetching { plan, page: m });
            lemma_run_from_prefix(p, s, es, i);
            assert(run_from(p, s, es.take(i + 1)) == (RunState::Fetching { plan, page: m }));
        }
    }
}

/// A failed probe ends the run at once: the state is final, accepts no
/// further outcome, and the only action is to report the failure.
pub proof fn lemma_probe_failure_stops_run(p: Paginator, e: Event)
    requires
        p.wf(),
        accepts(RunState::Probing, e),
        e matches Event::Fetched(doc) ==> count_at(doc.members@, p.config.total_count_path@) is None,
    ensures
        p.next_state(RunState::Probing, e) is Aborted,
        is_final(p.next_state(RunState::Probing, e)),
        forall|e2: Event| !accepts(p.next_state(RunState::Probing, e), e2),
        p.notice_for(RunState::Probing, e) is None,
        forall|a: Action|
            p.action_for(p.next_state(RunState::Probing, e), e, a) ==> a is Abort,
{
}

/// A probe that reports no items completes the run at once, with no page
/// requested and nothing stored.
pub proof fn lemma_empty_count_completes_at_once(p: Paginator, e: Event)
    requires
        p.wf(),
        e matches Event::Fetched(doc) && count_at(doc.members@, p.config.total_count_path@)
            == Some(0i64),
    ensures
        p.next_state(RunState::Probing, e) == (RunState::Completed {
            plan: Plan { total_count: 0, total_pages: 0 },
        }),
        forall|e2: Event| !accepts(p.next_state(RunState::Probing, e), e2),
        forall|a: Action|
            p.action_for(p.next_state(RunState::Probing, e), e, a) ==> a == (Action::Finish {
                plan: Plan { total_count: 0, total_pages: 0 },
            }),
{
}

/// Given the same response for a page, a run stores the same data under the
/// same page index, whatever else differs between the runs.
pub proof fn lemma_same_response_same_output(
    p: Paginator,
    plan1: Plan,
    plan2: Plan,
    page: u64,
    e: Event,
    a1: Action,
    a2: Action,
)
    requires
        p.action_for(RunState::Writing { plan: plan1, page }, e, a1),
        p.action_for(RunState::Writing { plan: plan2, page }, e, a2),
    ensures
        a1 == a2,
        a1 matches Action::Write { page: q, .. } && q == page,
{
}

} // verus!
