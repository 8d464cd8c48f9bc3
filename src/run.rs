use vstd::prelude::*;
use crate::document::{count_at, extract_data, extract_total_count, lookup, Document};
use crate::pagination::{
    pages_for, params_view, request_fits, request_params, total_pages, PaginationConfig,
    QueryParam,
};

verus! {

/// What the probe response told about the whole run.
#[derive(Clone, Copy, Debug, PartialEq, Eq, Structural)]
pub struct Plan {
    pub total_count: i64,
    pub total_pages: u64,
}

/// Why a run stopped before fetching any page: it cannot go on without a total.
#[derive(Clone, Copy, Debug, PartialEq, Eq, Structural)]
pub enum ProbeError {
    /// The probe request failed, or its body was not JSON.
    FetchFailed,
    /// The probe response holds no integer under the total-count field.
    CountNotFound,
}

/// Why one page was skipped. The run goes on with the next page.
#[derive(Clone, Copy, Debug, PartialEq, Eq, Structural)]
pub enum PageError {
    /// The request failed, or its body was not JSON.
    FetchFailed,
    /// The response holds nothing under the data field.
    DataNotFound,
    /// The page's data could not be stored.
    WriteFailed,
}

/// Where a run stands. Pages are numbered from 1 and visited in ascending
/// order, each exactly once.
#[derive(Clone, Copy, Debug, PartialEq, Eq, Structural)]
pub enum RunState {
    /// The probe request for page 1 is under way.
    Probing,
    /// The request for `page` is under way.
    Fetching { plan: Plan, page: u64 },
    /// The data of `page` is being stored.
    Writing { plan: Plan, page: u64 },
    /// Every page has been attempted.
    Completed { plan: Plan },
    /// The probe failed; no page was attempted.
    Aborted { error: ProbeError },
}

/// What the caller reports back after performing an action.
#[derive(Debug)]
pub enum Event {
    /// The request succeeded and its body decoded to this document.
    Fetched(Document),
    /// The request failed, or its body did not decode.
    FetchFailed,
    /// The page's data was stored.
    Written,
    /// The page's data could not be stored.
    WriteFailed,
}

/// What the caller is to do next.
#[derive(Debug)]
pub enum Action {
    /// Wait `wait_millis` milliseconds, then request the page with `params`.
    Fetch { page: u64, wait_millis: u64, params: Vec<QueryParam> },
    /// Store `data` as the output of `page`.
    Write { page: u64, data: serde_json::Value },
    /// Report that the run is complete.
    Finish { plan: Plan },
    /// Report that the run failed.
    Abort { error: ProbeError },
}

/// Progress worth reporting to an observer.
#[derive(Clone, Copy, Debug, PartialEq, Eq, Structural)]
pub enum Notice {
    /// The probe gave the total count and the number of pages.
    Planned(Plan),
    /// A page was skipped.
    PageSkipped { page: u64, error: PageError },
    /// A page's data was stored.
    PageSaved { page: u64 },
}

/// One transition: the new state, what to report, and what to do.
#[derive(Debug)]
pub struct Step {
    pub state: RunState,
    pub notice: Option<Notice>,
    pub action: Action,
}

/// The plan for `total_count` items in pages of `page_size`.
pub open spec fn plan_of(total_count: i64, page_size: u64) -> Plan {
    Plan { total_count, total_pages: pages_for(total_count as int, page_size as int) as u64 }
}

/// The state after `page` has been dealt with, in whichever way.
pub open spec fn advance(plan: Plan, page: u64) -> RunState {
    if page < plan.total_pages {
        RunState::Fetching { plan, page: (page + 1) as u64 }
    } else {
        RunState::Completed { plan }
    }
}

/// Whether `e` is an outcome of the action that led to state `s`.
pub open spec fn accepts(s: RunState, e: Event) -> bool {
    match s {
        RunState::Probing | RunState::Fetching { .. } => e is Fetched || e is FetchFailed,
        RunState::Writing { .. } => e is Written || e is WriteFailed,
        _ => false,
    }
}

/// Whether `s` is a final state.
pub open spec fn is_final(s: RunState) -> bool {
    s is Completed || s is Aborted
}

/// Whether the index of a page fits in `u64` range.
proof fn lemma_page_offset_fits(total_count: int, page_size: int, page: int)
    requires
        total_count <= i64::MAX,
        page_size > 0,
        1 <= page <= pages_for(total_count, page_size),
    ensures
        (page - 1) * page_size < total_count,
        request_fits(page, page_size),
{
    let q = (total_count - 1) / page_size;
    vstd::arithmetic::div_mod::lemma_fundamental_div_mod(total_count - 1, page_size);
    vstd::arithmetic::mul::lemma_mul_inequality(page - 1, q, page_size);
    assert(q * page_size <= total_count - 1) by (nonlinear_arith)
        requires
            total_count - 1 == page_size * q + (total_count - 1) % page_size,
            (total_count - 1) % page_size >= 0,
    ;
}

/// Every page count stays within the total count.
proof fn lemma_pages_within_count(total_count: int, page_size: int)
    requires
        page_size > 0,
    ensures
        pages_for(total_count, page_size) <= if total_count > 0 {
            total_count
        } else {
            0
        },
        pages_for(total_count, page_size) >= 0,
{
    if total_count > 0 {
        vstd::arithmetic::div_mod::lemma_div_is_ordered_by_denominator(total_count - 1, 1, page_size);
        vstd::arithmetic::div_mod::lemma_div_pos_is_pos(total_count - 1, page_size);
    }
}

/// Drives a paginated download: one state machine over the probe, the pages
/// and their storage.
///
/// The probe asks for page 1 only to learn the total count; page 1 is then
/// requested again like every other page, after the same pause. A page whose
/// request, data lookup or storage fails is reported and skipped; only a failed
/// probe stops the run. Nothing is retried. The cursor of cursor pagination is
/// the page index, not a value handed out by the server.
#[derive(Debug)]
pub struct Paginator {
    pub config: PaginationConfig,
    /// Pause before each page request, in milliseconds.
    pub rate_limit_millis: u64,
}

impl Paginator {
    pub open spec fn wf(&self) -> bool {
        self.config.wf()
    }

    /// A state that can arise in a run of this paginator.
    pub open spec fn state_wf(&self, s: RunState) -> bool {
        match s {
            RunState::Fetching { plan, page } | RunState::Writing { plan, page } => {
                &&& plan == plan_of(plan.total_count, self.config.page_size)
                &&& 1 <= page <= plan.total_pages
            },
            RunState::Completed { plan } => plan == plan_of(plan.total_count, self.config.page_size),
            _ => true,
        }
    }

    /// The state that follows `s` on event `e`.
    pub open spec fn next_state(&self, s: RunState, e: Event) -> RunState {
        match s {
            RunState::Probing => match e {
                Event::Fetched(doc) => match count_at(doc.members@, self.config.total_count_path@) {
                    Some(n) => advance(plan_of(n, self.config.page_size), 0),
                    None => RunState::Aborted { error: ProbeError::CountNotFound },
                },
                _ => RunState::Aborted { error: ProbeError::FetchFailed },
            },
            RunState::Fetching { plan, page } => match e {
                Event::Fetched(doc) => if lookup(doc.members@, self.config.data_path@) is Some {
                    RunState::Writing { plan, page }
                } else {
                    advance(plan, page)
                },
                _ => advance(plan, page),
            },
            RunState::Writing { plan, page } => advance(plan, page),
            _ => s,
        }
    }

    /// What is reported on the way from `s` on event `e`.
    pub open spec fn notice_for(&self, s: RunState, e: Event) -> Option<Notice> {
        match s {
            RunState::Probing => match e {
                Event::Fetched(doc) => match count_at(doc.members@, self.config.total_count_path@) {
                    Some(n) => Some(Notice::Planned(plan_of(n, self.config.page_size))),
                    None => None,
                },
                _ => None,
            },
            RunState::Fetching { page, .. } => match e {
                Event::Fetched(doc) => if lookup(doc.members@, self.config.data_path@) is Some {
                    None
                } else {
                    Some(Notice::PageSkipped { page, error: PageError::DataNotFound })
                },
                _ => Some(Notice::PageSkipped { page, error: PageError::FetchFailed }),
            },
            RunState::Writing { page, .. } => match e {
                Event::Written => Some(Notice::PageSaved { page }),
                _ => Some(Notice::PageSkipped { page, error: PageError::WriteFailed }),
            },
            _ => None,
        }
    }

    /// The request for `page`, after the pause that `wait_millis` asks for.
    pub open spec fn fetches(&self, a: Action, page: u64, wait_millis: u64) -> bool {
        &&& a is Fetch
        &&& a->Fetch_page == page
        &&& a->Fetch_wait_millis == wait_millis
        &&& params_view(a->Fetch_params@) == request_params(
            self.config.pagination_type,
            page as int,
            self.config.page_size as int,
        )
    }

    /// The action that goes with entering state `s` on event `e`.
    pub open spec fn action_for(&self, s: RunState, e: Event, a: Action) -> bool {
        match s {
            RunState::Probing => self.fetches(a, 1, 0),
            RunState::Fetching { page, .. } => self.fetches(a, page, self.rate_limit_millis),
            RunState::Writing { page, .. } => match e {
                Event::Fetched(doc) => match lookup(doc.members@, self.config.data_path@) {
                    Some(m) => a == (Action::Write { page, data: m.value }),
                    None => false,
                },
                _ => false,
            },
            RunState::Completed { plan } => a == (Action::Finish { plan }),
            RunState::Aborted { error } => a == (Action::Abort { error }),
        }
    }

    /// The request for `page`, after `wait_millis`.
    fn fetch_action(&self, page: u64, wait_millis: u64) -> (r: Action)
        requires
            self.wf(),
            page >= 1,
            request_fits(page as int, self.config.page_size as int),
        ensures
            self.fetches(r, page, wait_millis),
    {
        let params = self.config.build_request(page);
        Action::Fetch { page, wait_millis, params }
    }

    /// The state and action after `page` has been dealt with.
    fn advance_step(&self, plan: Plan, page: u64, notice: Option<Notice>) -> (r: Step)
        requires
            self.wf(),
            plan == plan_of(plan.total_count, self.config.page_size),
            page <= plan.total_pages,
        ensures
            r.state == advance(plan, page),
            self.state_wf(r.state),
            r.notice == notice,
            self.action_for(r.state, Event::Written, r.action),
    {
        if page < plan.total_pages {
            proof {
                lemma_page_offset_fits(
                    plan.total_count as int,
                    self.config.page_size as int,
                    page + 1,
                );
            }
            let next = page + 1;
            let action = self.fetch_action(next, self.rate_limit_millis);
            Step { state: RunState::Fetching { plan, page: next }, notice, action }
        } else {
            Step { state: RunState::Completed { plan }, notice, action: Action::Finish { plan } }
        }
    }

    /// The first step of a run: probe page 1 at once.
    pub fn start(&self) -> (r: Step)
        requires
            self.wf(),
        ensures
            r.state == RunState::Probing,
            r.notice is None,
            self.fetches(r.action, 1, 0),
    {
        proof {
            assert(request_fits(1, self.config.page_size as int));
        }
        let action = self.fetch_action(1, 0);
        Step { state: RunState::Probing, notice: None, action }
    }

    /// Whether `e` is an outcome of the action that led to `s`.
    pub fn accepts(s: &RunState, e: &Event) -> (r: bool)
        ensures
            r == accepts(*s, *e),
    {
        match s {
            RunState::Probing | RunState::Fetching { .. } => match e {
                Event::Fetched(_) | Event::FetchFailed => true,
                _ => false,
            },
            RunState::Writing { .. } => match e {
                Event::Written | Event::WriteFailed => true,
                _ => false,
            },
            _ => false,
        }
    }

    /// The transition from `s` on event `e`.
    pub fn step(&self, s: RunState, e: Event) -> (r: Step)
        requires
            self.wf(),
            self.state_wf(s),
            accepts(s, e),
        ensures
            r.state == self.next_state(s, e),
            self.state_wf(r.state),
            r.notice == self.notice_for(s, e),
            self.action_for(r.state, e, r.action),
    {
        match s {
            RunState::Probing => match e {
                Event::Fetched(doc) => match extract_total_count(&doc, &self.config.total_count_path) {
                    Ok(n) => {
                        let pages = total_pages(n, self.config.page_size);
                        proof {
                            lemma_pages_within_count(n as int, self.config.page_size as int);
                        }
                        let plan = Plan { total_count: n, total_pages: pages };
                        self.advance_step(plan, 0, Some(Notice::Planned(plan)))
                    },
                    Err(_) => {
                        let error = ProbeError::CountNotFound;
                        Step { state: RunState::Aborted { error }, notice: None, action: Action::Abort { error } }
                    },
                },
                _ => {
                    let error = ProbeError::FetchFailed;
                    Step { state: RunState::Aborted { error }, notice: None, action: Action::Abort { error } }
                },
            },
            RunState::Fetching { plan, page } => match e {
                Event::Fetched(doc) => match extract_data(doc, &self.config.data_path) {
                    Ok(data) => Step {
                        state: RunState::Writing { plan, page },
                        notice: None,
                        action: Action::Write { page, data },
                    },
                    Err(_) => self.advance_step(
                        plan,
                        page,
                        Some(Notice::PageSkipped { page, error: PageError::DataNotFound }),
                    ),
                },
                _ => self.advance_step(
                    plan,
                    page,
                    Some(Notice::PageSkipped { page, error: PageError::FetchFailed }),
                ),
            },
            RunState::Writing { plan, page } => {
                let notice = match e {
                    Event::Written => Notice::PageSaved { page },
                    _ => Notice::PageSkipped { page, error: PageError::WriteFailed },
                };
                self.advance_step(plan, page, Some(notice))
            },
            _ => {
                proof {
                    assert(false);
                }
                Step { state: s, notice: None, action: Action::Finish { plan: Plan { total_count: 0, total_pages: 0 } } }
            },
        }
    }
}

} // verus!
