use page_scraper::document::{extract_data, extract_total_count, Document, ExtractError, Member};
use page_scraper::pagination::{PaginationConfig, PaginationType, ParamKey, QueryParam};
use page_scraper::run::{Action, Event, Notice, PageError, Paginator, Plan, ProbeError, RunState};
use serde_json::Value;

fn member(key: &str, value: Value) -> Member {
    Member { key: key.to_string(), integer: value.as_i64(), value }
}

fn items(tag: i64) -> Value {
    Value::Array(vec![Value::from(tag), Value::from(tag + 1)])
}

fn response(total: i64, data: Option<Value>) -> Document {
    let mut members = vec![member("totalCount", Value::from(total))];
    if let Some(d) = data {
        members.push(member("data", d));
    }
    Document { members }
}

fn paginator(t: PaginationType, page_size: u64) -> Paginator {
    let config = PaginationConfig::new(t, page_size, "data".to_string(), "totalCount".to_string()).unwrap();
    Paginator { config, rate_limit_millis: 100 }
}

/// What a run did: the fetched pages, the stored pages, the notices and how it ended.
struct Trace {
    fetched: Vec<u64>,
    written: Vec<(u64, Value)>,
    notices: Vec<Notice>,
    end: Action,
}

/// Runs the machine; `respond` gives the outcome of each fetch by page and attempt.
fn drive(p: &Paginator, mut respond: impl FnMut(u64) -> Event) -> Trace {
    let mut step = p.start();
    let mut trace = Trace { fetched: vec![], written: vec![], notices: vec![], end: Action::Finish { plan: Plan { total_count: 0, total_pages: 0 } } };
    loop {
        if let Some(n) = step.notice {
            trace.notices.push(n);
        }
        let event = match step.action {
            Action::Fetch { page, .. } => {
                trace.fetched.push(page);
                respond(page)
            }
            Action::Write { page, data } => {
                trace.written.push((page, data));
                Event::Written
            }
            end => {
                trace.end = end;
                return trace;
            }
        };
        assert!(Paginator::accepts(&step.state, &event));
        step = p.step(step.state, event);
    }
}

#[test]
fn two_full_pages() {
    let p = paginator(PaginationType::Page, 250);
    let t = drive(&p, |page| Event::Fetched(response(500, Some(items(page as i64 * 10)))));
    assert_eq!(t.fetched, vec![1, 1, 2]);
    assert_eq!(t.written, vec![(1, items(10)), (2, items(20))]);
    let plan = Plan { total_count: 500, total_pages: 2 };
    assert_eq!(t.notices[0], Notice::Planned(plan));
    assert!(matches!(t.end, Action::Finish { plan: q } if q == plan));
}

#[test]
fn empty_total_fetches_no_page() {
    let p = paginator(PaginationType::Page, 250);
    let t = drive(&p, |_| Event::Fetched(response(0, Some(Value::Array(vec![])))));
    assert_eq!(t.fetched, vec![1]);
    assert!(t.written.is_empty());
    let plan = Plan { total_count: 0, total_pages: 0 };
    assert_eq!(t.notices, vec![Notice::Planned(plan)]);
    assert!(matches!(t.end, Action::Finish { plan: q } if q == plan));
}

#[test]
fn missing_data_on_middle_page_is_skipped() {
    let p = paginator(PaginationType::Offset, 100);
    let t = drive(&p, |page| {
        if page == 2 {
            Event::Fetched(response(300, None))
        } else {
            Event::Fetched(response(300, Some(items(page as i64))))
        }
    });
    assert_eq!(t.written, vec![(1, items(1)), (3, items(3))]);
    assert!(t.notices.contains(&Notice::PageSkipped { page: 2, error: PageError::DataNotFound }));
    assert!(matches!(t.end, Action::Finish { .. }));
}

#[test]
fn failed_fetch_does_not_stop_later_pages() {
    let p = paginator(PaginationType::Cursor, 10);
    let mut first = true;
    let t = drive(&p, |page| {
        if page == 1 && first {
            first = false;
            Event::Fetched(response(40, None))
        } else if page == 2 {
            Event::FetchFailed
        } else {
            Event::Fetched(response(40, Some(items(page as i64))))
        }
    });
    assert_eq!(t.fetched, vec![1, 1, 2, 3, 4]);
    assert_eq!(t.written, vec![(1, items(1)), (3, items(3)), (4, items(4))]);
    assert!(t.notices.contains(&Notice::PageSkipped { page: 2, error: PageError::FetchFailed }));
}

#[test]
fn write_failure_moves_on() {
    let p = paginator(PaginationType::Page, 5);
    let s = RunState::Writing { plan: Plan { total_count: 10, total_pages: 2 }, page: 1 };
    let step = p.step(s, Event::WriteFailed);
    assert_eq!(step.notice, Some(Notice::PageSkipped { page: 1, error: PageError::WriteFailed }));
    assert_eq!(step.state, RunState::Fetching { plan: Plan { total_count: 10, total_pages: 2 }, page: 2 });
}

#[test]
fn page_fetch_waits_and_carries_params() {
    let p = paginator(PaginationType::Offset, 100);
    let start = p.start();
    match start.action {
        Action::Fetch { page, wait_millis, params } => {
            assert_eq!((page, wait_millis), (1, 0));
            assert_eq!(params, vec![QueryParam { key: ParamKey::Offset, value: 0 }, QueryParam { key: ParamKey::Limit, value: 100 }]);
        }
        _ => panic!("the first action is the probe"),
    }
    let step = p.step(start.state, Event::Fetched(response(1000, None)));
    match step.action {
        Action::Fetch { page, wait_millis, params } => {
            assert_eq!((page, wait_millis), (1, 100));
            assert_eq!(params[0], QueryParam { key: ParamKey::Offset, value: 0 });
        }
        _ => panic!("page 1 is fetched next"),
    }
    let step = p.step(step.state, Event::FetchFailed);
    match step.action {
        Action::Fetch { page, params, .. } => {
            assert_eq!(page, 2);
            assert_eq!(params[0], QueryParam { key: ParamKey::Offset, value: 100 });
        }
        _ => panic!("page 2 is fetched next"),
    }
}

#[test]
fn probe_without_count_aborts() {
    let p = paginator(PaginationType::Page, 250);
    let t = drive(&p, |_| Event::Fetched(Document { members: vec![member("data", items(0))] }));
    assert_eq!(t.fetched, vec![1]);
    assert!(t.written.is_empty());
    assert!(t.notices.is_empty());
    assert!(matches!(t.end, Action::Abort { error: ProbeError::CountNotFound }));
}

#[test]
fn probe_fetch_failure_aborts() {
    let p = paginator(PaginationType::Page, 250);
    let t = drive(&p, |_| Event::FetchFailed);
    assert_eq!(t.fetched, vec![1]);
    assert!(t.written.is_empty());
    assert!(matches!(t.end, Action::Abort { error: ProbeError::FetchFailed }));
    assert!(!Paginator::accepts(&RunState::Aborted { error: ProbeError::FetchFailed }, &Event::Written));
}

#[test]
fn reruns_store_identical_data() {
    let p = paginator(PaginationType::Page, 2);
    let a = drive(&p, |page| Event::Fetched(response(3, Some(items(page as i64)))));
    let b = drive(&p, |page| Event::Fetched(response(3, Some(items(page as i64)))));
    assert_eq!(a.written, b.written);
    assert_eq!(a.fetched, b.fetched);
}

#[test]
fn count_must_be_an_integer() {
    let path = "totalCount".to_string();
    let doc = Document { members: vec![member("totalCount", Value::from("12"))] };
    assert_eq!(extract_total_count(&doc, &path), Err(ExtractError::FieldNotFound));
    let doc = Document { members: vec![member("count", Value::from(12))] };
    assert_eq!(extract_total_count(&doc, &path), Err(ExtractError::FieldNotFound));
    let doc = Document { members: vec![member("x", Value::from(1)), member("totalCount", Value::from(12))] };
    assert_eq!(extract_total_count(&doc, &path), Ok(12));
}

#[test]
fn data_is_returned_verbatim() {
    let path = "results".to_string();
    let doc = Document { members: vec![member("n", Value::from(1)), member("results", Value::from("scalar"))] };
    assert_eq!(extract_data(doc, &path), Ok(Value::from("scalar")));
    let doc = Document { members: vec![member("data", items(0))] };
    assert_eq!(extract_data(doc, &path), Err(ExtractError::FieldNotFound));
}

#[test]
fn field_names_are_flat() {
    let path = "a/b".to_string();
    let doc = Document { members: vec![member("a", Value::from(1)), member("a/b", Value::from(2))] };
    assert_eq!(extract_total_count(&doc, &path), Ok(2));
}
