use fizz_strat::schedule::{
    millis_until_next_hour, Action, Event, Phase, Scheduler, HOUR_MILLIS, RETRY_MILLIS,
};
use fizz_strat::stackapps::{Response, SearchExcerpt};
use fizz_strat::{pick_excerpt, select_excerpt, CycleError};

fn excerpt(title: &str, id: u64) -> SearchExcerpt {
    SearchExcerpt {
        title: title.to_string(),
        excerpt: "body".to_string(),
        question_id: id,
        creation_date: 1700000000,
    }
}

fn answer(ids: &[u64], backoff: u64) -> Event {
    let items = ids.iter().map(|id| excerpt("t", *id)).collect();
    Event::Answered(Ok(Response { items, backoff }))
}

fn two_sources() -> Scheduler {
    Scheduler::new(vec!["a.example".to_string(), "b.example".to_string()], "carbonation".to_string())
}

fn expect_query(a: &Action, site: &str) {
    match a {
        Action::Query { site: s, term } => {
            assert_eq!(s, site);
            assert_eq!(term, "carbonation");
        }
        _ => panic!("expected a query"),
    }
}

fn expect_sleep(a: &Action, millis: u64, failure: Option<CycleError>) {
    match a {
        Action::Sleep { millis: m, failure: f } => {
            assert_eq!(*m, millis);
            assert_eq!(*f, failure);
        }
        _ => panic!("expected a sleep"),
    }
}

#[test]
fn next_hour_boundary() {
    assert_eq!(millis_until_next_hour(0), HOUR_MILLIS);
    assert_eq!(millis_until_next_hour(3_600_000), HOUR_MILLIS);
    assert_eq!(millis_until_next_hour(3_599_999), 1);
    assert_eq!(millis_until_next_hour(1_700_000_000_000), 2_800_000);
    assert_eq!(millis_until_next_hour(-1), 1);
    assert_eq!(millis_until_next_hour(-3_600_000), HOUR_MILLIS);
    assert_eq!(millis_until_next_hour(i64::MIN), 775_808);
    assert_eq!(millis_until_next_hour(i64::MAX), 2_824_193);
}

#[test]
fn queries_sources_in_order_and_delivers() {
    let mut s = two_sources();
    let a = s.step(Event::Start);
    expect_query(&a, "a.example");
    let a = s.step(answer(&[1, 2], 0));
    expect_query(&a, "b.example");
    assert_eq!(s.collected.len(), 2);
    let a = s.step(answer(&[3, 4, 5], 0));
    assert_eq!(s.phase, Phase::Delivering);
    match a {
        Action::Deliver(m) => {
            assert_eq!(m.embeds.len(), 1);
            let e = &m.embeds[0];
            let id: u64 = e.url.rsplit('/').next().unwrap().parse().unwrap();
            let site = if id <= 2 { "a.example" } else { "b.example" };
            assert_eq!(e.author.name, site);
            assert_eq!(e.url, format!("https://{}/questions/{}", site, id));
        }
        _ => panic!("expected a delivery"),
    }
}

#[test]
fn failed_query_discards_earlier_items() {
    let mut s = two_sources();
    s.step(Event::Start);
    s.step(answer(&[1, 2], 0));
    let fail = CycleError::Transport { status: Some(503) };
    let a = s.step(Event::Answered(Err(fail)));
    expect_sleep(&a, RETRY_MILLIS, Some(fail));
    assert!(s.collected.is_empty());
    assert_eq!(s.phase, Phase::Idle);
}

#[test]
fn all_sources_empty_is_an_empty_result() {
    let mut s = two_sources();
    s.step(Event::Start);
    s.step(answer(&[], 0));
    let a = s.step(answer(&[], 0));
    expect_sleep(&a, RETRY_MILLIS, Some(CycleError::EmptyResult));
    assert_eq!(s.phase, Phase::Idle);
}

#[test]
fn no_sources_is_an_empty_result() {
    let mut s = Scheduler::new(vec![], "carbonation".to_string());
    let a = s.step(Event::Start);
    expect_sleep(&a, RETRY_MILLIS, Some(CycleError::EmptyResult));
}

#[test]
fn backoff_is_waited_before_items_count() {
    let mut s = two_sources();
    s.step(Event::Start);
    let a = s.step(answer(&[1, 2], 3));
    match a {
        Action::Wait { seconds } => assert_eq!(seconds, 3),
        _ => panic!("expected a wait"),
    }
    assert_eq!(s.phase, Phase::Waiting);
    assert!(s.collected.is_empty());
    assert!(!s.accepts(&Event::Start));
    assert!(s.accepts(&Event::WaitOver));
    let a = s.step(Event::WaitOver);
    expect_query(&a, "b.example");
    let ids: Vec<u64> = s.collected.iter().map(|c| c.1.question_id).collect();
    assert_eq!(ids, vec![1, 2]);
    assert!(s.collected.iter().all(|c| c.0 == 0));
}

#[test]
fn delivery_failure_retries_then_success_sleeps_to_the_hour() {
    let mut s = Scheduler::new(vec!["a.example".to_string()], "carbonation".to_string());
    s.step(Event::Start);
    s.step(answer(&[9], 0));
    let fail = CycleError::Transport { status: Some(500) };
    let a = s.step(Event::Delivered { outcome: Err(fail), now_millis: 0 });
    expect_sleep(&a, RETRY_MILLIS, Some(fail));
    assert!(s.accepts(&Event::Start));
    let a = s.step(Event::Start);
    expect_query(&a, "a.example");
    s.step(answer(&[9], 0));
    let a = s.step(Event::Delivered { outcome: Ok(()), now_millis: 1_700_000_000_000 });
    expect_sleep(&a, 2_800_000, None);
    assert!(s.accepts(&Event::Start));
    let a = s.step(Event::Start);
    expect_query(&a, "a.example");
}

#[test]
fn end_to_end_single_source() {
    let mut s = Scheduler::new(vec!["cooking.stackexchange.com".to_string()], "carbonation".to_string());
    s.step(Event::Start);
    let item = SearchExcerpt {
        title: "A <span class=highlight>B</span>".to_string(),
        excerpt: "C".to_string(),
        question_id: 42,
        creation_date: 1700000000,
    };
    let a = s.step(Event::Answered(Ok(Response { items: vec![item], backoff: 0 })));
    match a {
        Action::Deliver(m) => {
            let e = &m.embeds[0];
            assert_eq!(e.title, "A **B**");
            assert_eq!(e.description, "C");
            assert!(e.url.ends_with("/questions/42"));
            assert_eq!(e.author.name, "cooking.stackexchange.com");
            assert_eq!(e.timestamp, 1700000000);
        }
        _ => panic!("expected a delivery"),
    }
}

#[test]
fn select_takes_the_given_index() {
    let c = vec![(0usize, excerpt("x", 1)), (1usize, excerpt("y", 2))];
    let (k, x) = select_excerpt(c, 1).ok().unwrap();
    assert_eq!(k, 1);
    assert_eq!(x.question_id, 2);
    assert!(matches!(select_excerpt(vec![], 0), Err(CycleError::EmptyResult)));
}

#[test]
fn pick_on_nothing_is_an_empty_result() {
    assert!(matches!(pick_excerpt(vec![]), Err(CycleError::EmptyResult)));
}

#[test]
fn pick_is_proportional_to_item_counts() {
    let trials = 20000;
    let mut from_first = 0u32;
    for _ in 0..trials {
        let c = vec![
            (0usize, excerpt("a", 1)),
            (0usize, excerpt("a", 2)),
            (1usize, excerpt("b", 3)),
            (1usize, excerpt("b", 4)),
            (1usize, excerpt("b", 5)),
        ];
        let (k, _) = pick_excerpt(c).ok().unwrap();
        if k == 0 {
            from_first += 1;
        }
    }
    let share = from_first as f64 / trials as f64;
    assert!((share - 0.4).abs() < 0.03, "share of the first source: {}", share);
}
