use filters::and::And;
use filters::and_then::AndThen;
use filters::callback::{Append, Fallback, Replace, Settle, Tupled};
use filters::filter::{Computation, Filter, Misuse, Outcome, Poll};
use filters::leaf::{Any, Delay, Header, Path};
use filters::map::MapFilter;
use filters::map_err::MapErr;
use filters::or::Or;
use filters::or_else::OrElse;
use filters::recover::Recover;
use filters::reject::{Cause, Rejection};
use filters::route::Route;
use filters::service::{FilteredFuture, FilteredService};
use filters::then::Then;
use filters::unify::Unify;
use filters::untuple_one::UntupleOne;
use filters::value::{Arm, Value, either, tuple, unify_values, untuple_values};

fn path(s: &str) -> Path {
    Path { segment: s.to_string() }
}

fn header(s: &str) -> Header {
    Header { name: s.to_string() }
}

fn segments(path: &str) -> Vec<String> {
    path.split('/').filter(|s| !s.is_empty()).map(|s| s.to_string()).collect()
}

fn headers(pairs: &[(&str, &str)]) -> Vec<(String, String)> {
    pairs.iter().map(|(k, v)| (k.to_string(), v.to_string())).collect()
}

fn text(s: &str) -> Value {
    Value::Text(s.to_string())
}

fn missing(s: &str) -> Cause {
    Cause::MissingHeader(s.to_string())
}

/// Drives a request to completion; returns the outcome, the number of
/// "not ready" steps seen, and the final matched-path index.
fn drive<C: Computation>(fut: &mut FilteredFuture<C>) -> (Outcome, usize, usize) {
    let mut pending = 0;
    loop {
        match fut.poll() {
            Ok(Poll::Ready(o)) => return (o, pending, fut.matched_path_index()),
            Ok(Poll::Pending) => pending += 1,
            Err(m) => panic!("unexpected {:?}", m),
        }
        assert!(pending < 1000);
    }
}

fn run<F: Filter>(f: F, path: &str, hs: &[(&str, &str)]) -> (Outcome, usize) {
    let svc = FilteredService::new(f);
    let mut fut = svc.call("GET".to_string(), segments(path), headers(hs), None);
    let (o, _, idx) = drive(&mut fut);
    (o, idx)
}

#[test]
fn and_of_two_paths_matches_whole_path() {
    let f = And { first: path("a"), second: path("b") };
    let (o, idx) = run(f, "/a/b", &[]);
    assert_eq!(o, Ok(vec![]));
    assert_eq!(idx, 2);
}

#[test]
fn and_of_two_paths_fails_on_second_segment() {
    let f = And { first: path("a"), second: path("b") };
    let (o, idx) = run(f, "/a/c", &[]);
    assert_eq!(o, Err(Rejection::not_found()));
    assert_eq!(idx, 1);
}

#[test]
fn failed_and_inside_or_rewinds_path() {
    let f = Or { first: And { first: path("a"), second: path("b") }, second: path("x") };
    let (o, idx) = run(f, "/a/c", &[]);
    assert_eq!(o, Err(Rejection::not_found()));
    assert_eq!(idx, 0);
}

#[test]
fn or_second_branch_starts_from_recorded_index() {
    let f = Or {
        first: And { first: path("a"), second: path("b") },
        second: And { first: path("a"), second: path("c") },
    };
    let (o, idx) = run(f, "/a/c", &[]);
    assert_eq!(o, Ok(vec![Value::Either(Arm::B, 0)]));
    assert_eq!(idx, 2);
}

#[test]
fn and_concatenates_values_in_order() {
    let f = And { first: header("x"), second: And { first: header("y"), second: header("z") } };
    let (o, _) = run(f, "/", &[("z", "3"), ("x", "1"), ("y", "2")]);
    assert_eq!(o, Ok(vec![text("1"), text("2"), text("3")]));
}

#[test]
fn and_yields_first_failure() {
    let f = And { first: header("x"), second: header("y") };
    let (o, _) = run(f, "/", &[("y", "2")]);
    assert_eq!(o, Err(Rejection::new(missing("x"))));
}

#[test]
fn and_yields_second_failure() {
    let f = And { first: header("x"), second: header("y") };
    let (o, _) = run(f, "/", &[("x", "1")]);
    assert_eq!(o, Err(Rejection::new(missing("y"))));
}

#[test]
fn or_header_second_only() {
    let f = Or { first: header("x"), second: header("y") };
    let (o, _) = run(f, "/", &[("y", "why")]);
    assert_eq!(o, Ok(vec![Value::Either(Arm::B, 1), text("why")]));
}

#[test]
fn or_header_neither_merges_both() {
    let f = Or { first: header("x"), second: header("y") };
    let (o, _) = run(f, "/", &[]);
    assert_eq!(o, Err(Rejection { causes: vec![missing("x"), missing("y")] }));
}

#[test]
fn or_first_success_wins() {
    let f = Or { first: header("x"), second: header("y") };
    let (o, _) = run(f, "/", &[("x", "1"), ("y", "2")]);
    assert_eq!(o, Ok(vec![Value::Either(Arm::A, 1), text("1")]));
}

#[test]
fn or_keeps_more_specific_failure() {
    let f = Or { first: path("p"), second: header("x") };
    let (o, _) = run(f, "/q", &[]);
    assert_eq!(o, Err(Rejection::new(missing("x"))));
    let g = Or { first: header("x"), second: path("p") };
    let (o, _) = run(g, "/q", &[]);
    assert_eq!(o, Err(Rejection::new(missing("x"))));
}

#[test]
fn or_of_not_found_stays_single() {
    let f = Or { first: path("p"), second: path("r") };
    let (o, _) = run(f, "/q", &[]);
    assert_eq!(o, Err(Rejection::not_found()));
}

#[test]
fn combine_rank_rules() {
    let body = Rejection::new(Cause::InvalidBody);
    let hdr = Rejection::new(missing("h"));
    assert_eq!(hdr.clone().combine(body.clone()), body);
    assert_eq!(body.clone().combine(hdr.clone()), body);
    assert_eq!(Rejection::not_found().combine(hdr.clone()), hdr);
    let q = Rejection::new(Cause::InvalidQuery);
    assert_eq!(q.clone().combine(body.clone()).causes, vec![Cause::InvalidQuery, Cause::InvalidBody]);
    assert_eq!(Cause::NotFound.rank(), 0);
    assert_eq!(Cause::MethodNotAllowed.rank(), 1);
    assert_eq!(Cause::Custom(7).rank(), 1);
    assert_eq!(Cause::InvalidHeader("h".to_string()).rank(), 2);
    assert_eq!(body.rank(), 2);
}

#[test]
fn mixed_failure_ranks_by_highest_cause() {
    let mixed = Rejection { causes: vec![Cause::NotFound, Cause::InvalidBody] };
    assert_eq!(mixed.rank(), 2);
    let hdr = Rejection::new(missing("h"));
    assert_eq!(hdr.clone().combine(mixed.clone()), mixed);
    assert_eq!(mixed.clone().combine(hdr), mixed);
    assert_eq!(Rejection { causes: vec![] }.rank(), 0);
}

#[test]
fn polling_after_completion_is_refused() {
    let svc = FilteredService::new(And { first: path("a"), second: Or { first: header("x"), second: Any } });
    let mut fut = svc.call("GET".to_string(), segments("/a"), headers(&[]), None);
    let (o, _, _) = drive(&mut fut);
    assert_eq!(o, Ok(vec![Value::Either(Arm::B, 0)]));
    assert!(matches!(fut.poll(), Err(Misuse::PolledAfterComplete)));
    assert!(matches!(fut.poll(), Err(Misuse::PolledAfterComplete)));
}

/// Drives a fresh computation of `f` to completion, then once more.
fn drive_twice<F: Filter>(f: F) {
    let mut route = Route::new("GET".to_string(), segments("/a"), headers(&[("x", "1")]), None);
    let mut c = f.filter(&route);
    loop {
        match c.poll(&mut route) {
            Ok(Poll::Ready(_)) => break,
            Ok(Poll::Pending) => {}
            Err(m) => panic!("unexpected {:?}", m),
        }
    }
    assert!(matches!(c.poll(&mut route), Err(Misuse::PolledAfterComplete)));
}

#[test]
fn every_combinator_refuses_a_second_drive() {
    drive_twice(And { first: path("a"), second: header("x") });
    drive_twice(Or { first: path("b"), second: header("x") });
    drive_twice(MapFilter { filter: header("x"), callback: Tupled });
    drive_twice(MapErr { filter: header("y"), callback: Replace { cause: Cause::InvalidQuery } });
    drive_twice(AndThen { filter: header("x"), callback: Append { value: Value::Num(1) } });
    drive_twice(Then { filter: header("y"), callback: Settle { value: Value::Num(0) } });
    drive_twice(OrElse { filter: header("y"), callback: Fallback { value: Value::Num(2) } });
    drive_twice(Recover { filter: header("y"), callback: Fallback { value: Value::Num(2) } });
    drive_twice(Unify { filter: Or { first: header("y"), second: header("x") } });
    drive_twice(UntupleOne { filter: MapFilter { filter: header("x"), callback: Tupled } });
    drive_twice(Delay { filter: path("a"), ticks: 3 });
}

#[test]
fn suspended_children_resume_in_order() {
    let f = And {
        first: Delay { filter: path("a"), ticks: 2 },
        second: Or { first: Delay { filter: path("x"), ticks: 1 }, second: Delay { filter: path("b"), ticks: 3 } },
    };
    let svc = FilteredService::new(f);
    let mut fut = svc.call("GET".to_string(), segments("/a/b"), headers(&[]), None);
    let (o, pending, idx) = drive(&mut fut);
    assert_eq!(o, Ok(vec![Value::Either(Arm::B, 0)]));
    assert_eq!(pending, 6);
    assert_eq!(idx, 2);
}

#[test]
fn map_applies_callback() {
    let f = MapFilter { filter: header("x"), callback: Append { value: Value::Num(9) } };
    let (o, _) = run(f, "/", &[("x", "1")]);
    assert_eq!(o, Ok(vec![Value::Tuple(2), text("1"), Value::Num(9)]));
    let f = MapFilter { filter: header("x"), callback: Append { value: Value::Num(9) } };
    let (o, _) = run(f, "/", &[]);
    assert_eq!(o, Err(Rejection::new(missing("x"))));
}

#[test]
fn map_then_untuple_one_is_native() {
    let f = MapFilter { filter: And { first: header("x"), second: header("y") }, callback: Tupled };
    let (o, _) = run(f, "/", &[("x", "1"), ("y", "2")]);
    assert_eq!(o, Ok(vec![Value::Tuple(2), text("1"), text("2")]));
    let f = UntupleOne { filter: MapFilter { filter: And { first: header("x"), second: header("y") }, callback: Tupled } };
    let (o, _) = run(f, "/", &[("x", "1"), ("y", "2")]);
    let native = And { first: header("x"), second: header("y") };
    let (n, _) = run(native, "/", &[("x", "1"), ("y", "2")]);
    assert_eq!(o, n);
    assert_eq!(o, Ok(vec![text("1"), text("2")]));
}

#[test]
fn untuple_one_leaves_other_lists() {
    let f = UntupleOne { filter: header("x") };
    let (o, _) = run(f, "/", &[("x", "1")]);
    assert_eq!(o, Ok(vec![text("1")]));
}

#[test]
fn map_err_replaces_failure_only() {
    let f = MapErr { filter: header("x"), callback: Replace { cause: Cause::Custom(5) } };
    let (o, _) = run(f, "/", &[]);
    assert_eq!(o, Err(Rejection::new(Cause::Custom(5))));
    let f = MapErr { filter: header("x"), callback: Replace { cause: Cause::Custom(5) } };
    let (o, _) = run(f, "/", &[("x", "1")]);
    assert_eq!(o, Ok(vec![text("1")]));
}

#[test]
fn and_then_runs_on_success_only() {
    let f = AndThen { filter: header("x"), callback: Append { value: Value::Num(3) } };
    let (o, _) = run(f, "/", &[("x", "1")]);
    assert_eq!(o, Ok(vec![Value::Tuple(2), text("1"), Value::Num(3)]));
    let f = AndThen { filter: header("x"), callback: Append { value: Value::Num(3) } };
    let (o, _) = run(f, "/", &[]);
    assert_eq!(o, Err(Rejection::new(missing("x"))));
}

#[test]
fn then_sees_every_outcome() {
    let f = Then { filter: header("x"), callback: Settle { value: Value::Num(0) } };
    let (o, _) = run(f, "/", &[]);
    assert_eq!(o, Ok(vec![Value::Num(0)]));
    let f = Then { filter: header("x"), callback: Settle { value: Value::Num(0) } };
    let (o, _) = run(f, "/", &[("x", "v")]);
    assert_eq!(o, Ok(vec![Value::Tuple(1), text("v")]));
}

#[test]
fn or_else_rewinds_and_supplies_fallback() {
    let f = OrElse { filter: And { first: path("a"), second: path("b") }, callback: Fallback { value: Value::Num(4) } };
    let (o, idx) = run(f, "/a/c", &[]);
    assert_eq!(o, Ok(vec![Value::Num(4)]));
    assert_eq!(idx, 0);
    let f = OrElse { filter: path("a"), callback: Fallback { value: Value::Num(4) } };
    let (o, idx) = run(f, "/a", &[]);
    assert_eq!(o, Ok(vec![]));
    assert_eq!(idx, 1);
}

#[test]
fn or_else_can_fail_again() {
    let f = OrElse { filter: path("a"), callback: Replace { cause: Cause::InvalidQuery } };
    let (o, _) = run(f, "/b", &[]);
    assert_eq!(o, Err(Rejection::new(Cause::InvalidQuery)));
}

#[test]
fn recover_tags_the_source() {
    let f = Recover { filter: header("x"), callback: Fallback { value: Value::Num(7) } };
    let (o, _) = run(f, "/", &[("x", "1")]);
    assert_eq!(o, Ok(vec![Value::Either(Arm::A, 1), text("1")]));
    let f = Recover { filter: And { first: path("a"), second: header("x") }, callback: Fallback { value: Value::Num(7) } };
    let (o, idx) = run(f, "/a", &[]);
    assert_eq!(o, Ok(vec![Value::Either(Arm::B, 1), Value::Num(7)]));
    assert_eq!(idx, 0);
    let f = Recover { filter: header("x"), callback: Replace { cause: Cause::InvalidBody } };
    let (o, _) = run(f, "/", &[]);
    assert_eq!(o, Err(Rejection::new(Cause::InvalidBody)));
}

#[test]
fn unify_collapses_or_arms() {
    let f = Unify { filter: Or { first: header("x"), second: header("y") } };
    let (o, _) = run(f, "/", &[("y", "2")]);
    assert_eq!(o, Ok(vec![text("2")]));
    let f = Unify { filter: Or { first: header("x"), second: header("y") } };
    let (o, _) = run(f, "/", &[("x", "1"), ("y", "2")]);
    assert_eq!(o, Ok(vec![text("1")]));
    let f = Unify { filter: Or { first: header("x"), second: header("y") } };
    let (o, _) = run(f, "/", &[]);
    assert_eq!(o, Err(Rejection { causes: vec![missing("x"), missing("y")] }));
}

#[test]
fn recover_then_unify_gives_same_shape() {
    let f = Unify { filter: Recover { filter: header("x"), callback: Fallback { value: text("d") } } };
    let (o, _) = run(f, "/", &[("x", "d")]);
    let g = Unify { filter: Recover { filter: header("x"), callback: Fallback { value: text("d") } } };
    let (p, _) = run(g, "/", &[]);
    assert_eq!(o, Ok(vec![text("d")]));
    assert_eq!(o, p);
}

#[test]
fn header_lookup_takes_first_match() {
    let route = Route::new("GET".to_string(), vec![], headers(&[("a", "1"), ("b", "2"), ("a", "3")]), None);
    assert_eq!(route.header(&"a".to_string()), Some("1".to_string()));
    assert_eq!(route.header(&"c".to_string()), None);
}

#[test]
fn route_cursor_resets() {
    let mut route = Route::new("POST".to_string(), segments("/a/b/c"), vec![], Some("10.0.0.1:80".to_string()));
    assert_eq!(route.method(), "POST");
    assert_eq!(route.remote_addr(), &Some("10.0.0.1:80".to_string()));
    assert_eq!(route.segment_count(), 3);
    assert_eq!(route.matched_path_index(), 0);
    route.reset_matched_path_index(2);
    assert_eq!(route.matched_path_index(), 2);
    assert_eq!(route.segment(2), "c");
}

#[test]
fn value_helpers() {
    let x = vec![Value::Num(1), Value::Num(2)];
    assert_eq!(either(Arm::A, x.clone()), vec![Value::Either(Arm::A, 2), Value::Num(1), Value::Num(2)]);
    assert_eq!(unify_values(either(Arm::B, x.clone())), x);
    assert_eq!(untuple_values(tuple(x.clone())), x);
    assert_eq!(untuple_values(x.clone()), x);
    assert_eq!(unify_values(vec![Value::Either(Arm::A, 3), Value::Num(1)]), vec![Value::Either(Arm::A, 3), Value::Num(1)]);
    assert_eq!(Value::Text("t".to_string()).duplicate(), text("t"));
}

#[test]
fn ready_children_resolve_in_one_step() {
    let f = Recover {
        filter: And { first: path("a"), second: Or { first: header("x"), second: MapFilter { filter: Any, callback: Tupled } } },
        callback: Fallback { value: Value::Num(1) },
    };
    let svc = FilteredService::new(f);
    let mut fut = svc.call("GET".to_string(), segments("/a"), headers(&[]), None);
    let (o, pending, idx) = drive(&mut fut);
    assert_eq!(pending, 0);
    assert_eq!(o, Ok(vec![Value::Either(Arm::A, 2), Value::Either(Arm::B, 1), Value::Tuple(0)]));
    assert_eq!(idx, 1);
}

#[test]
fn pending_or_leaves_index_where_first_branch_left_it() {
    let f = Or { first: And { first: path("a"), second: Delay { filter: path("b"), ticks: 1 } }, second: Any };
    let mut route = Route::new("GET".to_string(), segments("/a/b"), vec![], None);
    let mut c = f.filter(&route);
    assert!(matches!(c.poll(&mut route), Ok(Poll::Pending)));
    assert_eq!(route.matched_path_index(), 1);
    assert!(matches!(c.poll(&mut route), Ok(Poll::Ready(Ok(_)))));
    assert_eq!(route.matched_path_index(), 2);
}
