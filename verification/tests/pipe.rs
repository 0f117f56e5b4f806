use loom::pipe::{
    Retries, RetryStep,
    Build, BranchPipe, Chunk, FanOut, Filter, FilterPipe, FlattenPipe, Guard, MapOp, MapPipe,
    OptionPipe, Pipe, ResultPipe, Router, SequencePipe, Source, TryMap,
};

// === map ===

#[test]
fn transforms_value() {
    let result = Source::from(5).pipe(MapOp::new(|x| x * 2)).build();
    assert_eq!(result, 10);
}

#[test]
fn changes_type() {
    let result = Source::from(42).pipe(MapOp::new(|x: i32| x.to_string())).build();
    assert_eq!(result, "42");
}

#[test]
fn with_closure() {
    let multiplier = 3;
    let result = Source::from(7).pipe(MapOp::new(move |x| x * multiplier)).build();
    assert_eq!(result, 21);
}

#[test]
fn chained() {
    let result = Source::from(2).map(|x| x + 1).map(|x| x * 2).map(|x| x.to_string()).build();
    assert_eq!(result, "6");
}

// === filter ===

#[test]
fn allows_matching_single_value() {
    let result = Source::from(42).pipe(Filter::allow(|x: &i32| *x > 0)).build();
    assert_eq!(result, Some(42));
}

#[test]
fn blocks_non_matching_single_value() {
    let result = Source::from(-5).pipe(Filter::allow(|x: &i32| *x > 0)).build();
    assert_eq!(result, None);
}

#[test]
fn filter_block_blocks_matching_value() {
    let result = Source::from(42).pipe(Filter::block(|x: &i32| *x > 0)).build();
    assert_eq!(result, None);
}

#[test]
fn filter_block_allows_non_matching_value() {
    let result = Source::from(-5).pipe(Filter::block(|x: &i32| *x > 0)).build();
    assert_eq!(result, Some(-5));
}

#[test]
fn filter_pipe_trait_single() {
    let result = Source::from(42).filter(|x: &i32| *x > 0).build();
    assert_eq!(result, Some(42));
}

#[test]
fn filter_allow_pipe_trait() {
    let result = Source::from(42).filter_allow(|x: &i32| *x > 0).build();
    assert_eq!(result, Some(42));
}

#[test]
fn filter_block_pipe_trait() {
    let result = Source::from(42).filter_block(|x: &i32| *x > 0).build();
    assert_eq!(result, None);
}

// === guard ===

#[test]
fn allows_matching_value() {
    let result = Source::from(42).pipe(Guard::allow(|x: &i32| *x > 0)).build();
    assert_eq!(result, Some(42));
}

#[test]
fn blocks_non_matching_value() {
    let result = Source::from(-5).pipe(Guard::allow(|x: &i32| *x > 0)).build();
    assert_eq!(result, None);
}

#[test]
fn guard_block_blocks_matching_value() {
    let result = Source::from(42).pipe(Guard::block(|x: &i32| *x > 0)).build();
    assert_eq!(result, None);
}

#[test]
fn guard_block_allows_non_matching_value() {
    let result = Source::from(-5).pipe(Guard::block(|x: &i32| *x > 0)).build();
    assert_eq!(result, Some(-5));
}

#[test]
fn with_string() {
    let result = Source::from("hello".to_string())
        .pipe(Guard::allow(|s: &String| s.len() > 3))
        .build();
    assert_eq!(result, Some("hello".to_string()));
}

#[test]
fn with_empty_string() {
    let result = Source::from("".to_string())
        .pipe(Guard::allow(|s: &String| !s.is_empty()))
        .build();
    assert_eq!(result, None);
}

#[test]
fn new_same_as_allow() {
    let result1 = Source::from(10).pipe(Guard::new(|x: &i32| *x > 5)).build();
    let result2 = Source::from(10).pipe(Guard::allow(|x: &i32| *x > 5)).build();
    assert_eq!(result1, result2);
}

// === branch ===

#[test]
fn branch_with_else_true_condition() {
    let result = Source::from(10)
        .branch()
        .when(|x: &i32| *x > 5)
        .then(|x| x * 2)
        .or_else(|x| x + 100)
        .build();
    assert_eq!(result, 20);
}

#[test]
fn branch_with_else_false_condition() {
    let result = Source::from(3)
        .branch()
        .when(|x: &i32| *x > 5)
        .then(|x| x * 2)
        .or_else(|x| x + 100)
        .build();
    assert_eq!(result, 103);
}

#[test]
fn branch_passthrough_true_condition() {
    let result = Source::from(10).branch().when(|x: &i32| *x > 5).then(|x| x * 2).build();
    assert_eq!(result, 20);
}

#[test]
fn branch_passthrough_false_condition() {
    let result = Source::from(3).branch().when(|x: &i32| *x > 5).then(|x| x * 2).build();
    assert_eq!(result, 3);
}

#[test]
fn branch_with_strings() {
    let result = Source::from("hello".to_string())
        .branch()
        .when(|s: &String| s.len() > 3)
        .then(|s: String| s.to_uppercase())
        .or_else(|s: String| s.repeat(2))
        .build();
    assert_eq!(result, "HELLO");
}

#[test]
fn branch_with_type_change() {
    let result = Source::from(42)
        .branch()
        .when(|x: &i32| *x > 0)
        .then(|x| format!("positive: {}", x))
        .or_else(|x| format!("non-positive: {}", x))
        .build();
    assert_eq!(result, "positive: 42");
}

#[test]
fn branch_chainable() {
    let result = Source::from(10)
        .branch()
        .when(|x: &i32| *x > 5)
        .then(|x| x * 2)
        .or_else(|x| x + 100)
        .map(|x| x + 1)
        .build();
    assert_eq!(result, 21);
}

#[test]
fn branch_passthrough_chainable() {
    let result = Source::from(10)
        .branch()
        .when(|x: &i32| *x > 5)
        .then(|x| x * 2)
        .map(|x| x + 1)
        .build();
    assert_eq!(result, 21);
}

// === fan-out ===

#[test]
fn single_branch() {
    let result = Source::from(5).pipe(FanOut::new().add(Guard::allow(|x: &i32| *x > 0))).build();
    assert_eq!(result, vec![Some(5)]);
}

#[test]
fn multiple_branches() {
    let result = Source::from(10)
        .pipe(
            FanOut::new()
                .add(Guard::allow(|x: &i32| *x > 5))
                .add(Guard::allow(|x: &i32| *x > 15))
                .add(Guard::block(|x: &i32| *x > 5)),
        )
        .build();
    assert_eq!(result, vec![Some(10), None, None]);
}

#[test]
fn fan_out_no_branches() {
    let result = Source::from(42).pipe(FanOut::<i32, Option<i32>>::new()).build();
    assert!(result.is_empty());
}

#[test]
fn fan_out_default_is_empty() {
    let fan_out: FanOut<i32, Option<i32>> = FanOut::default();
    let result = Source::from(42).pipe(fan_out).build();
    assert!(result.is_empty());
}

// === router ===

#[test]
fn matches_first_route() {
    let result = Source::from(15)
        .pipe(
            Router::new()
                .route(|x: &i32| *x > 10, Guard::allow(|_: &i32| true))
                .route(|x: &i32| *x > 5, Guard::block(|_: &i32| true)),
        )
        .build();
    assert_eq!(result, Some(Some(15)));
}

#[test]
fn matches_second_route() {
    let result = Source::from(7)
        .pipe(
            Router::new()
                .route(|x: &i32| *x > 10, Guard::allow(|_: &i32| true))
                .route(|x: &i32| *x > 5, Guard::allow(|_: &i32| true)),
        )
        .build();
    assert_eq!(result, Some(Some(7)));
}

#[test]
fn no_match_returns_none() {
    let result = Source::from(3)
        .pipe(
            Router::new()
                .route(|x: &i32| *x > 10, Guard::allow(|_: &i32| true))
                .route(|x: &i32| *x > 5, Guard::allow(|_: &i32| true)),
        )
        .build();
    assert_eq!(result, None);
}

#[test]
fn uses_default_when_no_match() {
    let result = Source::from(3)
        .pipe(
            Router::new()
                .route(|x: &i32| *x > 10, Guard::allow(|_: &i32| true))
                .default(Guard::allow(|_: &i32| true)),
        )
        .build();
    assert_eq!(result, Some(Some(3)));
}

#[test]
fn route_takes_precedence_over_default() {
    let result = Source::from(15)
        .pipe(
            Router::new()
                .route(|x: &i32| *x > 10, Guard::allow(|_: &i32| true))
                .default(Guard::block(|_: &i32| true)),
        )
        .build();
    assert_eq!(result, Some(Some(15)));
}

#[test]
fn router_with_strings() {
    let result = Source::from("hello".to_string())
        .pipe(
            Router::new()
                .route(|s: &String| s.starts_with("h"), Guard::allow(|_: &String| true))
                .route(|s: &String| s.starts_with("w"), Guard::block(|_: &String| true)),
        )
        .build();
    assert_eq!(result, Some(Some("hello".to_string())));
}

#[test]
fn new_empty() {
    let router: Router<i32, Option<i32>> = Router::new();
    let result = Source::from(42).pipe(router).build();
    assert_eq!(result, None);
}

// === sequences ===

#[test]
fn flatten_nested_vectors() {
    let result = Source::from(vec![vec![1, 2], vec![3, 4], vec![5]]).flatten().build();
    assert_eq!(result, vec![1, 2, 3, 4, 5]);
}

#[test]
fn flatten_empty() {
    let result: Vec<i32> = Source::from(Vec::<Vec<i32>>::new()).flatten().build();
    assert_eq!(result, Vec::<i32>::new());
}

#[test]
fn flat_map_expands() {
    let result = Source::from(vec![1, 2, 3]).flat_map(|x| vec![x, x * 10]).build();
    assert_eq!(result, vec![1, 10, 2, 20, 3, 30]);
}

#[test]
fn flat_map_empty_results() {
    let result = Source::from(vec![1, 2, 3]).flat_map(|_| Vec::<i32>::new()).build();
    assert_eq!(result, Vec::<i32>::new());
}

#[test]
fn chunk_exact_fit() {
    let result = Source::from(vec![1, 2, 3, 4]).chunk(2).build();
    assert_eq!(result, vec![vec![1, 2], vec![3, 4]]);
}

#[test]
fn chunk_with_remainder() {
    let result = Source::from(vec![1, 2, 3, 4, 5]).chunk(2).build();
    assert_eq!(result, vec![vec![1, 2], vec![3, 4], vec![5]]);
}

#[test]
fn chunk_larger_than_input() {
    let result = Source::from(vec![1, 2]).chunk(5).build();
    assert_eq!(result, vec![vec![1, 2]]);
}

#[test]
fn window_sliding() {
    let result = Source::from(vec![1, 2, 3, 4, 5]).window(3).build();
    assert_eq!(result, vec![vec![1, 2, 3], vec![2, 3, 4], vec![3, 4, 5]]);
}

#[test]
fn window_exact_size() {
    let result = Source::from(vec![1, 2, 3]).window(3).build();
    assert_eq!(result, vec![vec![1, 2, 3]]);
}

#[test]
fn window_larger_than_input() {
    let result = Source::from(vec![1, 2]).window(5).build();
    assert_eq!(result, Vec::<Vec<i32>>::new());
}

#[test]
fn concat_vectors() {
    let result = Source::from(vec![1, 2]).concat(vec![3, 4]).build();
    assert_eq!(result, vec![1, 2, 3, 4]);
}

#[test]
fn concat_empty() {
    let result = Source::from(vec![1, 2]).concat(vec![]).build();
    assert_eq!(result, vec![1, 2]);
}

#[test]
fn chained_operations() {
    let result = Source::from(vec![1, 2, 3]).flat_map(|x| vec![x, x + 10]).chunk(3).flatten().build();
    assert_eq!(result, vec![1, 11, 2, 12, 3, 13]);
}

#[test]
fn chunk_operator_then_flatten_gives_input_back() {
    let input = vec![7, 8, 9, 10, 11, 12, 13];
    let result = Source::from(input.clone()).pipe(Chunk::new(3)).flatten().build();
    assert_eq!(result, input);
}

// === result and option ===

#[test]
fn result_unwrap_ok() {
    let result = Source::from(Ok::<i32, &str>(42)).unwrap().build();
    assert_eq!(result, 42);
}

#[test]
#[should_panic]
fn result_unwrap_err_panics() {
    let _ = Source::from(Err::<i32, &str>("error")).unwrap().build();
}

#[test]
fn result_expect_ok() {
    let result = Source::from(Ok::<i32, &str>(42)).expect("should not fail").build();
    assert_eq!(result, 42);
}

#[test]
#[should_panic(expected = "custom message")]
fn result_expect_err_panics_with_message() {
    let _ = Source::from(Err::<i32, &str>("error")).expect("custom message").build();
}

#[test]
fn result_unwrap_or_ok() {
    let result = Source::from(Ok::<i32, &str>(42)).unwrap_or(0).build();
    assert_eq!(result, 42);
}

#[test]
fn result_unwrap_or_err() {
    let result = Source::from(Err::<i32, &str>("error")).unwrap_or(0).build();
    assert_eq!(result, 0);
}

#[test]
fn result_unwrap_or_else_ok() {
    let result = Source::from(Ok::<i32, &str>(42)).unwrap_or_else(|_| 0).build();
    assert_eq!(result, 42);
}

#[test]
fn result_unwrap_or_else_err() {
    let result = Source::from(Err::<i32, &str>("error")).unwrap_or_else(|e| e.len() as i32).build();
    assert_eq!(result, 5);
}

#[test]
fn result_ok_some() {
    let result = Source::from(Ok::<i32, &str>(42)).ok().build();
    assert_eq!(result, Some(42));
}

#[test]
fn result_ok_none() {
    let result = Source::from(Err::<i32, &str>("error")).ok().build();
    assert_eq!(result, None);
}

#[test]
fn option_unwrap_some() {
    let result = Source::from(Some(42)).unwrap().build();
    assert_eq!(result, 42);
}

#[test]
#[should_panic]
fn option_unwrap_none_panics() {
    let _ = Source::from(None::<i32>).unwrap().build();
}

#[test]
fn option_expect_some() {
    let result = Source::from(Some(42)).expect("should not fail").build();
    assert_eq!(result, 42);
}

#[test]
fn option_unwrap_or_some() {
    let result = Source::from(Some(42)).unwrap_or(0).build();
    assert_eq!(result, 42);
}

#[test]
fn option_unwrap_or_none() {
    let result = Source::from(None::<i32>).unwrap_or(0).build();
    assert_eq!(result, 0);
}

#[test]
fn option_unwrap_or_else_some() {
    let result = Source::from(Some(42)).unwrap_or_else(|| 0).build();
    assert_eq!(result, 42);
}

#[test]
fn option_unwrap_or_else_none() {
    let result = Source::from(None::<i32>).unwrap_or_else(|| 100).build();
    assert_eq!(result, 100);
}

#[test]
fn option_ok_or_some() {
    let result: Result<i32, &str> = Source::from(Some(42)).ok_or("missing").build();
    assert_eq!(result, Ok(42));
}

#[test]
fn option_ok_or_none() {
    let result: Result<i32, &str> = Source::from(None::<i32>).ok_or("missing").build();
    assert_eq!(result, Err("missing"));
}

// === fallible map ===

#[test]
fn success() {
    let result = Source::from("42".to_string())
        .pipe(TryMap::new(|s: String| s.parse::<i32>().map_err(|e| e.to_string())))
        .build();
    assert!(result.is_ok());
    assert_eq!(result.unwrap(), 42);
}

#[test]
fn failure() {
    let result = Source::from("not_a_number".to_string())
        .pipe(TryMap::new(|s: String| s.parse::<i32>().map_err(|e| e.to_string())))
        .build();
    assert!(result.is_err());
}

// === more operators ===

use loom::pipe::{Branch, BranchPassthrough, Concat, FlatMap, Flatten, Transformer, Window};

#[test]
fn source_new_runs_its_handler() {
    let result = Source::new(|| 6 * 7).build();
    assert_eq!(result, 42);
}

#[test]
fn transformer_builds_with_its_function_and_pipes_its_source() {
    let t = Transformer::new(Source::from(4), |x: i32| x * 10);
    assert_eq!(t.build(), 40);
    let t = Transformer::new(Source::from(4), |x: i32| x * 10);
    assert_eq!(t.pipe(MapOp::new(|x: i32| x + 1)).build(), 5);
}

#[test]
fn branch_operator_directly() {
    let op = Branch::new(|x: &i32| *x % 2 == 0, |x: i32| x / 2, Some(|x: i32| 3 * x + 1));
    assert_eq!(Source::from(10).pipe(op).build(), 5);
    let op = Branch::new(|x: &i32| *x % 2 == 0, |x: i32| x / 2, Some(|x: i32| 3 * x + 1));
    assert_eq!(Source::from(7).pipe(op).build(), 22);
    let op = BranchPassthrough::new(|x: &i32| *x < 0, |x: i32| -x);
    assert_eq!(Source::from(-3).pipe(op).build(), 3);
}

#[test]
fn sequence_operators_directly() {
    let r = Source::from(vec![vec!['a'], vec![], vec!['b', 'c']]).pipe(Flatten::new()).build();
    assert_eq!(r, vec!['a', 'b', 'c']);
    let r = Source::from(vec![1, 2]).pipe(FlatMap::new(|x: i32| vec![x; x as usize])).build();
    assert_eq!(r, vec![1, 2, 2]);
    let r = Source::from(vec!["x".to_string(), "y".to_string()]).pipe(Window::new(1)).build();
    assert_eq!(r, vec![vec!["x".to_string()], vec!["y".to_string()]]);
    let r = Source::from(Vec::<u8>::new()).pipe(Concat::new(vec![9])).build();
    assert_eq!(r, vec![9]);
}

// === retry ===

/// Runs `operation` on `input` as a retried operation does, without waiting,
/// and returns the outcome with the number of calls made.
fn run_retried<O, E>(input: i32, max: usize, operation: impl Fn(i32, usize) -> Result<O, E>) -> (Result<O, E>, usize) {
    let mut retries = Retries::new(max);
    let mut calls = 0;
    loop {
        let outcome = operation(input, calls);
        calls += 1;
        match retries.after_attempt(outcome) {
            RetryStep::Done(r) => return (r, calls),
            RetryStep::Again => {},
        }
    }
}

#[test]
fn retry_succeeds_first_try() {
    let (result, calls) = run_retried(10, 3, |x, _| Ok::<i32, &str>(x * 2));
    assert_eq!(result, Ok(20));
    assert_eq!(calls, 1);
}

#[test]
fn retry_succeeds_after_failures() {
    let (result, calls) = run_retried(10, 3, |x, count| if count < 2 { Err("not yet") } else { Ok(x * 2) });
    assert_eq!(result, Ok(20));
    assert_eq!(calls, 3); // 2 failures + 1 success
}

#[test]
fn retry_exhausts_attempts() {
    let (result, calls) = run_retried(10, 2, |_, _| Err::<i32, &str>("always fails"));
    assert_eq!(result, Err("always fails"));
    assert_eq!(calls, 3); // 1 initial + 2 retries
}

#[test]
fn retries_default_to_three() {
    let (result, calls) = {
        let mut retries = Retries::default();
        let mut calls = 0;
        loop {
            calls += 1;
            if let RetryStep::Done(r) = retries.after_attempt(Err::<(), &str>("no")) {
                break (r, calls);
            }
        }
    };
    assert_eq!(result, Err("no"));
    assert_eq!(calls, 4);
}

// === deferred sources ===

#[test]
fn new_source_calls_its_function_only_when_built() {
    let calls = std::rc::Rc::new(std::cell::Cell::new(0));
    let seen = calls.clone();
    let source = Source::new(move || {
        seen.set(seen.get() + 1);
        21
    });
    assert_eq!(calls.get(), 0);
    assert_eq!(source.build(), 21);
    assert_eq!(calls.get(), 1);
}

#[test]
fn new_source_pipes_like_a_value() {
    let result = Source::new(|| 5).pipe(Guard::allow(|x: &i32| *x > 3)).build();
    assert_eq!(result, Some(5));
}

#[test]
fn piped_operators_run_only_when_built() {
    let calls = std::rc::Rc::new(std::cell::Cell::new(0));
    let seen = calls.clone();
    let pipeline = Source::from(4).map(move |x: i32| {
        seen.set(seen.get() + 1);
        x * 10
    });
    let pipeline = pipeline.pipe(Guard::allow(|x: &i32| *x > 30));
    assert_eq!(calls.get(), 0);
    assert_eq!(pipeline.build(), Some(40));
    assert_eq!(calls.get(), 1);
}

#[test]
fn piping_onto_a_transformer_skips_its_function() {
    let t = loom::pipe::Transformer::new(Source::from(3), |x: i32| -> i32 { panic!("not called: {}", x) });
    assert_eq!(t.pipe(MapOp::new(|x: i32| x + 1)).build(), 4);
    let t = loom::pipe::Transformer::new(Source::from(3), |x: i32| x * 2);
    assert_eq!(t.build(), 6);
}
