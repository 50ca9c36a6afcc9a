use std::cell::{Cell, RefCell};
use std::rc::Rc;
use std::time::{Duration, Instant};

use motore::builder::ServiceBuilder;
use motore::layer::{layer_fn, Identity, Layer, Layers, MapErrLayer, Stack};
use motore::service::{service_fn, MapErr, MapResponse};
use motore::timeout::{settle, settle_after, Race, Timeout, TimeoutError, TimeoutLayer};
use motore::utils::{option_layer, Either};
use motore::{Service, ServiceExt};

struct Cx;

fn call<S: Service<Cx, i32>>(svc: &S, req: i32) -> Result<S::Response, S::Error> {
    svc.call(&mut Cx, req)
}

fn echo(_cx: &mut Cx, req: i32) -> Result<i32, String> {
    if req >= 0 {
        Ok(req)
    } else {
        Err(format!("negative {req}"))
    }
}

/// Records an entry before and after each call of the wrapped service.
struct Log<S> {
    name: &'static str,
    entries: Rc<RefCell<Vec<String>>>,
    inner: S,
}

impl<S: Service<Cx, i32>> Service<Cx, i32> for Log<S> {
    type Response = S::Response;
    type Error = S::Error;

    fn call(&self, cx: &mut Cx, req: i32) -> Result<S::Response, S::Error> {
        self.entries.borrow_mut().push(format!("{} before", self.name));
        let r = self.inner.call(cx, req);
        self.entries.borrow_mut().push(format!("{} after", self.name));
        r
    }
}

fn log_layer<S>(
    name: &'static str,
    entries: &Rc<RefCell<Vec<String>>>,
) -> impl Fn(S) -> Log<S> {
    let entries = entries.clone();
    move |inner| Log {
        name,
        entries: entries.clone(),
        inner,
    }
}

/// Counts its calls.
struct Counter {
    calls: Rc<Cell<u32>>,
    answer: i32,
}

impl Service<Cx, i32> for Counter {
    type Response = i32;
    type Error = String;

    fn call(&self, _cx: &mut Cx, _req: i32) -> Result<i32, String> {
        self.calls.set(self.calls.get() + 1);
        Ok(self.answer)
    }
}

#[test]
fn identity_leaves_service_unchanged() {
    let svc = Identity::new().layer(service_fn(echo));
    let plain = service_fn(echo);
    for req in [0, 5, -3] {
        assert_eq!(call(&svc, req), call(&plain, req));
    }
}

#[test]
fn stack_regrouping_keeps_call_order() {
    let left_log = Rc::new(RefCell::new(Vec::new()));
    let left = Stack::new(
        Stack::new(
            layer_fn(log_layer("a", &left_log)),
            layer_fn(log_layer("b", &left_log)),
        ),
        layer_fn(log_layer("c", &left_log)),
    )
    .layer(service_fn(echo));
    let right_log = Rc::new(RefCell::new(Vec::new()));
    let right = Stack::new(
        layer_fn(log_layer("a", &right_log)),
        Stack::new(
            layer_fn(log_layer("b", &right_log)),
            layer_fn(log_layer("c", &right_log)),
        ),
    )
    .layer(service_fn(echo));
    assert_eq!(call(&left, 7), Ok(7));
    assert_eq!(call(&right, 7), Ok(7));
    let expected: Vec<String> = [
        "c before", "b before", "a before", "a after", "b after", "c after",
    ]
    .iter()
    .map(|s| s.to_string())
    .collect();
    assert_eq!(*left_log.borrow(), expected);
    assert_eq!(*right_log.borrow(), expected);
}

#[test]
fn map_err_converts_errors_only() {
    let conversions = Rc::new(Cell::new(0u32));
    let seen = conversions.clone();
    let svc: MapErr<_, _, usize> = service_fn(echo).map_err(move |e: String| {
        seen.set(seen.get() + 1);
        e.len()
    });
    assert_eq!(call(&svc, 4), Ok(4));
    assert_eq!(conversions.get(), 0);
    assert_eq!(call(&svc, -12), Err("negative -12".len()));
    assert_eq!(conversions.get(), 1);
}

#[test]
fn map_response_converts_responses_only() {
    let conversions = Rc::new(Cell::new(0u32));
    let seen = conversions.clone();
    let svc: MapResponse<_, _, i64> = service_fn(echo).map_response(move |v: i32| {
        seen.set(seen.get() + 1);
        (v as i64) * 10
    });
    assert_eq!(call(&svc, 4), Ok(40));
    assert_eq!(conversions.get(), 1);
    assert_eq!(call(&svc, -1), Err("negative -1".to_string()));
    assert_eq!(conversions.get(), 1);
}

#[test]
fn map_err_layer_wraps_service() {
    let svc = MapErrLayer::new(|e: String| format!("wrapped: {e}")).layer(service_fn(echo));
    assert_eq!(call(&svc, -2), Err("wrapped: negative -2".to_string()));
    assert_eq!(call(&svc, 2), Ok(2));
}

#[test]
fn settle_reports_the_winner() {
    assert_eq!(settle(Race::<i32, String>::Finished(Ok(1))), Ok(1));
    assert_eq!(
        settle(Race::<i32, String>::Finished(Err("boom".to_string()))),
        Err(TimeoutError::Inner("boom".to_string()))
    );
    assert_eq!(
        settle(Race::<i32, String>::Elapsed),
        Err(TimeoutError::DeadlineExceeded)
    );
}

#[test]
fn settle_after_compares_elapsed_with_bound() {
    let ms = 1_000_000u128;
    assert_eq!(settle_after(10 * ms, 50 * ms, Ok::<i32, String>(42)), Ok(42));
    assert_eq!(
        settle_after(10 * ms, 50 * ms, Err::<i32, String>("bad".to_string())),
        Err(TimeoutError::Inner("bad".to_string()))
    );
    assert_eq!(
        settle_after(100 * ms, 50 * ms, Ok::<i32, String>(42)),
        Err(TimeoutError::DeadlineExceeded)
    );
    assert_eq!(settle_after(50 * ms, 50 * ms, Ok::<i32, String>(7)), Ok(7));
}

#[test]
fn deadline_message_names_the_timeout() {
    let e: TimeoutError<String> = TimeoutError::DeadlineExceeded;
    assert_eq!(e.deadline_message(), Some("service time out".to_string()));
    let inner: TimeoutError<String> = TimeoutError::Inner("x".to_string());
    assert_eq!(inner.deadline_message(), None);
}

fn slow_echo(_cx: &mut Cx, req: i32) -> Result<i32, String> {
    let start = Instant::now();
    while start.elapsed() < Duration::from_millis(100) {}
    echo(&mut Cx, req)
}

#[test]
fn timeout_without_duration_returns_inner_result() {
    let svc = Timeout::new(service_fn(slow_echo), None);
    assert_eq!(call(&svc, 3), Ok(3));
    assert_eq!(
        call(&svc, -3),
        Err(TimeoutError::Inner("negative -3".to_string()))
    );
}

#[test]
fn timeout_keeps_fast_result_and_drops_late_one() {
    let fast = TimeoutLayer::new(Some(Duration::from_secs(5))).layer(service_fn(echo));
    assert_eq!(call(&fast, 9), Ok(9));
    let slow = TimeoutLayer::new(Some(Duration::from_millis(10))).layer(service_fn(slow_echo));
    assert_eq!(call(&slow, 9), Err(TimeoutError::DeadlineExceeded));
}

#[test]
fn either_calls_only_the_present_branch() {
    let first = Rc::new(Cell::new(0u32));
    let second = Rc::new(Cell::new(0u32));
    let a: Either<Counter, Counter> = Either::A(Counter {
        calls: first.clone(),
        answer: 1,
    });
    assert_eq!(call(&a, 0), Ok(1));
    assert_eq!((first.get(), second.get()), (1, 0));
    let b: Either<Counter, Counter> = Either::B(Counter {
        calls: second.clone(),
        answer: 2,
    });
    assert_eq!(call(&b, 0), Ok(2));
    assert_eq!((first.get(), second.get()), (1, 1));
}

#[test]
fn option_layer_applies_present_layer() {
    let log = Rc::new(RefCell::new(Vec::new()));
    let with = option_layer(Some(layer_fn(log_layer("maybe", &log)))).layer(service_fn(echo));
    assert!(matches!(with, Either::A(_)));
    assert_eq!(call(&with, 1), Ok(1));
    assert_eq!(*log.borrow(), vec!["maybe before", "maybe after"]);
    let without = option_layer(None::<MapErrLayer<fn(String) -> String, String>>).layer(service_fn(echo));
    assert!(matches!(without, Either::B(_)));
}

#[test]
fn layers_push_in_order() {
    let log = Rc::new(RefCell::new(Vec::new()));
    let layers = Layers::new(layer_fn(log_layer("first", &log)))
        .push(layer_fn(log_layer("second", &log)))
        .push_optional(None::<Identity>);
    let svc = layers.layer(service_fn(echo));
    assert_eq!(call(&svc, 1), Ok(1));
    assert_eq!(
        *log.borrow(),
        vec!["second before", "first before", "first after", "second after"]
    );
}

fn answer(_cx: &mut Cx, _req: i32) -> Result<i32, String> {
    Ok(42)
}

fn late_answer(_cx: &mut Cx, _req: i32) -> Result<i32, String> {
    let start = Instant::now();
    while start.elapsed() < Duration::from_millis(100) {}
    Ok(42)
}

fn describe(e: TimeoutError<String>) -> String {
    match e.deadline_message() {
        Some(m) => m,
        None => match e {
            TimeoutError::Inner(s) => s,
            TimeoutError::DeadlineExceeded => unreachable!(),
        },
    }
}

#[test]
fn builder_end_to_end() {
    let svc = ServiceBuilder::new()
        .map_err(describe)
        .timeout(Some(Duration::from_millis(50)))
        .service_fn(answer);
    assert_eq!(call(&svc, 0), Ok(42));
    let late = ServiceBuilder::new()
        .map_err(describe)
        .timeout(Some(Duration::from_millis(50)))
        .service_fn(late_answer);
    assert_eq!(call(&late, 0), Err("service time out".to_string()));
}

#[test]
fn builder_option_layer_and_into_inner() {
    let log = Rc::new(RefCell::new(Vec::new()));
    let builder = ServiceBuilder::new().option_layer(Some(layer_fn(log_layer("opt", &log))));
    let svc = builder.service(service_fn(echo));
    assert_eq!(call(&svc, 5), Ok(5));
    assert_eq!(log.borrow().len(), 2);
    let inner = ServiceBuilder::new().timeout(None).into_inner();
    assert!(inner.inner.duration.is_none());
}

#[test]
fn builder_timeout_outermost_reports_deadline_message() {
    let late = ServiceBuilder::new()
        .timeout(Some(Duration::from_millis(50)))
        .layer(MapErrLayer::new(|e: String| e.to_string()))
        .service(service_fn(late_answer));
    let r = call(&late, 0);
    assert_eq!(r, Err(TimeoutError::DeadlineExceeded));
    assert_eq!(
        r.unwrap_err().deadline_message(),
        Some("service time out".to_string())
    );
    let fast = ServiceBuilder::new()
        .timeout(Some(Duration::from_millis(50)))
        .layer(MapErrLayer::new(|e: String| e.to_string()))
        .service(service_fn(answer));
    assert_eq!(call(&fast, 0), Ok(42));
}
