use std::sync::atomic::{AtomicUsize, Ordering};
use std::sync::Arc;

use stub_registry::behavior::{Behavior, FnBehavior};
use stub_registry::count::take_call;
use stub_registry::error::MockError;
use stub_registry::mocker::Mocker;
use stub_registry::record::Record;
use stub_registry::stub::Stub;

const SIGNATURE: &str = "(usize, usize)";

fn doubling() -> Box<dyn Behavior<usize, usize>> {
    Box::new(FnBehavior::new(|x: usize| 2 * x))
}

#[test]
fn exactly_n_calls_of_n_succeed_and_settle() {
    for n in 0..6usize {
        let mut mocker = Mocker::new();
        let displaced =
            mocker.when::<usize, usize>("double", SIGNATURE).times(n).then(|x| 2 * x);
        assert!(displaced.is_none());
        for k in 0..n {
            let mut stub = mocker.get::<usize, usize>("double", SIGNATURE).unwrap();
            assert_eq!(stub.call(k), Ok(2 * k));
        }
        assert_eq!(mocker.finish(false), Ok(()));
    }
}

#[test]
fn call_after_the_nth_of_n_is_an_overcall() {
    for n in 0..6usize {
        let mut mocker = Mocker::new();
        let displaced =
            mocker.when::<usize, usize>("double", SIGNATURE).times(n).then(|x| 2 * x);
        assert!(displaced.is_none());
        let mut stub = mocker.get::<usize, usize>("double", SIGNATURE).unwrap();
        for k in 0..n {
            assert_eq!(stub.call(k), Ok(2 * k));
        }
        assert_eq!(stub.call(n), Err(MockError::Overcall { name: "double".to_string() }));
        assert_eq!(stub.call(n), Err(MockError::Overcall { name: "double".to_string() }));
        assert_eq!(mocker.finish(false), Ok(()));
    }
}

#[test]
fn fewer_than_n_calls_fail_only_at_teardown() {
    for n in 1..6usize {
        for calls in 0..n {
            let mut mocker = Mocker::new();
            let displaced =
                mocker.when::<usize, usize>("double", SIGNATURE).times(n).then(|x| 2 * x);
            assert!(displaced.is_none());
            for k in 0..calls {
                let mut stub = mocker.get::<usize, usize>("double", SIGNATURE).unwrap();
                assert_eq!(stub.call(k), Ok(2 * k));
            }
            assert_eq!(
                mocker.finish(false),
                Err(MockError::Undercall { name: "double".to_string(), missing: n - calls })
            );
        }
    }
}

#[test]
fn without_a_count_any_number_of_calls_succeeds() {
    for calls in [0usize, 1, 2, 17] {
        let mut mocker = Mocker::new();
        let displaced = mocker.when::<usize, usize>("double", SIGNATURE).then(|x| 2 * x);
        assert!(displaced.is_none());
        let mut stub = mocker.get::<usize, usize>("double", SIGNATURE).unwrap();
        for k in 0..calls {
            assert_eq!(stub.call(k), Ok(2 * k));
        }
        assert_eq!(mocker.finish(false), Ok(()));
    }
}

#[test]
fn a_count_of_zero_refuses_the_first_call_and_settles() {
    let mut mocker = Mocker::new();
    let displaced = mocker.when::<usize, usize>("never", SIGNATURE).times(0).then(|x| x);
    assert!(displaced.is_none());
    let mut stub = mocker.get::<usize, usize>("never", SIGNATURE).unwrap();
    assert_eq!(stub.call(1), Err(MockError::Overcall { name: "never".to_string() }));
    assert_eq!(mocker.finish(false), Ok(()));
}

#[test]
fn a_refused_call_does_not_invoke_the_behavior() {
    let invoked = Arc::new(AtomicUsize::new(0));
    let seen = Arc::clone(&invoked);
    let mut mocker = Mocker::new();
    let displaced = mocker.when::<(), ()>("tick", "((), ())").once().then(move |_| {
        seen.fetch_add(1, Ordering::SeqCst);
    });
    assert!(displaced.is_none());

    let mut stub = mocker.get::<(), ()>("tick", "((), ())").unwrap();
    assert_eq!(stub.call(()), Ok(()));
    assert_eq!(invoked.load(Ordering::SeqCst), 1);
    assert_eq!(stub.call(()), Err(MockError::Overcall { name: "tick".to_string() }));
    assert_eq!(stub.call(()), Err(MockError::Overcall { name: "tick".to_string() }));
    assert_eq!(invoked.load(Ordering::SeqCst), 1);
}

#[test]
fn take_call_counts_down_to_zero_and_stays_there() {
    let mut remaining = Some(2usize);
    assert!(take_call(&mut remaining));
    assert_eq!(remaining, Some(1));
    assert!(take_call(&mut remaining));
    assert_eq!(remaining, Some(0));
    assert!(!take_call(&mut remaining));
    assert_eq!(remaining, Some(0));

    let mut unconstrained: Option<usize> = None;
    assert!(take_call(&mut unconstrained));
    assert_eq!(unconstrained, None);
}

#[test]
fn a_stub_counts_in_the_place_it_was_given() {
    let name = "double".to_string();
    let behavior = doubling();
    let mut remaining = Some(2usize);
    {
        let mut stub = Stub { name: &name, remaining: &mut remaining, behavior: &behavior };
        assert_eq!(stub.call(21), Ok(42));
    }
    assert_eq!(remaining, Some(1));
    {
        let mut stub = Stub { name: &name, remaining: &mut remaining, behavior: &behavior };
        assert_eq!(stub.call(4), Ok(8));
        assert_eq!(stub.call(4), Err(MockError::Overcall { name: "double".to_string() }));
    }
    assert_eq!(remaining, Some(0));
}

#[test]
fn bind_accepts_the_registered_signature_with_a_behavior() {
    let behavior = doubling();
    let mut record = Record {
        name: "double".to_string(),
        signature: SIGNATURE.to_string(),
        remaining: Some(1),
    };
    {
        let mut stub = Stub::bind(&mut record, SIGNATURE, Some(&behavior)).unwrap();
        assert_eq!(stub.name, "double");
        assert_eq!(*stub.remaining, Some(1));
        assert_eq!(stub.call(5), Ok(10));
    }
    assert_eq!(record.remaining, Some(0));
    assert_eq!(record.name, "double");
    assert_eq!(record.signature, SIGNATURE);
}

#[test]
fn bind_refuses_another_signature() {
    let behavior = doubling();
    let mut record = Record {
        name: "double".to_string(),
        signature: SIGNATURE.to_string(),
        remaining: Some(1),
    };
    match Stub::bind(&mut record, "(u8, u8)", Some(&behavior)) {
        Ok(_) => panic!("a stub was bound under a signature it was not registered with"),
        Err(error) => assert_eq!(
            error,
            MockError::TypeMismatch {
                name: "double".to_string(),
                expected: SIGNATURE.to_string(),
                found: "(u8, u8)".to_string(),
            }
        ),
    }
    assert_eq!(record.remaining, Some(1));
}

#[test]
fn bind_refuses_a_payload_without_such_a_behavior() {
    let mut record = Record {
        name: "double".to_string(),
        signature: SIGNATURE.to_string(),
        remaining: None,
    };
    match Stub::<usize, usize>::bind(&mut record, SIGNATURE, None) {
        Ok(_) => panic!("a stub was bound without a behavior"),
        Err(error) => assert_eq!(
            error,
            MockError::TypeMismatch {
                name: "double".to_string(),
                expected: SIGNATURE.to_string(),
                found: SIGNATURE.to_string(),
            }
        ),
    }
    assert_eq!(record.remaining, None);
}
