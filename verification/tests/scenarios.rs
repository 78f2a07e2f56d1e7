use stub_registry::error::MockError;
use stub_registry::mocker::Mocker;

const UNIT_TO_INT: &str = "((), i32)";
const UNIT_TO_TEXT: &str = "((), &str)";
const INT_TO_UNIT: &str = "(u32, ())";

#[test]
fn once_returns_the_registered_value_and_settles() {
    let mut mocker = Mocker::new();
    let displaced = mocker.when::<(), i32>("fetch", UNIT_TO_INT).once().then(|_| 42);
    assert!(displaced.is_none());

    let mut stub = mocker.get::<(), i32>("fetch", UNIT_TO_INT).unwrap();
    assert_eq!(stub.call(()), Ok(42));

    assert_eq!(mocker.finish(false), Ok(()));
}

#[test]
fn third_call_of_two_is_an_overcall() {
    let mut mocker = Mocker::new();
    let displaced =
        mocker.when::<(), &'static str>("fetch", UNIT_TO_TEXT).times(2).then(|_| "ok");
    assert!(displaced.is_none());

    let mut stub = mocker.get::<(), &'static str>("fetch", UNIT_TO_TEXT).unwrap();
    assert_eq!(stub.call(()), Ok("ok"));
    assert_eq!(stub.call(()), Ok("ok"));
    let third = stub.call(());
    assert_eq!(third, Err(MockError::Overcall { name: "fetch".to_string() }));
    assert_eq!(third.unwrap_err().message(), "fetch called too many times");
}

#[test]
fn third_call_of_two_is_an_overcall_with_a_retrieval_for_each_call() {
    let mut mocker = Mocker::new();
    let displaced =
        mocker.when::<(), &'static str>("fetch", UNIT_TO_TEXT).times(2).then(|_| "ok");
    assert!(displaced.is_none());

    assert_eq!(mocker.get::<(), &'static str>("fetch", UNIT_TO_TEXT).unwrap().call(()), Ok("ok"));
    assert_eq!(mocker.get::<(), &'static str>("fetch", UNIT_TO_TEXT).unwrap().call(()), Ok("ok"));
    assert_eq!(
        mocker.get::<(), &'static str>("fetch", UNIT_TO_TEXT).unwrap().call(()),
        Err(MockError::Overcall { name: "fetch".to_string() })
    );
    assert_eq!(mocker.finish(false), Ok(()));
}

#[test]
fn one_call_of_three_leaves_two_missing_at_teardown() {
    let mut mocker = Mocker::new();
    let displaced = mocker.when::<u32, ()>("save", INT_TO_UNIT).times(3).then(|_| ());
    assert!(displaced.is_none());

    assert_eq!(mocker.get::<u32, ()>("save", INT_TO_UNIT).unwrap().call(7), Ok(()));

    let outcome = mocker.finish(false);
    assert_eq!(outcome, Err(MockError::Undercall { name: "save".to_string(), missing: 2 }));
    let error = outcome.unwrap_err();
    assert_eq!(error.name(), "save");
    assert_eq!(error.message(), "save not called enough times: 2 more expected");
}

#[test]
fn retrieval_of_a_name_never_registered_is_an_unexpected_call() {
    let mut mocker = Mocker::new();
    let outcome = mocker.get::<(), i32>("missing", UNIT_TO_INT);
    match outcome {
        Ok(_) => panic!("a stub was handed out for a name never registered"),
        Err(error) => {
            assert_eq!(error, MockError::Unregistered { name: "missing".to_string() });
            assert_eq!(error.message(), "unexpected call to missing");
        }
    }
}
