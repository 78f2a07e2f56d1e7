use stub_registry::error::MockError;

fn undercall(missing: usize) -> String {
    MockError::Undercall { name: "save".to_string(), missing }.message()
}

#[test]
fn each_failure_names_its_stub() {
    let overcall = MockError::Overcall { name: "fetch".to_string() };
    assert_eq!(overcall.name(), "fetch");
    assert_eq!(overcall.message(), "fetch called too many times");

    let unregistered = MockError::Unregistered { name: "missing".to_string() };
    assert_eq!(unregistered.name(), "missing");
    assert_eq!(unregistered.message(), "unexpected call to missing");

    let mismatch = MockError::TypeMismatch {
        name: "fetch".to_string(),
        expected: "((), i32)".to_string(),
        found: "((), u8)".to_string(),
    };
    assert_eq!(mismatch.name(), "fetch");
    assert_eq!(
        mismatch.message(),
        "fetch called with unexpected type:\n expected ((), i32), found ((), u8) instead."
    );

    let undercall = MockError::Undercall { name: "save".to_string(), missing: 2 };
    assert_eq!(undercall.name(), "save");
    assert_eq!(undercall.message(), "save not called enough times: 2 more expected");
}

#[test]
fn a_mismatch_under_one_signature_says_that_the_types_differ() {
    let mismatch = MockError::TypeMismatch {
        name: "fetch".to_string(),
        expected: "((), i32)".to_string(),
        found: "((), i32)".to_string(),
    };
    assert_eq!(
        mismatch.message(),
        "fetch called with unexpected type:\n expected ((), i32), \
         found other types under the same signature instead."
    );
}

#[test]
fn the_missing_calls_are_written_in_decimal() {
    assert_eq!(undercall(1), "save not called enough times: 1 more expected");
    assert_eq!(undercall(9), "save not called enough times: 9 more expected");
    assert_eq!(undercall(10), "save not called enough times: 10 more expected");
    assert_eq!(undercall(109), "save not called enough times: 109 more expected");
    assert_eq!(undercall(65536), "save not called enough times: 65536 more expected");
    assert_eq!(
        undercall(usize::MAX),
        format!("save not called enough times: {} more expected", usize::MAX)
    );
}

#[test]
fn a_name_may_be_empty_or_hold_any_character() {
    assert_eq!(MockError::Unregistered { name: String::new() }.message(), "unexpected call to ");
    assert_eq!(
        MockError::Overcall { name: "données::écrire".to_string() }.message(),
        "données::écrire called too many times"
    );
}
