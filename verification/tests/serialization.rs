use seralizable_error::DecodeError;
use seralizable_error::LiveError;
use seralizable_error::PseudoError;
use seralizable_error::capture;
use seralizable_error::deserialize_error_bytes;
use seralizable_error::deserialize_error_string;
use seralizable_error::serialize_error_bytes;
use seralizable_error::serialize_error_string;

struct TestError;

struct TestCauseError(TestError);

/// A view over the two test error types, so that one `LiveError` implementor
/// can walk a chain that crosses from `TestCauseError` into `TestError`.
#[derive(Clone, Copy)]
enum ErrView<'a> {
    Lesser(&'a TestError),
    Greater(&'a TestCauseError),
}

impl<'a> LiveError for ErrView<'a> {
    fn description(&self) -> String {
        match self {
            ErrView::Lesser(_) => "Lesser description".to_string(),
            ErrView::Greater(_) => "Greater description".to_string(),
        }
    }

    fn display_text(&self) -> String {
        match self {
            ErrView::Lesser(_) => "Lesser display".to_string(),
            ErrView::Greater(_) => "Greater display".to_string(),
        }
    }

    fn cause(&self) -> Option<ErrView<'a>> {
        match self {
            ErrView::Lesser(_) => None,
            ErrView::Greater(e) => Some(ErrView::Lesser(&e.0)),
        }
    }
}

/// Helper for testing serialization generically.
///
/// Passes if err pseudo-equals errdeser, and both lack a cause.
fn help_test_ser_no_cause<A: LiveError, B: LiveError>(err: A, errdeser: B) {
    assert!(
        err.cause().is_none(),
        "Err has cause when cause should be none. Are you sure you are using this helper \
         function correctly?"
    );
    assert!(
        errdeser.cause().is_none(),
        "Errdeser gained cause during serialization."
    );
    assert!(
        err.description() == errdeser.description(),
        "Error descriptions did not match! err = {}, errdeser = {}",
        err.description(),
        errdeser.description()
    );
    let errdis = err.display_text();
    let errdeserdis = errdeser.display_text();
    assert!(
        errdis == errdeserdis,
        "Error displays did not match! err = {}, errdeser = {}",
        errdis,
        errdeserdis
    );
}

/// Helper for testing serialization generically.
///
/// Passes if err pseudo-equals errdeser, and both have a cause that also
/// pseudo-equals the other's. The causes of the causes should both be none.
fn help_test_ser_some_cause<A: LiveError, B: LiveError>(err: A, errdeser: B) {
    assert!(
        err.cause().is_some(),
        "Err lacked a cause. Are you sure you are using this helper function correctly?"
    );
    assert!(
        errdeser.cause().is_some(),
        "Errdeser.cause lost during serialization."
    );
    assert!(
        err.description() == errdeser.description(),
        "Error descriptions did not match! err = {}, errdeser = {}",
        err.description(),
        errdeser.description()
    );
    let errdis = err.display_text();
    let errdeserdis = errdeser.display_text();
    assert!(
        errdis == errdeserdis,
        "Error displays did not match! err = {}, errdeser = {}",
        errdis,
        errdeserdis
    );
    let cause = err.cause().unwrap();
    let desercause = errdeser.cause().unwrap();
    help_test_ser_no_cause(cause, desercause);
}

#[test]
fn serialize_error_bytes_no_cause() {
    let err = TestError;
    let bytes = serialize_error_bytes(&ErrView::Lesser(&err));
    let errdeser = deserialize_error_bytes(&bytes).expect("Error while deserializing.");
    help_test_ser_no_cause(ErrView::Lesser(&err), &errdeser);
}

#[test]
fn serialize_error_string_no_cause() {
    let err = TestError;
    let text = serialize_error_string(&ErrView::Lesser(&err));
    let errdeser = deserialize_error_string(&text).expect("Error while deserializing.");
    help_test_ser_no_cause(ErrView::Lesser(&err), &errdeser);
}

#[test]
fn serialize_error_bytes_some_cause() {
    let err = TestCauseError(TestError);
    let bytes = serialize_error_bytes(&ErrView::Greater(&err));
    let errdeser = deserialize_error_bytes(&bytes).expect("Error while deserializing.");
    help_test_ser_some_cause(ErrView::Greater(&err), &errdeser);
}

#[test]
fn serialize_error_string_some_cause() {
    let err = TestCauseError(TestError);
    let text = serialize_error_string(&ErrView::Greater(&err));
    let errdeser = deserialize_error_string(&text).expect("Error while deserializing.");
    help_test_ser_some_cause(ErrView::Greater(&err), &errdeser);
}

#[test]
fn scenario_text_lesser() {
    let err = TestError;
    let text = serialize_error_string(&ErrView::Lesser(&err));
    let node = deserialize_error_string(&text).expect("Error while deserializing.");
    let node_ref = &node;
    assert_eq!(node_ref.description(), "Lesser description");
    assert_eq!(node_ref.display_text(), "Lesser display");
    assert!(node_ref.cause().is_none());
}

#[test]
fn scenario_bytes_greater() {
    let err = TestCauseError(TestError);
    let bytes = serialize_error_bytes(&ErrView::Greater(&err));
    let node = deserialize_error_bytes(&bytes).expect("Error while deserializing.");
    let node_ref = &node;
    assert_eq!(node_ref.description(), "Greater description");
    assert_eq!(node_ref.display_text(), "Greater display");
    let cause = node_ref.cause().expect("Cause lost during serialization.");
    assert_eq!(cause.description(), "Lesser description");
    assert_eq!(cause.display_text(), "Lesser display");
    assert!(cause.cause().is_none());
}

#[test]
fn capture_is_idempotent() {
    let err = TestCauseError(TestError);
    let once = capture(&ErrView::Greater(&err));
    let twice = capture(&ErrView::Greater(&err));
    assert!(once.equivalent_to(&twice));
}

#[test]
fn capture_reads_the_chain() {
    let err = TestCauseError(TestError);
    let snap = capture(&ErrView::Greater(&err));
    let snap_ref = &snap;
    assert_eq!(snap_ref.description(), "Greater description");
    assert_eq!(snap_ref.display_text(), "Greater display");
    let cause = snap_ref.cause().expect("Capture lost the cause.");
    assert_eq!(cause.description(), "Lesser description");
    assert!(cause.cause().is_none());
}

#[test]
fn equivalence_distinguishes_chains() {
    let lesser = capture(&ErrView::Lesser(&TestError));
    let greater = capture(&ErrView::Greater(&TestCauseError(TestError)));
    assert!(lesser.equivalent_to(&lesser));
    assert!(!lesser.equivalent_to(&greater));
    assert!(!greater.equivalent_to(&lesser));
}

fn reencodes_to_equivalent_tree(tree: &PseudoError) -> bool {
    let bytes = serialize_error_bytes(&tree);
    match deserialize_error_bytes(&bytes) {
        Ok(again) => tree.equivalent_to(&again),
        Err(_) => false,
    }
}

#[test]
fn corrupt_bytes_never_panic() {
    let err = TestCauseError(TestError);
    let bytes = serialize_error_bytes(&ErrView::Greater(&err));
    for i in 0..bytes.len() {
        let mut mutated = bytes.clone();
        mutated[i] = mutated[i].wrapping_add(1);
        match deserialize_error_bytes(&mutated) {
            Ok(tree) => {
                assert!(reencodes_to_equivalent_tree(&tree));
            }
            Err(DecodeError::Malformed(_)) => {}
            Err(DecodeError::EmptyChain) => {}
        }
    }
}

#[test]
fn corrupt_text_never_panics() {
    let err = TestCauseError(TestError);
    let text = serialize_error_string(&ErrView::Greater(&err));
    for i in 0..text.len() {
        let mut mutated: Vec<char> = text.chars().collect();
        mutated[i] = if mutated[i] == 'X' { 'Y' } else { 'X' };
        let mutated: String = mutated.into_iter().collect();
        match deserialize_error_string(&mutated) {
            Ok(tree) => {
                assert!(reencodes_to_equivalent_tree(&tree));
            }
            Err(DecodeError::Malformed(_)) => {}
            Err(DecodeError::EmptyChain) => {}
        }
    }
}

#[test]
fn truncated_bytes_fail_to_decode() {
    let err = TestError;
    let bytes = serialize_error_bytes(&ErrView::Lesser(&err));
    let truncated = &bytes[..bytes.len() - 1];
    assert!(matches!(
        deserialize_error_bytes(truncated),
        Err(DecodeError::Malformed(_))
    ));
}

#[test]
fn garbage_bytes_fail_to_decode() {
    let garbage: Vec<u8> = vec![0xff, 0xff, 0xff];
    assert!(matches!(
        deserialize_error_bytes(&garbage),
        Err(DecodeError::Malformed(_))
    ));
}

#[test]
fn garbage_text_fails_to_decode() {
    assert!(matches!(
        deserialize_error_string("not json at all"),
        Err(DecodeError::Malformed(_))
    ));
}

#[test]
fn empty_record_list_bytes_fail_to_decode() {
    let empty: Vec<(String, String)> = Vec::new();
    let bytes = bincode::serialize(&empty).expect("Error while serializing.");
    assert!(matches!(
        deserialize_error_bytes(&bytes),
        Err(DecodeError::EmptyChain)
    ));
}

#[test]
fn empty_record_list_text_fails_to_decode() {
    assert!(matches!(
        deserialize_error_string("[]"),
        Err(DecodeError::EmptyChain)
    ));
}
