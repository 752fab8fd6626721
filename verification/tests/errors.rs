use essrpc::GenericSerializableError;
use essrpc::RPCError;
use essrpc::RPCErrorKind;
use essrpc::textfmt::i64_to_string;
use essrpc::textfmt::u64_to_string;

#[test]
fn error_without_cause() {
    let e = RPCError::new(RPCErrorKind::Other, "boom".to_string());
    assert_eq!(e.kind, RPCErrorKind::Other);
    assert_eq!(e.message(), "boom");
    assert!(e.cause().is_none());
    assert_eq!(e.display_string(), "boom");
}

#[test]
fn error_with_cause_chain() {
    let inner = GenericSerializableError::new("disk full".to_string(), None);
    let outer = GenericSerializableError::new("write failed".to_string(), Some(inner));
    let e = RPCError::with_cause(RPCErrorKind::Other, "request failed".to_string(), outer);
    assert_eq!(e.kind, RPCErrorKind::Other);
    let c1 = e.cause().expect("a cause was attached");
    assert_eq!(c1.description(), "write failed");
    let c2 = c1.cause().expect("the cause has its own cause");
    assert_eq!(c2.description(), "disk full");
    assert!(c2.cause().is_none());
    assert_eq!(
        e.display_string(),
        "request failed caused by:\n write failed caused by:\n disk full"
    );
}

#[test]
fn from_dyn_builds_whole_chain() {
    let descriptions = vec![
        "top".to_string(),
        "middle".to_string(),
        "bottom".to_string(),
    ];
    let e = GenericSerializableError::from_dyn(&descriptions);
    assert_eq!(e.description(), "top");
    let c1 = e.cause().expect("depth two");
    assert_eq!(c1.description(), "middle");
    let c2 = c1.cause().expect("depth three");
    assert_eq!(c2.description(), "bottom");
    assert!(c2.cause().is_none());
    assert_eq!(e.display_string(), "top caused by:\n middle caused by:\n bottom");
}

#[test]
fn from_dyn_single_description() {
    let descriptions = vec!["alone".to_string()];
    let e = GenericSerializableError::from_dyn(&descriptions);
    assert_eq!(e.description(), "alone");
    assert!(e.cause().is_none());
    assert_eq!(e.display_string(), "alone");
}

#[test]
fn decimal_rendering() {
    assert_eq!(u64_to_string(0), "0");
    assert_eq!(u64_to_string(7), "7");
    assert_eq!(u64_to_string(12345), "12345");
    assert_eq!(u64_to_string(u64::MAX), "18446744073709551615");
    assert_eq!(i64_to_string(42), "42");
    assert_eq!(i64_to_string(0), "0");
    assert_eq!(i64_to_string(-7), "-7");
    assert_eq!(i64_to_string(i64::MIN), "-9223372036854775808");
    assert_eq!(i64_to_string(i64::MAX), "9223372036854775807");
}
