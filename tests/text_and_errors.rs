use h2o_k8s::error::Error;
use h2o_k8s::text::{decimal, parse_i64};

#[test]
fn decimal_text() {
    assert_eq!(decimal(0), "0");
    assert_eq!(decimal(7), "7");
    assert_eq!(decimal(90), "90");
    assert_eq!(decimal(54321), "54321");
    assert_eq!(decimal(u64::MAX), "18446744073709551615");
}

#[test]
fn parsing_integers() {
    assert_eq!(parse_i64("0"), Some(0));
    assert_eq!(parse_i64("101"), Some(101));
    assert_eq!(parse_i64("+5"), Some(5));
    assert_eq!(parse_i64("-12"), Some(-12));
    assert_eq!(parse_i64("007"), Some(7));
    assert_eq!(parse_i64("9223372036854775807"), Some(i64::MAX));
    assert_eq!(parse_i64("-9223372036854775808"), Some(i64::MIN));
    assert_eq!(parse_i64("9223372036854775808"), None);
    assert_eq!(parse_i64("99999999999999999999999"), None);
    assert_eq!(parse_i64(""), None);
    assert_eq!(parse_i64("-"), None);
    assert_eq!(parse_i64("12a"), None);
    assert_eq!(parse_i64(" 1"), None);
}

#[test]
fn error_messages() {
    assert_eq!(Error::KubeError("x".to_string()).message(), "Kubernetes reported error: x");
    assert_eq!(Error::UserError("y".to_string()).message(), "Kubernetes reported error: y");
    assert_eq!(Error::Timeout("t".to_string()).message(), "Operation timed out. Reason: t");
    assert_eq!(
        Error::TemplateSerializationError("s".to_string()).message(),
        "Failed to serialize template. Reason: s"
    );
    assert_eq!(Error::WatcherError("w".to_string()).message(), "Resource watch failed. Reason: w");
    assert_eq!(
        Error::DeploymentError("d".to_string()).message(),
        "Error during H2O subresources deployment: d"
    );
    assert_eq!(Error::ReqwestError("r".to_string()).message(), "Hyper error: r");
}
