use bitcoind_client::simple_http::{check_fee_estimate, cookie_user_pass, Auth};
use bitcoind_client::Error;

#[test]
fn cookie_splits_at_the_first_colon() {
    let (user, pass) = cookie_user_pass(Some("__cookie__:abc:def")).unwrap();
    assert_eq!(user, "__cookie__");
    assert_eq!(pass, "abc:def");
    let (user, pass) = cookie_user_pass(Some(":")).unwrap();
    assert_eq!(user, "");
    assert_eq!(pass, "");
    let (user, pass) = cookie_user_pass(Some("ünï:cödé")).unwrap();
    assert_eq!(user, "ünï");
    assert_eq!(pass, "cödé");
}

#[test]
fn cookie_without_colon_or_line_is_invalid() {
    assert!(matches!(cookie_user_pass(Some("nocolon")), Err(Error::InvalidCookieFile)));
    assert!(matches!(cookie_user_pass(Some("")), Err(Error::InvalidCookieFile)));
    assert!(matches!(cookie_user_pass(None), Err(Error::InvalidCookieFile)));
}

#[test]
fn fee_estimate_reports_the_first_error() {
    let errors = Some(vec!["Insufficient data".to_string(), "second".to_string()]);
    match check_fee_estimate(&errors, true) {
        Err(Error::Returned(e)) => assert_eq!(e, "Insufficient data"),
        other => panic!("unexpected {other:?}"),
    }
}

#[test]
fn fee_estimate_without_rate_is_an_error() {
    match check_fee_estimate(&Some(vec![]), false) {
        Err(Error::Returned(e)) => assert_eq!(e, "estimatesmartfee returned no fee_rate"),
        other => panic!("unexpected {other:?}"),
    }
    assert!(check_fee_estimate(&None, true).is_ok());
    assert!(check_fee_estimate(&Some(vec![]), true).is_ok());
}

#[test]
fn auth_variants() {
    let auth = Auth::UserPass("u".to_string(), "p".to_string());
    assert!(matches!(auth, Auth::UserPass(ref u, ref p) if u == "u" && p == "p"));
    let auth = Auth::CookieFile(std::path::PathBuf::from("/tmp/.cookie"));
    assert!(matches!(auth, Auth::CookieFile(_)));
}

#[test]
fn auth_clone_is_equal() {
    let auth = Auth::UserPass("u".to_string(), "p".to_string());
    assert!(matches!(auth.clone(), Auth::UserPass(u, p) if u == "u" && p == "p"));
    let auth = Auth::CookieFile(std::path::PathBuf::from("/tmp/.cookie"));
    assert!(matches!(auth.clone(), Auth::CookieFile(p) if p == std::path::PathBuf::from("/tmp/.cookie")));
}
