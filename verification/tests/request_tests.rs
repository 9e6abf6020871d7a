use restaff_claim::requests::app_id_header;
use restaff_claim::requests::build_claim_body;
use restaff_claim::requests::build_login_body;
use restaff_claim::requests::claim_url;
use restaff_claim::requests::default_api_server;
use restaff_claim::requests::login_url;
use restaff_claim::requests::user_agent;
use restaff_claim::text::split_once;

#[test]
fn login_body_is_exact() {
    let body = build_login_body("bob", "pw");
    assert_eq!(
        body,
        r#"{"UserName":"bob","PassWord":"","Password":"pw","pushToken":"","platform":"Web","deviceId":"Windows-Firefox-88.0"}"#
    );
}

#[test]
fn login_body_interpolates_verbatim() {
    // Credentials are inserted without escaping, exactly as the server
    // expects them.
    let body = build_login_body("a\"b", "p w");
    assert_eq!(
        body,
        r#"{"UserName":"a"b","PassWord":"","Password":"p w","pushToken":"","platform":"Web","deviceId":"Windows-Firefox-88.0"}"#
    );
}

#[test]
fn urls_are_base_plus_path() {
    assert_eq!(login_url("https://x"), "https://x/api/user/login");
    assert_eq!(claim_url("https://x"), "https://x/api/user/claim-daily");
    assert_eq!(
        login_url(default_api_server()),
        "https://api-staff.netjob.asia/api/user/login"
    );
}

#[test]
fn claim_body_is_plain_decimal() {
    assert_eq!(build_claim_body(0), "0");
    assert_eq!(build_claim_body(3), "3");
    assert_eq!(build_claim_body(5), "5");
    assert_eq!(build_claim_body(255), "255");
}

#[test]
fn fixed_header_values() {
    assert_eq!(app_id_header(), "c03714075869519a54ba70e31d6751c3");
    assert_eq!(
        user_agent(),
        "Mozilla/5.0 (Windows NT 10.0; Win64; x64; rv:88.0) Gecko/20100101 Firefox/88.0"
    );
}

#[test]
fn split_once_splits_at_first_separator() {
    assert_eq!(split_once("a:b", ":"), Some(("a", "b")));
    assert_eq!(split_once("a:b:c", ":"), Some(("a", "b:c")));
    assert_eq!(split_once(":b", ":"), Some(("", "b")));
    assert_eq!(split_once("a:", ":"), Some(("a", "")));
    assert_eq!(split_once("ab", ":"), None);
    assert_eq!(split_once("", ":"), None);
}
