use serde_json::Value;
use waitlist::email::{
    classify_confirmation, classify_contact, confirmation_body, confirmation_request, contact_body,
    contact_request, parse_id, sender_name, settle_confirmation, settle_contact, Fault, Header,
    Outcome, Reply, CONTACTS_URL, DEFAULT_SENDER_NAME, EMAIL_URL, OUTBOUND_TIMEOUT_SECS,
};

fn json(text: &str) -> Value {
    serde_json::from_str(text).unwrap()
}

fn answered(status: u16, body: &str) -> Reply {
    Reply::Answered { status, body: body.to_string() }
}

#[test]
fn contact_body_with_state_and_list() {
    let body = contact_body("a@x.com", "US", Some("CA"), Some("12"));
    assert_eq!(
        body,
        json(
            r#"{"email":"a@x.com","attributes":{"COUNTRY":"US","STATE":"CA"},"updateEnabled":true,"listIds":[12]}"#
        )
    );
}

#[test]
fn contact_body_without_state() {
    let body = contact_body("a@x.com", "US", None, Some("12"));
    assert_eq!(
        body,
        json(r#"{"email":"a@x.com","attributes":{"COUNTRY":"US"},"updateEnabled":true,"listIds":[12]}"#)
    );
    assert!(body["attributes"].get("STATE").is_none());
}

#[test]
fn contact_body_without_list() {
    let expected = json(r#"{"email":"a@x.com","attributes":{"COUNTRY":"US"},"updateEnabled":true}"#);
    assert_eq!(contact_body("a@x.com", "US", None, None), expected);
    assert_eq!(contact_body("a@x.com", "US", None, Some("")), expected);
    assert_eq!(contact_body("a@x.com", "US", None, Some("main")), expected);
    assert_eq!(contact_body("a@x.com", "US", None, Some("1.5")), expected);
    assert_eq!(contact_body("a@x.com", "US", None, Some(" 3")), expected);
}

#[test]
fn contact_body_is_an_object_of_its_own() {
    let body = contact_body("a@x.com", "US", Some("CA"), Some("-4"));
    assert_eq!(body.to_string(), r#"{"attributes":{"COUNTRY":"US","STATE":"CA"},"email":"a@x.com","listIds":[-4],"updateEnabled":true}"#);
    assert!(body.is_object());
    assert_eq!(body["email"], Value::from("a@x.com"));
    assert_eq!(body["updateEnabled"], Value::from(true));
    assert_eq!(body["listIds"], Value::from(vec![-4i64]));
    assert_eq!(body.as_object().unwrap().len(), 4);
}

#[test]
fn contact_body_keeps_text_as_it_is() {
    let body = contact_body("A@X.com", "C\u{f4}te d'Ivoire", Some("\"q\""), None);
    assert_eq!(body["email"].as_str(), Some("A@X.com"));
    assert_eq!(body["attributes"]["COUNTRY"].as_str(), Some("C\u{f4}te d'Ivoire"));
    assert_eq!(body["attributes"]["STATE"].as_str(), Some("\"q\""));
}

#[test]
fn confirmation_body_with_template() {
    let body = confirmation_body("a@x.com", "Team", "team@x.com", Some("7"));
    assert_eq!(
        body,
        json(r#"{"sender":{"name":"Team","email":"team@x.com"},"to":[{"email":"a@x.com"}],"templateId":7}"#)
    );
    assert!(body.get("subject").is_none());
    assert!(body.get("htmlContent").is_none());
}

#[test]
fn confirmation_body_without_template() {
    let expected = json(
        r#"{"sender":{"name":"Team","email":"team@x.com"},"to":[{"email":"a@x.com"}],"subject":"Welcome to the list!","htmlContent":"<html><body><h1>You are on the list!</h1><p>Thank you for joining our waitlist.</p></body></html>"}"#,
    );
    assert_eq!(confirmation_body("a@x.com", "Team", "team@x.com", None), expected);
    assert_eq!(confirmation_body("a@x.com", "Team", "team@x.com", Some("")), expected);
    assert_eq!(confirmation_body("a@x.com", "Team", "team@x.com", Some("welcome")), expected);
    assert!(expected.get("templateId").is_none());
}

#[test]
fn parse_id_reads_only_integers() {
    assert_eq!(parse_id(Some("15")), Some(15));
    assert_eq!(parse_id(Some("-15")), Some(-15));
    assert_eq!(parse_id(Some("")), None);
    assert_eq!(parse_id(Some("x")), None);
    assert_eq!(parse_id(None), None);
}

#[test]
fn sender_name_falls_back_to_the_default() {
    assert_eq!(sender_name(Some("Ops")), "Ops");
    assert_eq!(sender_name(Some("")), "");
    assert_eq!(sender_name(None), "Waitlist Team");
    assert_eq!(DEFAULT_SENDER_NAME, "Waitlist Team");
}

#[test]
fn contact_request_is_shaped_for_the_contacts_api() {
    let request = contact_request("key-1", "a@x.com", "US", Some("CA"), Some("3"));
    assert_eq!(request.method, "POST");
    assert_eq!(request.url, "https://api.brevo.com/v3/contacts");
    assert_eq!(request.url, CONTACTS_URL);
    assert_eq!(
        request.headers,
        vec![
            Header { name: "api-key".to_string(), value: "key-1".to_string() },
            Header { name: "content-type".to_string(), value: "application/json".to_string() },
        ]
    );
    assert_eq!(request.body, contact_body("a@x.com", "US", Some("CA"), Some("3")));
    assert_eq!(request.timeout_secs, OUTBOUND_TIMEOUT_SECS);
    assert_eq!(request.timeout_secs, 10);
}

#[test]
fn confirmation_request_is_shaped_for_the_email_api() {
    let request = confirmation_request("key-1", "a@x.com", "Team", "team@x.com", None);
    assert_eq!(request.method, "POST");
    assert_eq!(request.url, "https://api.brevo.com/v3/smtp/email");
    assert_eq!(request.url, EMAIL_URL);
    assert_eq!(
        request.headers,
        vec![Header { name: "api-key".to_string(), value: "key-1".to_string() }]
    );
    assert_eq!(request.body, confirmation_body("a@x.com", "Team", "team@x.com", None));
    assert_eq!(request.timeout_secs, 10);
}

#[test]
fn contact_reply_in_the_2xx_range_is_a_success() {
    assert_eq!(classify_contact(&answered(200, "")), Outcome::Success);
    assert_eq!(classify_contact(&answered(201, "{\"id\":1}")), Outcome::Success);
    assert_eq!(classify_contact(&answered(204, "")), Outcome::Success);
    assert_eq!(classify_contact(&answered(299, "duplicate_parameter")), Outcome::Success);
}

#[test]
fn contact_reply_with_the_duplicate_marker_is_the_recognized_conflict() {
    let body = r#"{"code":"duplicate_parameter","message":"Contact already exist"}"#;
    assert_eq!(classify_contact(&answered(400, body)), Outcome::RecognizedConflict);
    assert_eq!(classify_contact(&answered(400, "duplicate_parameter")), Outcome::RecognizedConflict);
}

#[test]
fn contact_reply_of_any_other_kind_is_a_failure() {
    assert_eq!(classify_contact(&answered(400, "")), Outcome::Failure(Fault::Refused(400)));
    assert_eq!(
        classify_contact(&answered(400, r#"{"code":"invalid_parameter"}"#)),
        Outcome::Failure(Fault::Refused(400))
    );
    assert_eq!(
        classify_contact(&answered(409, "duplicate_parameter")),
        Outcome::Failure(Fault::Refused(409))
    );
    assert_eq!(classify_contact(&answered(401, "")), Outcome::Failure(Fault::Refused(401)));
    assert_eq!(classify_contact(&answered(500, "")), Outcome::Failure(Fault::Refused(500)));
    assert_eq!(classify_contact(&answered(199, "")), Outcome::Failure(Fault::Refused(199)));
    assert_eq!(classify_contact(&answered(300, "")), Outcome::Failure(Fault::Refused(300)));
    assert_eq!(classify_contact(&answered(0, "")), Outcome::Failure(Fault::Refused(0)));
    assert_eq!(classify_contact(&answered(65535, "")), Outcome::Failure(Fault::Refused(65535)));
    assert_eq!(classify_contact(&Reply::Unreachable), Outcome::Failure(Fault::Unreachable));
}

#[test]
fn confirmation_reply_is_a_success_only_in_the_2xx_range() {
    assert_eq!(classify_confirmation(&answered(200, "")), Outcome::Success);
    assert_eq!(classify_confirmation(&answered(201, "{}")), Outcome::Success);
    assert_eq!(classify_confirmation(&answered(299, "")), Outcome::Success);
    assert_eq!(classify_confirmation(&answered(199, "")), Outcome::Failure(Fault::Refused(199)));
    assert_eq!(classify_confirmation(&answered(302, "")), Outcome::Failure(Fault::Refused(302)));
    assert_eq!(
        classify_confirmation(&answered(400, "duplicate_parameter")),
        Outcome::Failure(Fault::Refused(400))
    );
    assert_eq!(classify_confirmation(&answered(502, "")), Outcome::Failure(Fault::Refused(502)));
    assert_eq!(classify_confirmation(&Reply::Unreachable), Outcome::Failure(Fault::Unreachable));
}

#[test]
fn contact_step_ends_well_on_every_answered_reply() {
    assert_eq!(settle_contact(&answered(201, "{}")), Ok(()));
    assert_eq!(settle_contact(&answered(400, r#"{"code":"duplicate_parameter"}"#)), Ok(()));
    assert_eq!(settle_contact(&answered(500, "oops")), Ok(()));
    assert_eq!(settle_contact(&answered(400, "")), Ok(()));
    assert_eq!(settle_contact(&answered(401, "unauthorized")), Ok(()));
    assert_eq!(settle_contact(&answered(302, "")), Ok(()));
    assert_eq!(settle_contact(&answered(0, "")), Ok(()));
}

#[test]
fn contact_step_ends_with_a_fault_only_when_nothing_came_back() {
    assert_eq!(settle_contact(&Reply::Unreachable), Err(Fault::Unreachable));
}

#[test]
fn recognized_conflict_settles_as_a_success_does() {
    let conflict = answered(400, r#"{"code":"duplicate_parameter"}"#);
    let success = answered(201, "{}");
    assert_eq!(classify_contact(&conflict), Outcome::RecognizedConflict);
    assert_eq!(classify_contact(&success), Outcome::Success);
    assert_eq!(settle_contact(&conflict), settle_contact(&success));
    assert_eq!(settle_contact(&conflict), Ok(()));
}

#[test]
fn confirmation_step_keeps_the_fault_of_every_reply_but_a_success() {
    assert_eq!(settle_confirmation(&answered(200, "")), Ok(()));
    assert_eq!(settle_confirmation(&answered(201, "{}")), Ok(()));
    assert_eq!(settle_confirmation(&answered(299, "")), Ok(()));
    assert_eq!(settle_confirmation(&answered(500, "oops")), Err(Fault::Refused(500)));
    assert_eq!(
        settle_confirmation(&answered(400, "duplicate_parameter")),
        Err(Fault::Refused(400))
    );
    assert_eq!(settle_confirmation(&answered(302, "")), Err(Fault::Refused(302)));
    assert_eq!(settle_confirmation(&Reply::Unreachable), Err(Fault::Unreachable));
}
