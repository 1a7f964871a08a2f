use std::time::Duration;
use victorops::client::{CONTACT_KIND_REQUIRED, TEAM_NAME_REQUIRED, USERNAME_REQUIRED};
use victorops::request::{finish_exchange, Method, PreparedRequest};
use victorops::types::{Contact, ContactType, Team, User};
use victorops::{Client, Error};

const BASE: &str = "https://api.victorops.com";

fn create_test_client() -> Client {
    Client::new("test-api-id".to_string(), "test-api-key".to_string(), BASE.to_string()).unwrap()
}

fn url(endpoint: &str) -> String {
    format!("{}/api-public/{}", BASE, endpoint)
}

fn expect_plan(p: &PreparedRequest, method: Method, endpoint: &str, body: &str) {
    assert_eq!(p.method, method);
    assert_eq!(p.url, url(endpoint));
    assert_eq!(p.body, body);
    assert_eq!(
        p.headers,
        vec![
            ("X-VO-Api-Id".to_string(), "test-api-id".to_string()),
            ("X-VO-Api-Key".to_string(), "test-api-key".to_string()),
            ("Content-Type".to_string(), "application/json".to_string()),
        ]
    );
}

fn user(username: Option<&str>) -> User {
    User {
        first_name: Some("John".to_string()),
        last_name: Some("Updated".to_string()),
        username: username.map(|s| s.to_string()),
        email: Some("john.updated@example.com".to_string()),
        admin: None,
        expiration_hours: None,
        created_at: None,
        password_last_updated: None,
        verified: None,
    }
}

fn team(name: Option<&str>) -> Team {
    Team {
        name: name.map(|s| s.to_string()),
        slug: Some("updated-team".to_string()),
        member_count: None,
        version: None,
        is_default_team: None,
    }
}

fn contact(phone: Option<&str>, email: Option<&str>) -> Contact {
    Contact {
        phone_number: phone.map(|s| s.to_string()),
        email: email.map(|s| s.to_string()),
        label: Some("Invalid Contact".to_string()),
        rank: Some(1),
        ext_id: None,
        id: Some(123),
        value: None,
        verified: None,
    }
}

#[test]
fn test_client_creation() {
    let client = create_test_client();
    assert_eq!(client.pub_base_url, "https://api.victorops.com");
    assert_eq!(client.api_id, "test-api-id");
    assert_eq!(client.api_key, "test-api-key");
}

#[test]
fn test_client_with_timeout() {
    let client = Client::with_timeout(
        "test-api-id".to_string(),
        "test-api-key".to_string(),
        "https://api.victorops.com".to_string(),
        Duration::from_secs(60),
    )
    .unwrap();

    assert_eq!(client.pub_base_url, "https://api.victorops.com");
    assert_eq!(client.timeout, Some(Duration::from_secs(60)));
}

#[test]
fn test_client_display() {
    let client = create_test_client();
    let display_string = client.description();
    assert!(display_string.contains("VictorOps Client"));
    assert!(display_string.contains("https://api.victorops.com"));
    assert_eq!(display_string, "VictorOps Client: publicBaseURL: https://api.victorops.com");
}

#[test]
fn incident_request_renders_the_identifier() {
    let client = create_test_client();
    let p = client.get_incident_request(123).unwrap();
    expect_plan(&p, Method::Get, "v1/incidents/123", "{}");
    assert!(p.query.is_empty());
    let p = client.get_incident_request(-7).unwrap();
    assert_eq!(p.url, url("v1/incidents/-7"));
    let p = client.get_incident_request(i32::MIN).unwrap();
    assert_eq!(p.url, url("v1/incidents/-2147483648"));
    let p = client.get_incident_request(0).unwrap();
    assert_eq!(p.url, url("v1/incidents/0"));
}

#[test]
fn list_requests_use_fixed_paths() {
    let client = create_test_client();
    expect_plan(&client.get_incidents_request().unwrap(), Method::Get, "v1/incidents", "{}");
    expect_plan(&client.get_all_users_request().unwrap(), Method::Get, "v1/user", "{}");
    expect_plan(&client.get_all_users_v2_request().unwrap(), Method::Get, "v2/user", "{}");
    expect_plan(&client.get_all_teams_request().unwrap(), Method::Get, "v1/team", "{}");
    expect_plan(&client.get_all_escalation_policies_request().unwrap(), Method::Get, "v1/policies", "{}");
    expect_plan(&client.get_all_routing_keys_request().unwrap(), Method::Get, "v1/org/routing-keys", "{}");
}

#[test]
fn username_path_segments_are_form_encoded() {
    let client = create_test_client();
    let p = client.get_user_request("test@example.com").unwrap();
    expect_plan(&p, Method::Get, "v1/user/test%40example.com", "{}");
    let p = client.get_all_contacts_request("a b/c").unwrap();
    assert_eq!(p.url, url("v1/user/a+b%2Fc/contact-methods"));
    let p = client.get_user_default_email_contact_id_request("test@example.com").unwrap();
    assert_eq!(p.url, url("v1/user/test%40example.com/contact-methods/emails"));
    let p = client.get_user_request("jos\u{e9}").unwrap();
    assert_eq!(p.url, url("v1/user/jos%C3%A9"));
    let p = client.get_user_request("a*b-c.d_e").unwrap();
    assert_eq!(p.url, url("v1/user/a*b-c.d_e"));
    let p = client.get_user_request("x/y?z#&=").unwrap();
    assert_eq!(p.url, url("v1/user/x%2Fy%3Fz%23%26%3D"));
}

#[test]
fn user_requests_carry_bodies() {
    let client = create_test_client();
    let p = client.delete_user_request("testuser", "replacement_user").unwrap();
    expect_plan(&p, Method::Delete, "v1/user/testuser", "{\"replacement\":\"replacement_user\"}");
    let p = client.create_user_request("{\"username\":\"jdoe\"}".to_string()).unwrap();
    expect_plan(&p, Method::Post, "v1/user", "{\"username\":\"jdoe\"}");
}

#[test]
fn user_by_email_sends_a_query_parameter() {
    let client = create_test_client();
    let p = client.get_user_by_email_request("jane@example.com").unwrap();
    expect_plan(&p, Method::Get, "v2/user", "{}");
    assert_eq!(p.query, vec![("email".to_string(), "jane@example.com".to_string())]);
}

#[test]
fn update_user_requires_a_username() {
    let client = create_test_client();
    match client.update_user_request(&user(None), "{}".to_string()) {
        Err(Error::InvalidInput(m)) => assert_eq!(m, USERNAME_REQUIRED),
        other => panic!("expected InvalidInput, got {:?}", other),
    }
    let p = client.update_user_request(&user(Some("jdoe")), "{\"x\":1}".to_string()).unwrap();
    expect_plan(&p, Method::Put, "v1/user/jdoe", "{\"x\":1}");
}

#[test]
fn update_team_requires_a_name() {
    let client = create_test_client();
    match client.update_team_request(&team(None), "{}".to_string()) {
        Err(Error::InvalidInput(m)) => assert_eq!(m, TEAM_NAME_REQUIRED),
        other => panic!("expected InvalidInput, got {:?}", other),
    }
    let p = client.update_team_request(&team(Some("Updated Team")), "{}".to_string()).unwrap();
    expect_plan(&p, Method::Put, "v1/team/Updated%20Team", "{}");
    let p = client.update_team_request(&team(Some("a/b?c#d~e")), "{}".to_string()).unwrap();
    assert_eq!(p.url, url("v1/team/a%2Fb%3Fc%23d~e"));
    let p = client.update_team_request(&team(Some("\u{e9}quipe")), "{}".to_string()).unwrap();
    assert_eq!(p.url, url("v1/team/%C3%A9quipe"));
}

#[test]
fn team_requests_use_team_paths() {
    let client = create_test_client();
    expect_plan(&client.get_team_request("engineering").unwrap(), Method::Get, "v1/team/engineering", "{}");
    expect_plan(&client.delete_team_request("old-team").unwrap(), Method::Delete, "v1/team/old-team", "{}");
    expect_plan(
        &client.get_team_members_request("engineering").unwrap(),
        Method::Get,
        "v1/team/engineering/members",
        "{}",
    );
    expect_plan(
        &client.get_team_admins_request("engineering").unwrap(),
        Method::Get,
        "v1/team/engineering/admins",
        "{}",
    );
    expect_plan(
        &client.add_team_member_request("engineering", "jdoe").unwrap(),
        Method::Post,
        "v1/team/engineering/members",
        "{\"username\":\"jdoe\"}",
    );
    expect_plan(
        &client.remove_team_member_request("engineering", "j doe@x", "admin").unwrap(),
        Method::Delete,
        "v1/team/engineering/members/j+doe%40x",
        "{\"replacement\":\"admin\"}",
    );
    expect_plan(
        &client.create_team_request("{\"name\":\"Test Team\"}".to_string()).unwrap(),
        Method::Post,
        "v1/team",
        "{\"name\":\"Test Team\"}",
    );
}

#[test]
fn json_bodies_escape_their_strings() {
    let client = create_test_client();
    let p = client.add_team_member_request("t", "a\"b\\c\n").unwrap();
    assert_eq!(p.body, "{\"username\":\"a\\\"b\\\\c\\n\"}");
    let p = client.add_team_member_request("t", "\u{1}\t\u{8}\u{c}\r/\u{e9}").unwrap();
    assert_eq!(p.body, "{\"username\":\"\\u0001\\t\\b\\f\\r/\u{e9}\"}");
    let p = client.add_team_member_request("t", "\u{1f}").unwrap();
    assert_eq!(p.body, "{\"username\":\"\\u001f\"}");
}

#[test]
fn schedule_requests_render_the_window() {
    let client = create_test_client();
    let p = client.get_api_team_schedule_request("engineering", 14, 0, 0).unwrap();
    expect_plan(
        &p,
        Method::Get,
        "v2/team/engineering/oncall/schedule?daysForward=14&daysSkip=0&step=0",
        "{}",
    );
    let p = client.get_api_team_schedule_request("engineering", 30, -1, 2).unwrap();
    assert_eq!(p.url, url("v2/team/engineering/oncall/schedule?daysForward=30&daysSkip=-1&step=2"));
    let p = client.get_user_on_call_schedule_request("testuser", 7, 1, 0).unwrap();
    assert_eq!(p.url, url("v2/user/testuser/oncall/schedule?daysForward=7&daysSkip=1&step=0"));
    let p = client.get_user_on_call_schedule_request("test@example.com", 7, 1, 0).unwrap();
    assert_eq!(
        p.url,
        url("v2/user/test%40example.com/oncall/schedule?daysForward=7&daysSkip=1&step=0")
    );
}

#[test]
fn on_call_and_policy_requests() {
    let client = create_test_client();
    let body = "{\"fromUser\":\"olduser\",\"toUser\":\"newuser\"}";
    expect_plan(
        &client.take_on_call_for_team_request("engineering", body.to_string()).unwrap(),
        Method::Patch,
        "v1/team/engineering/oncall/user",
        body,
    );
    expect_plan(
        &client.take_on_call_for_policy_request("policy123", body.to_string()).unwrap(),
        Method::Patch,
        "v1/policies/policy123/oncall/user",
        body,
    );
    expect_plan(
        &client.get_escalation_policy_request("policy123").unwrap(),
        Method::Get,
        "v1/policies/policy123",
        "{}",
    );
    expect_plan(
        &client.delete_escalation_policy_request("policy123").unwrap(),
        Method::Delete,
        "v1/policies/policy123",
        "{}",
    );
    expect_plan(
        &client.create_escalation_policy_request("{}".to_string()).unwrap(),
        Method::Post,
        "v1/policies",
        "{}",
    );
    expect_plan(
        &client.create_routing_key_request("{\"routingKey\":\"test-key\"}".to_string()).unwrap(),
        Method::Post,
        "v1/org/routing-keys",
        "{\"routingKey\":\"test-key\"}",
    );
}

#[test]
fn contact_creation_picks_the_endpoint_by_kind() {
    let client = create_test_client();
    match client.create_contact_request("testuser", &contact(None, None), "{}".to_string()) {
        Err(Error::InvalidInput(m)) => assert_eq!(m, CONTACT_KIND_REQUIRED),
        other => panic!("Expected InvalidInput error, got {:?}", other),
    }
    let p = client
        .create_contact_request("testuser", &contact(None, Some("test@example.com")), "{}".to_string())
        .unwrap();
    expect_plan(&p, Method::Post, "v1/user/testuser/contact-methods/emails", "{}");
    let p = client
        .create_contact_request("testuser", &contact(Some("+1234567890"), None), "{}".to_string())
        .unwrap();
    expect_plan(&p, Method::Post, "v1/user/testuser/contact-methods/phones", "{}");
}

#[test]
fn contact_requests_name_kind_and_identifier() {
    let client = create_test_client();
    expect_plan(
        &client.get_contact_request("testuser", "123", ContactType::Email).unwrap(),
        Method::Get,
        "v1/user/testuser/contact-methods/emails/123",
        "{}",
    );
    expect_plan(
        &client.delete_contact_request("testuser", "456", ContactType::Phone).unwrap(),
        Method::Delete,
        "v1/user/testuser/contact-methods/phones/456",
        "{}",
    );
    expect_plan(
        &client.get_all_contacts_request("testuser").unwrap(),
        Method::Get,
        "v1/user/testuser/contact-methods",
        "{}",
    );
}

#[test]
fn credentials_must_be_header_values() {
    let bad = Client::new("id\n".to_string(), "key".to_string(), BASE.to_string()).unwrap();
    match bad.get_incidents_request() {
        Err(Error::InvalidHeaderValue(m)) => assert_eq!(m, "failed to parse header value"),
        other => panic!("expected InvalidHeaderValue, got {:?}", other),
    }
    let bad_key = Client::new("id".to_string(), "k\u{7f}".to_string(), BASE.to_string()).unwrap();
    assert!(matches!(bad_key.get_all_teams_request(), Err(Error::InvalidHeaderValue(_))));
    let tab = Client::new("a\tb".to_string(), "caf\u{e9}".to_string(), BASE.to_string()).unwrap();
    assert!(tab.get_all_teams_request().is_ok());
}

#[test]
fn failure_statuses_become_api_errors() {
    match finish_exchange(404, "{}".to_string(), "Incident not found".to_string()) {
        Err(Error::Api { status, message }) => {
            assert_eq!(status, 404);
            assert_eq!(message, "Incident not found");
        }
        other => panic!("Expected API error, got: {:?}", other),
    }
    for status in [400u16, 401, 500, 503, u16::MAX] {
        match finish_exchange(status, "{}".to_string(), "Internal Server Error".to_string()) {
            Err(Error::Api { status: s, message }) => {
                assert_eq!(s, status);
                assert_eq!(message, "Internal Server Error");
            }
            other => panic!("Expected API error, got: {:?}", other),
        }
    }
}

#[test]
fn success_statuses_keep_the_exchange() {
    for status in [200u16, 201, 204, 399] {
        let d = finish_exchange(status, "{\"a\":1}".to_string(), "ok".to_string()).unwrap();
        assert_eq!(d.status_code, status);
        assert_eq!(d.request_body, "{\"a\":1}");
        assert_eq!(d.response_body, "ok");
    }
}
