use victorops::types::{Contact, ContactType};

fn contact(phone: Option<&str>, email: Option<&str>, label: Option<&str>, rank: Option<i32>) -> Contact {
    Contact {
        phone_number: phone.map(|s| s.to_string()),
        email: email.map(|s| s.to_string()),
        label: label.map(|s| s.to_string()),
        rank,
        ext_id: None,
        id: None,
        value: None,
        verified: None,
    }
}

#[test]
fn test_contact_type_endpoint_noun() {
    assert_eq!(ContactType::Phone.endpoint_noun(), "phones");
    assert_eq!(ContactType::Email.endpoint_noun(), "emails");
    assert_eq!(ContactType::Device.endpoint_noun(), "devices");
}

#[test]
fn test_contact_type_from_notification_type() {
    assert_eq!(ContactType::from_notification_type("push"), Some(ContactType::Device));
    assert_eq!(ContactType::from_notification_type("email"), Some(ContactType::Email));
    assert_eq!(ContactType::from_notification_type("phone"), Some(ContactType::Phone));
    assert_eq!(ContactType::from_notification_type("sms"), Some(ContactType::Phone));
    assert_eq!(ContactType::from_notification_type("unknown"), None);
}

#[test]
fn test_contact_contact_type() {
    let phone_contact = contact(Some("555-1234"), None, Some("Primary"), Some(1));
    assert_eq!(phone_contact.contact_type(), Some(ContactType::Phone));

    let email_contact = contact(None, Some("test@example.com"), Some("Work"), Some(1));
    assert_eq!(email_contact.contact_type(), Some(ContactType::Email));

    let empty_contact = contact(None, None, None, None);
    assert_eq!(empty_contact.contact_type(), None);
}

#[test]
fn notification_type_is_case_sensitive() {
    assert_eq!(ContactType::from_notification_type("Push"), None);
    assert_eq!(ContactType::from_notification_type(""), None);
    assert_eq!(ContactType::from_notification_type("smss"), None);
}

#[test]
fn contact_with_phone_and_email_is_a_phone() {
    let both = contact(Some("555-1234"), Some("a@b.c"), None, None);
    assert_eq!(both.contact_type(), Some(ContactType::Phone));
}
