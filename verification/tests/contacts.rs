use contact_manager::contacts::{Contact, Contacts, CreationErrorState, QueryPlan, parse_ids, PAGE_SIZE};

fn filled_contact() -> Contact {
    Contact {
        id: 0,
        first_name: "Ada".to_string(),
        last_name: "Lovelace".to_string(),
        phone: "555-0100".to_string(),
        email: "ada@example.com".to_string(),
        birth_date: "1815-12-10".to_string(),
        time_creation: String::new(),
    }
}

#[test]
fn complete_contact_passes_validation() {
    let c = filled_contact();
    let unique = Contact::validate_email(0);
    assert_eq!(unique, "");
    assert!(c.check_contact_errors(unique).is_none());
}

#[test]
fn each_missing_field_earns_its_message() {
    let mut c = filled_contact();
    c.first_name = String::new();
    let e = c.check_contact_errors(String::new()).unwrap();
    assert_eq!(e.first_error, "First Name Required");
    assert_eq!(e.last_error, "");

    let mut c = filled_contact();
    c.last_name = String::new();
    let e = c.check_contact_errors(String::new()).unwrap();
    assert_eq!(e.last_error, "Last Name Required");

    let mut c = filled_contact();
    c.phone = String::new();
    let e = c.check_contact_errors(String::new()).unwrap();
    assert_eq!(e.phone_error, "Phone Required");

    let mut c = filled_contact();
    c.email = String::new();
    let e = c.check_contact_errors(String::new()).unwrap();
    assert_eq!(e.email_error, "Email Required");

    let mut c = filled_contact();
    c.birth_date = String::new();
    let e = c.check_contact_errors(String::new()).unwrap();
    assert_eq!(e.birth_error, "Birth Date Required");
}

#[test]
fn taken_email_fails_validation() {
    let c = filled_contact();
    let unique = Contact::validate_email(2);
    assert_eq!(unique, "Email must be unique");
    let e = c.check_contact_errors(unique).unwrap();
    assert_eq!(e.email_unique_error, "Email must be unique");
    assert_eq!(e.first_error, "");
    assert_eq!(e.email_error, "");
}

#[test]
fn empty_store_still_has_one_page() {
    let r = Contacts::match_contacts(0, "", 0, 0);
    assert_eq!(r.max_page, 1);
    assert_eq!(r.page_set, 1);
    assert_eq!(r.offset, 0);
    assert_eq!(r.limit, PAGE_SIZE);
    assert_eq!(r.plan, QueryPlan::AllByBirthDate);
}

#[test]
fn page_is_clamped_into_range() {
    // 17 rows at 8 a page: 3 pages
    let r = Contacts::match_contacts(17, "", 9, 0);
    assert_eq!(r.max_page, 3);
    assert_eq!(r.page_set, 3);
    assert_eq!(r.offset, 16);

    let r = Contacts::match_contacts(17, "", 0, 0);
    assert_eq!(r.page_set, 1);
    assert_eq!(r.offset, 0);

    let r = Contacts::match_contacts(16, "", 2, 0);
    assert_eq!(r.max_page, 2);
    assert_eq!(r.page_set, 2);
    assert_eq!(r.offset, 8);
}

#[test]
fn plans_follow_search_and_birthday() {
    assert_eq!(Contacts::match_contacts(5, "", 1, 0).plan, QueryPlan::AllByBirthDate);
    assert_eq!(Contacts::match_contacts(5, "", 1, 1).plan, QueryPlan::BirthdayWindow);
    assert_eq!(Contacts::match_contacts(5, "ada", 1, 0).plan, QueryPlan::TermSearch);
    assert_eq!(Contacts::match_contacts(5, "ada", 1, 1).plan, QueryPlan::BirthdayTermSearch);
}

#[test]
fn bulk_ids_parse_or_fail_together() {
    let ids = vec!["3".to_string(), "17".to_string(), "+5".to_string()];
    assert_eq!(parse_ids(&ids), Some(vec![3, 17, 5]));

    let ids = vec!["3".to_string(), "x".to_string()];
    assert_eq!(parse_ids(&ids), None);

    let ids: Vec<String> = Vec::new();
    assert_eq!(parse_ids(&ids), Some(Vec::new()));
}

#[test]
fn blank_contact_is_empty() {
    let c = Contact::default();
    assert_eq!(c.id, 0);
    assert_eq!(c.first_name, "");
    assert_eq!(c.last_name, "");
    assert_eq!(c.phone, "");
    assert_eq!(c.email, "");
    assert_eq!(c.birth_date, "");
    assert_eq!(c.time_creation, "");
}

#[test]
fn blank_error_state_is_all_clear() {
    let e = CreationErrorState::default();
    assert_eq!(e.first_error, "");
    assert_eq!(e.last_error, "");
    assert_eq!(e.phone_error, "");
    assert_eq!(e.email_error, "");
    assert_eq!(e.email_unique_error, "");
    assert_eq!(e.birth_error, "");
}
