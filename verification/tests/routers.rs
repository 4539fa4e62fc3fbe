use contact_manager::contacts::Contact;
use contact_manager::routers::{
    bulk_delete_message, contact_created_message, contact_deleted_message,
    contact_updated_message, contacts_count_message, delete_contact_response,
    edit_contact_retry_url, header_matches, logged_in_message, login_retry_url,
    new_contact_retry_url, rows_only_response, user_created_message, TypeOr,
};

#[test]
fn counter_span_counts() {
    assert_eq!(contacts_count_message(0), "0 contacts");
    assert_eq!(contacts_count_message(23), "23 contacts");
}

#[test]
fn creation_flash_names_the_id() {
    assert_eq!(contact_created_message(12), "Contact ID 12 Created Successfully!");
}

#[test]
fn update_flash_depends_on_rows_affected() {
    assert_eq!(contact_updated_message(1, 3), "Contact with id 3 updated sucessfully!");
    assert_eq!(contact_updated_message(0, 3), "Contact update failed!");
    assert_eq!(contact_updated_message(2, 3), "Contact update failed!");
}

#[test]
fn delete_flash_depends_on_rows_affected() {
    assert_eq!(contact_deleted_message(1, 9), "Deleted contact ID 9 successfully!");
    assert_eq!(contact_deleted_message(0, 9), "Delete failed!");
}

#[test]
fn bulk_delete_flash_counts_rows() {
    assert_eq!(bulk_delete_message(0), "Bulk Delete failed!");
    assert_eq!(bulk_delete_message(3), "3 contact deleted sucessfully!");
}

#[test]
fn signup_and_login_flashes() {
    assert_eq!(user_created_message(4), "User ID 4 Created Successfully!");
    assert_eq!(logged_in_message("ada"), "Successfully logged in as ada");
}

#[test]
fn rejected_creation_carries_the_form_back() {
    let c = Contact {
        id: 0,
        first_name: "Ada".to_string(),
        last_name: String::new(),
        phone: "555".to_string(),
        email: "a@b.c".to_string(),
        birth_date: "1815-12-10".to_string(),
        time_creation: String::new(),
    };
    assert_eq!(
        new_contact_retry_url(&c),
        "/contacts/new?id=0&first_name=Ada&last_name=&phone=555&email=a@b.c\
         &birth_date=1815-12-10&time_creation="
    );
}

#[test]
fn rejected_edit_goes_back_to_the_form() {
    assert_eq!(edit_contact_retry_url(41), "/contacts/edit?id_p=41");
}

#[test]
fn failed_login_keeps_the_next_target() {
    assert_eq!(login_retry_url(&None), "/login");
    assert_eq!(login_retry_url(&Some("/contacts/show".to_string())), "/login?next=/contacts/show");
}

#[test]
fn delete_answer_follows_the_trigger_header() {
    assert_eq!(delete_contact_response(Some("delete_btn")), TypeOr::Redir);
    assert_eq!(delete_contact_response(Some("other")), TypeOr::Reload);
    assert_eq!(delete_contact_response(None), TypeOr::Reload);
}

#[test]
fn listing_sends_rows_alone_only_to_the_search_box() {
    assert!(rows_only_response(Some("search")));
    assert!(!rows_only_response(Some("delete_btn")));
    assert!(!rows_only_response(None));
    assert!(header_matches(Some("search"), "search"));
    assert!(!header_matches(None, "search"));
}
