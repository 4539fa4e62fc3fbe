//! What the request handlers decide: the flash message for each outcome, the
//! redirect targets, and which fragment a request gets back. The handlers
//! themselves are HTTP plumbing; everything they say or choose is computed
//! here.

use vstd::prelude::*;

use crate::contacts::Contact;
use crate::numbers::{decimal_chars, u32_to_decimal};

verus! {

/// The flash after a creation: names the id the store assigned.
pub fn contact_created_message(id: u32) -> (r: String)
    ensures
        r@ == "Contact ID "@ + decimal_chars(id as int) + " Created Successfully!"@,
{
    "Contact ID ".to_owned().concat(u32_to_decimal(id).as_str()).concat(" Created Successfully!")
}

/// The flash after an edit: success when exactly one row changed, failure
/// otherwise.
pub fn contact_updated_message(rows_affected: u32, id: u32) -> (r: String)
    ensures
        r@ == if rows_affected == 1 {
            "Contact with id "@ + decimal_chars(id as int) + " updated sucessfully!"@
        } else {
            "Contact update failed!"@
        },
{
    if rows_affected == 1 {
        "Contact with id ".to_owned().concat(u32_to_decimal(id).as_str()).concat(
            " updated sucessfully!",
        )
    } else {
        "Contact update failed!".to_owned()
    }
}

/// The flash after a single delete: success when the row existed, failure
/// otherwise.
pub fn contact_deleted_message(rows_affected: u32, id: u32) -> (r: String)
    ensures
        r@ == if rows_affected == 0 {
            "Delete failed!"@
        } else {
            "Deleted contact ID "@ + decimal_chars(id as int) + " successfully!"@
        },
{
    if rows_affected == 0 {
        "Delete failed!".to_owned()
    } else {
        "Deleted contact ID ".to_owned().concat(u32_to_decimal(id).as_str()).concat(
            " successfully!",
        )
    }
}

/// The flash after a bulk delete: how many rows went, or that none did.
pub fn bulk_delete_message(rows_affected_sum: u32) -> (r: String)
    ensures
        r@ == if rows_affected_sum == 0 {
            "Bulk Delete failed!"@
        } else {
            decimal_chars(rows_affected_sum as int) + " contact deleted sucessfully!"@
        },
{
    if rows_affected_sum == 0 {
        "Bulk Delete failed!".to_owned()
    } else {
        u32_to_decimal(rows_affected_sum).concat(" contact deleted sucessfully!")
    }
}

/// The span the contact counter shows.
pub fn contacts_count_message(count: u32) -> (r: String)
    ensures
        r@ == decimal_chars(count as int) + " contacts"@,
{
    u32_to_decimal(count).concat(" contacts")
}

/// The flash after a signup: names the id the store assigned.
pub fn user_created_message(id: u32) -> (r: String)
    ensures
        r@ == "User ID "@ + decimal_chars(id as int) + " Created Successfully!"@,
{
    "User ID ".to_owned().concat(u32_to_decimal(id).as_str()).concat(" Created Successfully!")
}

/// The flash after a login.
pub fn logged_in_message(username: &str) -> (r: String)
    ensures
        r@ == "Successfully logged in as "@ + username@,
{
    "Successfully logged in as ".to_owned().concat(username)
}

/// Where a rejected creation form goes back to: the form, with what was
/// typed carried in the query string.
pub fn new_contact_retry_url(contact: &Contact) -> (r: String)
    ensures
        r@ == "/contacts/new?id=0&first_name="@ + contact.first_name@ + "&last_name="@
            + contact.last_name@ + "&phone="@ + contact.phone@ + "&email="@ + contact.email@
            + "&birth_date="@ + contact.birth_date@ + "&time_creation="@,
{
    "/contacts/new?id=0&first_name=".to_owned().concat(contact.first_name.as_str()).concat(
        "&last_name=",
    ).concat(contact.last_name.as_str()).concat("&phone=").concat(contact.phone.as_str()).concat(
        "&email=",
    ).concat(contact.email.as_str()).concat("&birth_date=").concat(
        contact.birth_date.as_str(),
    ).concat("&time_creation=")
}

/// Where a rejected edit form goes back to.
pub fn edit_contact_retry_url(id: u32) -> (r: String)
    ensures
        r@ == "/contacts/edit?id_p="@ + decimal_chars(id as int),
{
    "/contacts/edit?id_p=".to_owned().concat(u32_to_decimal(id).as_str())
}

/// Where a failed login goes back to: the login form, keeping the `next`
/// target when one was asked for.
pub fn login_retry_url(next: &Option<String>) -> (r: String)
    ensures
        r@ == match next {
            Some(n) => "/login?next="@ + n@,
            None => "/login"@,
        },
{
    match next {
        Some(n) => "/login?next=".to_owned().concat(n.as_str()),
        None => "/login".to_owned(),
    }
}

/// Whether a header value names the given trigger.
pub fn header_matches(header: Option<&str>, name: &str) -> (r: bool)
    ensures
        r == match header {
            Some(h) => h@ == name@,
            None => false,
        },
{
    match header {
        Some(h) => h.to_owned() == name.to_owned(),
        None => false,
    }
}

/// The two answers a delete can get: back to the listing, or a header that
/// makes the open page reload its rows.
#[derive(Debug, Clone, Copy, PartialEq, Eq, Structural)]
pub enum TypeOr {
    Redir,
    Reload,
}

/// Which answer a delete gets: a redirect when the listing's own delete
/// button sent it, a reload trigger when another page did.
pub fn delete_contact_response(hx_trigger: Option<&str>) -> (r: TypeOr)
    ensures
        r == (match hx_trigger {
            Some(h) => if h@ == "delete_btn"@ {
                TypeOr::Redir
            } else {
                TypeOr::Reload
            },
            None => TypeOr::Reload,
        }),
{
    if header_matches(hx_trigger, "delete_btn") {
        TypeOr::Redir
    } else {
        TypeOr::Reload
    }
}

/// Whether the listing answers with its rows alone: only when the search
/// box's own request asks.
pub fn rows_only_response(hx_trigger: Option<&str>) -> (r: bool)
    ensures
        r == (match hx_trigger {
            Some(h) => h@ == "search"@,
            None => false,
        }),
{
    header_matches(hx_trigger, "search")
}

} // verus!
