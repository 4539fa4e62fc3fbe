//! The values the HTTP layer extracts from query strings and form bodies,
//! and how a contact record is assembled from them. Extraction itself is the
//! HTTP layer's; these are the plain shapes it hands over.

use vstd::prelude::*;

use crate::contacts::Contact;

verus! {

/// Query of the contact listing.
pub struct ShowParams {
    pub search_p: Option<String>,
    pub page_p: u32,
    pub birthday_p: u32,
}

impl ShowParams {
    /// The search term, with a missing one read as empty.
    pub fn search_term(&self) -> (r: &str)
        ensures
            match self.search_p {
                Some(s) => r@ == s@,
                None => r@.len() == 0,
            },
    {
        proof {
            reveal_strlit("");
        }
        match &self.search_p {
            Some(s) => s.as_str(),
            None => "",
        }
    }
}

/// Form body of a bulk delete: the ids of the rows ticked, absent when none
/// was.
pub struct DeleteBulkParams {
    pub ids_p: Option<Vec<String>>,
}

/// Query naming the contact to view or delete.
pub struct ViewContactParams {
    pub id_p: u32,
}

/// Query naming the contact to edit.
pub struct ContactIDParam {
    pub id_p: u32,
}

/// Query naming the contact to edit.
pub struct EditContactIDParam {
    pub id_p: u32,
}

/// Query of the live email validation.
pub struct ValidateEmailParams {
    pub email: String,
    pub id_p: u32,
}

/// Form body of the creation form; every field optional, blank when absent.
pub struct NewContactParams {
    pub first_p: Option<String>,
    pub last_p: Option<String>,
    pub phone_p: Option<String>,
    pub email_p: Option<String>,
    pub birth_p: Option<String>,
}

/// Form body of the edit form.
pub struct EditContactParams {
    pub first_p: String,
    pub last_p: String,
    pub phone_p: String,
    pub email_p: String,
    pub birth_p: String,
}

/// Query carrying where to go after a login.
pub struct NextUrlParam {
    pub next: Option<String>,
}

/// Form body of the login and signup forms.
#[derive(Clone)]
pub struct CredentialsParam {
    pub username: String,
    pub password: String,
    pub next: Option<String>,
}

/// The value of an optional form field, blank when absent.
fn field_or_blank(field: Option<String>) -> (r: String)
    ensures
        match field {
            Some(s) => r@ == s@,
            None => r@.len() == 0,
        },
{
    match field {
        Some(s) => s,
        None => String::new(),
    }
}

/// The fresh contact the creation form describes: id 0 (the store assigns
/// one), absent fields blank, and no creation time yet.
pub fn contact_from_new_params(params: NewContactParams) -> (r: Contact)
    ensures
        r.id == 0,
        r.first_name@ == (match params.first_p {
            Some(s) => s@,
            None => Seq::<char>::empty(),
        }),
        r.last_name@ == (match params.last_p {
            Some(s) => s@,
            None => Seq::<char>::empty(),
        }),
        r.phone@ == (match params.phone_p {
            Some(s) => s@,
            None => Seq::<char>::empty(),
        }),
        r.email@ == (match params.email_p {
            Some(s) => s@,
            None => Seq::<char>::empty(),
        }),
        r.birth_date@ == (match params.birth_p {
            Some(s) => s@,
            None => Seq::<char>::empty(),
        }),
        r.time_creation@.len() == 0,
{
    Contact {
        id: 0,
        first_name: field_or_blank(params.first_p),
        last_name: field_or_blank(params.last_p),
        phone: field_or_blank(params.phone_p),
        email: field_or_blank(params.email_p),
        birth_date: field_or_blank(params.birth_p),
        time_creation: String::new(),
    }
}

/// The contact the edit form describes for row `id`. The creation time is
/// left blank: an edit keeps the stored one.
pub fn contact_from_edit_params(id: u32, params: EditContactParams) -> (r: Contact)
    ensures
        r.id == id as i64,
        r.first_name@ == params.first_p@,
        r.last_name@ == params.last_p@,
        r.phone@ == params.phone_p@,
        r.email@ == params.email_p@,
        r.birth_date@ == params.birth_p@,
        r.time_creation@.len() == 0,
{
    Contact {
        id: id as i64,
        first_name: params.first_p,
        last_name: params.last_p,
        phone: params.phone_p,
        email: params.email_p,
        birth_date: params.birth_p,
        time_creation: String::new(),
    }
}

} // verus!
