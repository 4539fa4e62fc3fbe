//! Contacts: the record type, creation/edit validation, and the paging and
//! query-plan arithmetic behind the contact listing.
//!
//! The relational store itself is an external collaborator: the functions
//! here take what a query returned (a row count, the number of rows matching
//! an email) as plain values and decide everything else.

use vstd::prelude::*;

use crate::numbers::{digits_value, parses_as_u32, unsigned_body, parse_u32};

verus! {

/// One contact record, as the store holds it.
#[derive(Debug, Clone)]
pub struct Contact {
    pub id: i64,
    pub first_name: String,
    pub last_name: String,
    pub phone: String,
    pub email: String,
    pub birth_date: String,
    pub time_creation: String,
}

/// A page of contact records.
pub struct Contacts {
    pub contacts: Vec<Contact>,
}

/// One validation message per field of a creation or edit form; an empty
/// message means the field passed.
#[derive(Debug, Clone)]
pub struct CreationErrorState {
    pub first_error: String,
    pub last_error: String,
    pub phone_error: String,
    pub email_error: String,
    pub email_unique_error: String,
    pub birth_error: String,
}

impl CreationErrorState {
    /// No field has a pending message.
    pub open spec fn all_clear(self) -> bool {
        &&& self.first_error@.len() == 0
        &&& self.last_error@.len() == 0
        &&& self.phone_error@.len() == 0
        &&& self.email_error@.len() == 0
        &&& self.email_unique_error@.len() == 0
        &&& self.birth_error@.len() == 0
    }
}

impl Default for CreationErrorState {
    /// The blank state shown before any submission was validated.
    fn default() -> (r: Self)
        ensures
            r.all_clear(),
    {
        CreationErrorState {
            first_error: String::new(),
            last_error: String::new(),
            phone_error: String::new(),
            email_error: String::new(),
            email_unique_error: String::new(),
            birth_error: String::new(),
        }
    }
}

/// The message a required field earns: `message` when the field is empty,
/// nothing otherwise.
pub open spec fn required_message(field: Seq<char>, message: Seq<char>) -> Seq<char> {
    if field.len() == 0 {
        message
    } else {
        Seq::<char>::empty()
    }
}

/// The message for an email uniqueness check that found `matching_rows`
/// other contacts with the same address.
pub open spec fn email_unique_message(matching_rows: u32) -> Seq<char> {
    if matching_rows == 0 {
        Seq::<char>::empty()
    } else {
        "Email must be unique"@
    }
}

impl Contact {
    /// Every required field of the form is filled.
    pub open spec fn fields_complete(self) -> bool {
        &&& self.first_name@.len() > 0
        &&& self.last_name@.len() > 0
        &&& self.phone@.len() > 0
        &&& self.email@.len() > 0
        &&& self.birth_date@.len() > 0
    }

    /// Turns the result of the email uniqueness query — how many other
    /// contacts already use the address — into the message the form shows.
    pub fn validate_email(matching_rows: u32) -> (r: String)
        ensures
            r@ == email_unique_message(matching_rows),
    {
        if matching_rows == 0 {
            String::new()
        } else {
            "Email must be unique".to_owned()
        }
    }

    /// Validates a submitted contact. `email_unique_error` is the message the
    /// uniqueness query earned (see [`Contact::validate_email`]); the store is
    /// not consulted here. Returns `None` exactly when every check passed.
    pub fn check_contact_errors(&self, email_unique_error: String) -> (r: Option<
        CreationErrorState,
    >)
        ensures
            r is None <==> (self.fields_complete() && email_unique_error@.len() == 0),
            r matches Some(e) ==> {
                &&& e.first_error@ == required_message(self.first_name@, "First Name Required"@)
                &&& e.last_error@ == required_message(self.last_name@, "Last Name Required"@)
                &&& e.phone_error@ == required_message(self.phone@, "Phone Required"@)
                &&& e.email_error@ == required_message(self.email@, "Email Required"@)
                &&& e.email_unique_error@ == email_unique_error@
                &&& e.birth_error@ == required_message(self.birth_date@, "Birth Date Required"@)
            },
    {
        proof {
            reveal_strlit("First Name Required");
            reveal_strlit("Last Name Required");
            reveal_strlit("Phone Required");
            reveal_strlit("Email Required");
            reveal_strlit("Birth Date Required");
        }
        let new_error = CreationErrorState {
            first_error: if self.first_name.as_str().is_empty() {
                "First Name Required".to_owned()
            } else {
                String::new()
            },
            last_error: if self.last_name.as_str().is_empty() {
                "Last Name Required".to_owned()
            } else {
                String::new()
            },
            phone_error: if self.phone.as_str().is_empty() {
                "Phone Required".to_owned()
            } else {
                String::new()
            },
            email_error: if self.email.as_str().is_empty() {
                "Email Required".to_owned()
            } else {
                String::new()
            },
            email_unique_error,
            birth_error: if self.birth_date.as_str().is_empty() {
                "Birth Date Required".to_owned()
            } else {
                String::new()
            },
        };
        if new_error.first_error.as_str().is_empty() && new_error.last_error.as_str().is_empty()
            && new_error.phone_error.as_str().is_empty()
            && new_error.email_error.as_str().is_empty()
            && new_error.email_unique_error.as_str().is_empty()
            && new_error.birth_error.as_str().is_empty() {
            None
        } else {
            Some(new_error)
        }
    }
}

impl Default for Contact {
    /// The blank record the creation form starts from: id 0 and every field
    /// empty.
    fn default() -> (r: Self)
        ensures
            r.id == 0,
            r.first_name@.len() == 0,
            r.last_name@.len() == 0,
            r.phone@.len() == 0,
            r.email@.len() == 0,
            r.birth_date@.len() == 0,
            r.time_creation@.len() == 0,
    {
        Contact {
            id: 0,
            first_name: String::new(),
            last_name: String::new(),
            phone: String::new(),
            email: String::new(),
            birth_date: String::new(),
            time_creation: String::new(),
        }
    }
}

/// How many records one page of the listing holds.
pub const PAGE_SIZE: u32 = 8;

/// Which of the four listing queries a request calls for.
#[derive(Debug, Clone, Copy, PartialEq, Eq, Structural)]
pub enum QueryPlan {
    /// No search term, no birthday filter: all contacts ordered by birth date.
    AllByBirthDate,
    /// No search term, birthday filter on: contacts with a birthday in the
    /// coming month.
    BirthdayWindow,
    /// A search term, no birthday filter: contacts matching the term in any
    /// field, ordered by id.
    TermSearch,
    /// A search term together with the birthday filter.
    BirthdayTermSearch,
}

/// Everything the listing handler needs to run its query: which query, and
/// the page window.
#[derive(Debug, Clone, Copy, PartialEq, Eq, Structural)]
pub struct PageRequest {
    pub plan: QueryPlan,
    /// The requested page after clamping into `1 ..= max_page`.
    pub page_set: u32,
    /// The number of the last page; at least 1 even with no rows.
    pub max_page: u32,
    /// The query's LIMIT: always `PAGE_SIZE`.
    pub limit: u32,
    /// The query's OFFSET: the records on the pages before `page_set`.
    pub offset: u32,
}

/// The number of the last page for `num_of_rows` records: pages of
/// `PAGE_SIZE`, the last one allowed to be partial, and never less than 1.
pub open spec fn max_page_spec(num_of_rows: u32) -> int {
    let pages = num_of_rows as int / PAGE_SIZE as int + if num_of_rows as int % PAGE_SIZE as int
        != 0 {
        1int
    } else {
        0int
    };
    if pages == 0 {
        1int
    } else {
        pages
    }
}

/// The requested page clamped into `1 ..= max_page`; page 0 means page 1.
pub open spec fn page_clamp_spec(page_set: u32, max_page: int) -> int {
    if page_set == 0 {
        1int
    } else if page_set > max_page {
        max_page
    } else {
        page_set as int
    }
}

/// The query a search term and the birthday flag call for.
pub open spec fn plan_spec(search: Seq<char>, birthday_set: u32) -> QueryPlan {
    if search.len() == 0 && birthday_set == 0 {
        QueryPlan::AllByBirthDate
    } else if search.len() == 0 && birthday_set == 1 {
        QueryPlan::BirthdayWindow
    } else if birthday_set == 0 {
        QueryPlan::TermSearch
    } else {
        QueryPlan::BirthdayTermSearch
    }
}

impl Contacts {
    /// Decides the listing query: given the store's row count and the
    /// request's search term, page and birthday flag, picks the query plan
    /// and the page window. The handler runs the returned query and shows
    /// the rows it gets back.
    pub fn match_contacts(
        num_of_rows: u32,
        search_bar: &str,
        page_set: u32,
        birthday_set: u32,
    ) -> (r: PageRequest)
        ensures
            r.plan == plan_spec(search_bar@, birthday_set),
            r.max_page == max_page_spec(num_of_rows),
            r.page_set == page_clamp_spec(page_set, max_page_spec(num_of_rows)),
            r.limit == PAGE_SIZE,
            r.offset == (r.page_set - 1) * PAGE_SIZE,
            1 <= r.page_set <= r.max_page,
    {
        let mut max_page: u32 = num_of_rows / PAGE_SIZE + if num_of_rows % PAGE_SIZE != 0 {
            1
        } else {
            0
        };
        if max_page == 0 {
            max_page = 1;
        }
        let page: u32 = if page_set == 0 {
            1
        } else if page_set > max_page {
            max_page
        } else {
            page_set
        };
        proof {
            assert(num_of_rows / PAGE_SIZE * PAGE_SIZE <= num_of_rows);
        }
        let offset: u32 = (page - 1) * PAGE_SIZE;
        let plan = if search_bar.is_empty() && birthday_set == 0 {
            QueryPlan::AllByBirthDate
        } else if search_bar.is_empty() && birthday_set == 1 {
            QueryPlan::BirthdayWindow
        } else if birthday_set == 0 {
            QueryPlan::TermSearch
        } else {
            QueryPlan::BirthdayTermSearch
        };
        PageRequest { plan, page_set: page, max_page, limit: PAGE_SIZE, offset }
    }
}

/// Parses the id list of a bulk delete. Returns `None` when any entry is not
/// a decimal `u32`, where the handler fails the request as a bad form.
pub fn parse_ids(ids: &Vec<String>) -> (r: Option<Vec<u32>>)
    ensures
        r is Some <==> (forall|i: int| 0 <= i < ids@.len() ==> parses_as_u32(#[trigger] ids@[i]@)),
        r matches Some(v) ==> {
            &&& v@.len() == ids@.len()
            &&& forall|i: int|
                0 <= i < ids@.len() ==> #[trigger] v@[i] == digits_value(unsigned_body(ids@[i]@))
        },
{
    let mut out: Vec<u32> = Vec::new();
    let mut k: usize = 0;
    while k < ids.len()
        invariant
            k <= ids@.len(),
            out@.len() == k,
            forall|i: int| 0 <= i < k ==> parses_as_u32(#[trigger] ids@[i]@),
            forall|i: int|
                0 <= i < k ==> #[trigger] out@[i] == digits_value(unsigned_body(ids@[i]@)),
        decreases ids@.len() - k,
    {
        match parse_u32(ids[k].as_str()) {
            Some(v) => out.push(v),
            None => {
                return None;
            },
        }
        k = k + 1;
    }
    Some(out)
}

} // verus!
