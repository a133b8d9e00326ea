//! `POST /user`: a URL-encoded form with `username` and `email` becomes a new user row.
use vstd::prelude::*;
use vstd::string::*;
use crate::ids::{is_random_uuid, new_random_id};
use crate::routes::{STATUS_BAD_REQUEST, STATUS_INTERNAL_SERVER_ERROR, STATUS_OK};
use crate::telemetry::{HeaderText, Level, LogEvent};
use crate::text::{has_prefix, owned, starts_with};

verus! {

/// The fields of a new user, as submitted.
pub struct AddUser {
    pub username: String,
    pub email: String,
}

/// A row of the user table: a fresh identifier and the submitted fields.
pub struct UserRow {
    pub id: u128,
    pub username: String,
    pub email: String,
}

/// Why a submitted form was refused; either way the answer is `400 Bad Request`.
#[derive(PartialEq, Eq, Structural, Clone, Copy)]
pub enum FormRejection {
    /// The `Content-Type` header does not announce a URL-encoded form.
    InvalidContentType,
    /// The form does not hold exactly one `username` and exactly one `email`.
    InvalidForm,
}

/// What the handler does next with a request.
pub enum AddUserAction {
    /// Answer at once with this status; nothing is stored.
    Respond(u16),
    /// Store this row, then answer by the outcome.
    Insert(UserRow),
}

/// The name/value pairs of a URL-encoded form body, decoded, in order.
pub uninterp spec fn form_pairs_of(body: Seq<u8>) -> Seq<(Seq<char>, Seq<char>)>;

pub open spec fn pairs_view(v: Seq<(String, String)>) -> Seq<(Seq<char>, Seq<char>)> {
    v.map_values(|p: (String, String)| (p.0@, p.1@))
}

/// Relies on form_urlencoded::parse (with `into_owned`): the decoded pairs of the body,
/// in order, none for an empty body.
#[verifier::external_body]
fn form_pairs(body: &[u8]) -> (r: Vec<(String, String)>)
    ensures
        pairs_view(r@) == form_pairs_of(body@),
        body@.len() == 0 ==> r@.len() == 0,
{
    form_urlencoded::parse(body).into_owned().collect()
}

/// How many pairs have this name.
pub open spec fn key_count(pairs: Seq<(Seq<char>, Seq<char>)>, key: Seq<char>) -> nat
    decreases pairs.len(),
{
    if pairs.len() == 0 {
        0
    } else {
        key_count(pairs.drop_last(), key) + if pairs.last().0 == key {
            1nat
        } else {
            0nat
        }
    }
}

/// The value of the last pair with this name, empty if there is none.
pub open spec fn key_value(pairs: Seq<(Seq<char>, Seq<char>)>, key: Seq<char>) -> Seq<char>
    decreases pairs.len(),
{
    if pairs.len() == 0 {
        Seq::empty()
    } else if pairs.last().0 == key {
        pairs.last().1
    } else {
        key_value(pairs.drop_last(), key)
    }
}

/// A form names each field of a user exactly once.
pub open spec fn form_names_user(pairs: Seq<(Seq<char>, Seq<char>)>) -> bool {
    key_count(pairs, "username"@) == 1 && key_count(pairs, "email"@) == 1
}

/// The header announces a URL-encoded form.
pub open spec fn content_type_is_form(ct: HeaderText) -> bool {
    match ct {
        HeaderText::Text(s) => starts_with(s@, "application/x-www-form-urlencoded"@),
        _ => false,
    }
}

/// The `(username, email)` that a request asks to store, if it is accepted.
pub open spec fn submitted_user(ct: HeaderText, body: Seq<u8>) -> Option<(Seq<char>, Seq<char>)> {
    let pairs = form_pairs_of(body);
    if content_type_is_form(ct) && form_names_user(pairs) {
        Some((key_value(pairs, "username"@), key_value(pairs, "email"@)))
    } else {
        None
    }
}

/// The status that answers a request, given whether storing its row succeeded.
pub open spec fn add_user_status(ct: HeaderText, body: Seq<u8>, stored: bool) -> u16 {
    if submitted_user(ct, body) is None {
        STATUS_BAD_REQUEST
    } else if stored {
        STATUS_OK
    } else {
        STATUS_INTERNAL_SERVER_ERROR
    }
}

/// A name that occurs once in a form has the value of the pair that carries it.
pub proof fn lemma_single_key_value(pairs: Seq<(Seq<char>, Seq<char>)>, key: Seq<char>, value: Seq<char>)
    requires
        key_count(pairs, key) == 1,
        pairs.contains((key, value)),
    ensures
        key_value(pairs, key) == value,
    decreases pairs.len(),
{
    lemma_count_positive_when_present(pairs, key, value);
    let rest = pairs.drop_last();
    if pairs.last().0 == key {
        if pairs.last() != (key, value) {
            let j = choose|j: int| 0 <= j < pairs.len() && pairs[j] == (key, value);
            assert(rest[j] == (key, value));
            lemma_count_positive_when_present(rest, key, value);
        }
    } else {
        let j = choose|j: int| 0 <= j < pairs.len() && pairs[j] == (key, value);
        assert(rest[j] == (key, value));
        lemma_single_key_value(rest, key, value);
    }
}

proof fn lemma_count_positive_when_present(pairs: Seq<(Seq<char>, Seq<char>)>, key: Seq<char>, value: Seq<char>)
    requires
        pairs.contains((key, value)),
    ensures
        key_count(pairs, key) > 0,
    decreases pairs.len(),
{
    if pairs.last().0 != key {
        let j = choose|j: int| 0 <= j < pairs.len() && pairs[j] == (key, value);
        assert(pairs.drop_last()[j] == (key, value));
        lemma_count_positive_when_present(pairs.drop_last(), key, value);
    }
}

/// A form request that announces a URL-encoded form and names `username` and `email`
/// once each is accepted with exactly those values, and is answered `200 OK` once its
/// row is stored.
pub proof fn lemma_valid_form_is_stored(ct: HeaderText, body: Seq<u8>, username: Seq<char>, email: Seq<char>)
    requires
        content_type_is_form(ct),
        form_names_user(form_pairs_of(body)),
        form_pairs_of(body).contains(("username"@, username)),
        form_pairs_of(body).contains(("email"@, email)),
    ensures
        submitted_user(ct, body) == Some((username, email)),
        add_user_status(ct, body, true) == STATUS_OK,
{
    lemma_single_key_value(form_pairs_of(body), "username"@, username);
    lemma_single_key_value(form_pairs_of(body), "email"@, email);
}

/// A form without a `username` or without an `email` stores nothing and is answered
/// `400 Bad Request`, whatever the store would have done.
pub proof fn lemma_incomplete_form_is_refused(ct: HeaderText, body: Seq<u8>, stored: bool)
    requires
        key_count(form_pairs_of(body), "username"@) == 0 || key_count(form_pairs_of(body), "email"@) == 0,
    ensures
        submitted_user(ct, body) is None,
        add_user_status(ct, body, stored) == STATUS_BAD_REQUEST,
{
}

/// An accepted request whose row cannot be stored is answered `500 Internal Server Error`,
/// the status that `user_added_status` gives for every failure.
pub proof fn lemma_store_failure_is_server_error(ct: HeaderText, body: Seq<u8>, failure: String)
    requires
        submitted_user(ct, body) is Some,
    ensures
        add_user_status(ct, body, false) == STATUS_INTERNAL_SERVER_ERROR,
        add_user_status(ct, body, false) == user_added_status_spec(Err(failure)),
{
}

/// The status that answers a request whose row was, or was not, stored.
pub open spec fn user_added_status_spec(outcome: Result<(), String>) -> u16 {
    if outcome is Ok {
        STATUS_OK
    } else {
        STATUS_INTERNAL_SERVER_ERROR
    }
}

impl FormRejection {
    /// The status that answers a refused form.
    pub fn status(&self) -> (r: u16)
        ensures
            r == STATUS_BAD_REQUEST,
    {
        STATUS_BAD_REQUEST
    }
}

/// Whether the `Content-Type` header announces a URL-encoded form.
pub fn is_form_content_type(content_type: &HeaderText) -> (r: bool)
    ensures
        r == content_type_is_form(*content_type),
{
    proof {
        reveal_strlit("application/x-www-form-urlencoded");
    }
    match content_type {
        HeaderText::Text(s) => has_prefix(s.as_str(), "application/x-www-form-urlencoded"),
        _ => false,
    }
}

/// Reads a user from decoded form pairs. Pairs with other names are ignored; a missing
/// or repeated `username` or `email` refuses the form.
pub fn parse_add_user(pairs: &Vec<(String, String)>) -> (r: Result<AddUser, FormRejection>)
    ensures
        r is Ok <==> form_names_user(pairs_view(pairs@)),
        r matches Ok(u) ==> u.username@ == key_value(pairs_view(pairs@), "username"@)
            && u.email@ == key_value(pairs_view(pairs@), "email"@),
        r matches Err(e) ==> e == FormRejection::InvalidForm,
{
    let ghost view = pairs_view(pairs@);
    let username_key = owned("username");
    let email_key = owned("email");
    let mut n_username: usize = 0;
    let mut n_email: usize = 0;
    let mut username = String::new();
    let mut email = String::new();
    let mut i: usize = 0;
    while i < pairs.len()
        invariant
            view == pairs_view(pairs@),
            username_key@ == "username"@,
            email_key@ == "email"@,
            i <= pairs@.len(),
            n_username <= i,
            n_email <= i,
            n_username == key_count(view.take(i as int), "username"@),
            n_email == key_count(view.take(i as int), "email"@),
            username@ == key_value(view.take(i as int), "username"@),
            email@ == key_value(view.take(i as int), "email"@),
        decreases pairs@.len() - i,
    {
        let ghost next = view.take(i + 1);
        proof {
            assert(next.drop_last() =~= view.take(i as int));
            assert(next.last() == view[i as int]);
        }
        let pair = &pairs[i];
        if pair.0 == username_key {
            n_username = n_username + 1;
            username = pair.1.clone();
        }
        if pair.0 == email_key {
            n_email = n_email + 1;
            email = pair.1.clone();
        }
        i = i + 1;
    }
    proof {
        assert(view.take(i as int) =~= view);
    }
    if n_username == 1 && n_email == 1 {
        Ok(AddUser { username, email })
    } else {
        Err(FormRejection::InvalidForm)
    }
}

/// Reads a user from a request's `Content-Type` header and body, as the form
/// extractor does: the header is checked first, then the decoded body.
pub fn extract_add_user(content_type: &HeaderText, body: &[u8]) -> (r: Result<AddUser, FormRejection>)
    ensures
        !content_type_is_form(*content_type) ==> r matches Err(FormRejection::InvalidContentType),
        content_type_is_form(*content_type) && !form_names_user(form_pairs_of(body@))
            ==> r matches Err(FormRejection::InvalidForm),
        r is Ok <==> submitted_user(*content_type, body@) is Some,
        r matches Ok(u) ==> submitted_user(*content_type, body@) == Some((u.username@, u.email@)),
        body@.len() == 0 ==> r is Err,
{
    if !is_form_content_type(content_type) {
        return Err(FormRejection::InvalidContentType);
    }
    let pairs = form_pairs(body);
    proof {
        if body@.len() == 0 {
            assert(pairs_view(pairs@).len() == 0);
            assert(key_count(pairs_view(pairs@), "username"@) == 0);
        }
    }
    parse_add_user(&pairs)
}

/// The row that stores a submitted user, under a fresh random identifier.
pub fn insert_user(form: &AddUser) -> (r: UserRow)
    ensures
        r.username@ == form.username@,
        r.email@ == form.email@,
        is_random_uuid(r.id),
{
    UserRow { id: new_random_id(), username: form.username.clone(), email: form.email.clone() }
}

/// The first step of `POST /user`: a refused form is answered with `400 Bad Request`
/// and stores nothing; an accepted one becomes a row to insert.
pub fn add_user(content_type: &HeaderText, body: &[u8]) -> (r: AddUserAction)
    ensures
        r is Insert <==> submitted_user(*content_type, body@) is Some,
        r matches AddUserAction::Insert(row) ==> submitted_user(*content_type, body@) == Some(
            (row.username@, row.email@),
        ) && is_random_uuid(row.id),
        r matches AddUserAction::Respond(s) ==> s == add_user_status(*content_type, body@, false),
        body@.len() == 0 ==> r == AddUserAction::Respond(STATUS_BAD_REQUEST),
{
    match extract_add_user(content_type, body) {
        Ok(form) => AddUserAction::Insert(insert_user(&form)),
        Err(rejection) => AddUserAction::Respond(rejection.status()),
    }
}

/// The last step of `POST /user`: `200 OK` once the row is stored, and one generic
/// `500 Internal Server Error` for any failure to store it.
pub fn user_added_status(outcome: &Result<(), String>) -> (r: u16)
    ensures
        r == user_added_status_spec(*outcome),
{
    match outcome {
        Ok(()) => STATUS_OK,
        Err(_) => STATUS_INTERNAL_SERVER_ERROR,
    }
}

/// The error event logged when storing a row fails, with the failure's detail.
pub fn insert_failed_event(detail: &String) -> (r: LogEvent)
    ensures
        r.level == Level::Error,
        r.message@ == "Failed to execute query: "@ + detail@,
        r.fields@.len() == 0,
{
    proof {
        reveal_strlit("Failed to execute query: ");
    }
    LogEvent {
        level: Level::Error,
        message: owned("Failed to execute query: ").concat(detail.as_str()),
        fields: Vec::new(),
    }
}

} // verus!
