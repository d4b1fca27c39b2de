//! From the record that the directory sends to a profile.
//!
//! The directory writes an optional attribute that it does not have as an
//! empty text, or leaves it null. A profile tells the two apart from a value
//! that is there: an attribute is absent, or it holds at least one character.

use crate::profile::{department_names, is_normal, optional_text, Department, User, UserView};
use vstd::prelude::*;

verus! {

/// One person's record as the directory sends it, field for field.
#[derive(Debug)]
pub struct RawUser {
    pub given_name: String,
    pub family_name: String,
    pub email: String,
    pub url: String,
    pub works_for: Vec<Department>,
    pub job_title: Option<String>,
    pub work_location: Option<String>,
    pub telephone: Option<String>,
}

/// What a record says, as plain values.
pub struct RawUserView {
    pub given_name: Seq<char>,
    pub family_name: Seq<char>,
    pub email: Seq<char>,
    pub url: Seq<char>,
    pub works_for: Seq<Seq<char>>,
    pub job_title: Option<Seq<char>>,
    pub work_location: Option<Seq<char>>,
    pub telephone: Option<Seq<char>>,
}

impl View for RawUser {
    type V = RawUserView;

    open spec fn view(&self) -> RawUserView {
        RawUserView {
            given_name: self.given_name@,
            family_name: self.family_name@,
            email: self.email@,
            url: self.url@,
            works_for: department_names(self.works_for@),
            job_title: optional_text(self.job_title),
            work_location: optional_text(self.work_location),
            telephone: optional_text(self.telephone),
        }
    }
}

/// An optional attribute with the empty text taken for absent.
pub open spec fn normalize(value: Option<Seq<char>>) -> Option<Seq<char>> {
    match value {
        Some(text) => if text.len() == 0 {
            None
        } else {
            Some(text)
        },
        None => None,
    }
}

/// The profile that a record stands for.
pub open spec fn decode_spec(raw: RawUserView) -> UserView {
    UserView {
        given_name: raw.given_name,
        family_name: raw.family_name,
        email: raw.email,
        url: raw.url,
        works_for: raw.works_for,
        job_title: normalize(raw.job_title),
        work_location: normalize(raw.work_location),
        telephone: normalize(raw.telephone),
    }
}

/// Takes the empty text for an absent value and keeps any other as it is.
pub fn empty_string_is_none(value: Option<String>) -> (kept: Option<String>)
    ensures
        optional_text(kept) == normalize(optional_text(value)),
{
    match value {
        Some(text) => {
            if text.as_str().is_empty() {
                None
            } else {
                Some(text)
            }
        },
        None => None,
    }
}

/// Makes the profile that a record stands for.
pub fn decode(raw: RawUser) -> (user: User)
    ensures
        user@ == decode_spec(raw@),
        user@.normalized(),
{
    User {
        given_name: raw.given_name,
        family_name: raw.family_name,
        email: raw.email,
        url: raw.url,
        works_for: raw.works_for,
        job_title: empty_string_is_none(raw.job_title),
        work_location: empty_string_is_none(raw.work_location),
        telephone: empty_string_is_none(raw.telephone),
    }
}

/// Equal records stand for profiles that are equal field for field.
pub proof fn lemma_decode_deterministic(first: RawUserView, second: RawUserView)
    requires
        first == second,
    ensures
        decode_spec(first).given_name == decode_spec(second).given_name,
        decode_spec(first).family_name == decode_spec(second).family_name,
        decode_spec(first).email == decode_spec(second).email,
        decode_spec(first).url == decode_spec(second).url,
        decode_spec(first).works_for == decode_spec(second).works_for,
        decode_spec(first).job_title == decode_spec(second).job_title,
        decode_spec(first).work_location == decode_spec(second).work_location,
        decode_spec(first).telephone == decode_spec(second).telephone,
{
}

/// Every decoded profile is normalized, and its required attributes and
/// departments are those of the record, in order.
pub proof fn lemma_decode_normalized(raw: RawUserView)
    ensures
        decode_spec(raw).normalized(),
        decode_spec(raw).works_for == raw.works_for,
{
}

/// An optional attribute is present after decoding exactly when the record
/// holds a text of at least one character for it, and it is then that text.
pub proof fn lemma_normalize_presence(value: Option<Seq<char>>)
    ensures
        normalize(value) is Some <==> (value matches Some(text) && text.len() > 0),
        normalize(value) is Some ==> normalize(value) == value,
        is_normal(normalize(value)),
        normalize(normalize(value)) == normalize(value),
{
}

} // verus!
