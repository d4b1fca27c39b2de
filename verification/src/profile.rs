//! The profile record and its mathematical model.

use vstd::prelude::*;

verus! {

/// An organisational unit that a person is affiliated with.
#[derive(Debug)]
pub struct Department {
    pub name: String,
}

/// The names of a list of departments, in order.
pub open spec fn department_names(departments: Seq<Department>) -> Seq<Seq<char>> {
    departments.map_values(|d: Department| d.name@)
}

/// An optional text as a plain value.
pub open spec fn optional_text(value: Option<String>) -> Option<Seq<char>> {
    match value {
        Some(text) => Some(text@),
        None => None,
    }
}

/// What a profile says, as plain values.
pub struct UserView {
    pub given_name: Seq<char>,
    pub family_name: Seq<char>,
    pub email: Seq<char>,
    pub url: Seq<char>,
    pub works_for: Seq<Seq<char>>,
    pub job_title: Option<Seq<char>>,
    pub work_location: Option<Seq<char>>,
    pub telephone: Option<Seq<char>>,
}

/// An optional attribute is in normal form when it is absent or holds at
/// least one character.
pub open spec fn is_normal(value: Option<Seq<char>>) -> bool {
    value matches Some(text) ==> text.len() > 0
}

impl UserView {
    /// No optional attribute is present and empty.
    pub open spec fn normalized(self) -> bool {
        &&& is_normal(self.job_title)
        &&& is_normal(self.work_location)
        &&& is_normal(self.telephone)
    }
}

/// The directory's record of one person.
///
/// A value of this type is always normalized: an optional attribute is absent
/// or holds at least one character. [`crate::decode::decode`] is the only way
/// to make one.
#[derive(Debug)]
pub struct User {
    pub(crate) given_name: String,
    pub(crate) family_name: String,
    pub(crate) email: String,
    pub(crate) url: String,
    pub(crate) works_for: Vec<Department>,
    pub(crate) job_title: Option<String>,
    pub(crate) work_location: Option<String>,
    pub(crate) telephone: Option<String>,
}

impl View for User {
    type V = UserView;

    open(crate) spec fn view(&self) -> UserView {
        UserView {
            given_name: self.given_name@,
            family_name: self.family_name@,
            email: self.email@,
            url: self.url@,
            works_for: department_names(self.works_for@),
            job_title: optional_text(self.job_title),
            work_location: optional_text(self.work_location),
            telephone: optional_text(self.telephone),
        }
    }
}

impl User {
    /// Holds of every profile: it is normalized.
    #[verifier::type_invariant]
    pub(crate) open spec fn inv(self) -> bool {
        self@.normalized()
    }

    /// The given name.
    pub fn given_name(&self) -> (name: &str)
        ensures
            name@ == self@.given_name,
    {
        self.given_name.as_str()
    }

    /// The family name.
    pub fn family_name(&self) -> (name: &str)
        ensures
            name@ == self@.family_name,
    {
        self.family_name.as_str()
    }

    /// The email address.
    pub fn email(&self) -> (address: &str)
        ensures
            address@ == self@.email,
    {
        self.email.as_str()
    }

    /// The address of the person's profile page.
    pub fn url(&self) -> (link: &str)
        ensures
            link@ == self@.url,
    {
        self.url.as_str()
    }

    /// The departments that the person is affiliated with, in the order of
    /// the record.
    pub fn works_for(&self) -> (departments: &Vec<Department>)
        ensures
            department_names(departments@) == self@.works_for,
    {
        &self.works_for
    }

    /// The job title, if the person has one. It is never the empty text.
    pub fn job_title(&self) -> (title: Option<&str>)
        ensures
            optional_str(title) == self@.job_title,
            is_normal(self@.job_title),
    {
        proof {
            use_type_invariant(self);
        }
        borrow_text(&self.job_title)
    }

    /// The work location, if one is recorded. It is never the empty text.
    pub fn work_location(&self) -> (place: Option<&str>)
        ensures
            optional_str(place) == self@.work_location,
            is_normal(self@.work_location),
    {
        proof {
            use_type_invariant(self);
        }
        borrow_text(&self.work_location)
    }

    /// The telephone number, if one is recorded. It is never the empty text.
    pub fn telephone(&self) -> (number: Option<&str>)
        ensures
            optional_str(number) == self@.telephone,
            is_normal(self@.telephone),
    {
        proof {
            use_type_invariant(self);
        }
        borrow_text(&self.telephone)
    }
}

/// A borrowed optional text as a plain value.
pub open spec fn optional_str(value: Option<&str>) -> Option<Seq<char>> {
    match value {
        Some(text) => Some(text@),
        None => None,
    }
}

/// The text of an optional value, borrowed.
fn borrow_text(value: &Option<String>) -> (text: Option<&str>)
    ensures
        optional_str(text) == optional_text(*value),
{
    match value {
        Some(owned) => Some(owned.as_str()),
        None => None,
    }
}

} // verus!
