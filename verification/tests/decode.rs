use kthprofile::decode::{decode, empty_string_is_none, RawUser};
use kthprofile::profile::Department;

fn record(job_title: Option<&str>, work_location: Option<&str>, telephone: Option<&str>) -> RawUser {
    RawUser {
        given_name: String::from("Ada"),
        family_name: String::from("Lovelace"),
        email: String::from("ada@example.com"),
        url: String::from("https://example.com/ada"),
        works_for: vec![Department { name: String::from("CS") }],
        job_title: job_title.map(String::from),
        work_location: work_location.map(String::from),
        telephone: telephone.map(String::from),
    }
}

#[test]
fn empty_text_is_taken_for_absent() {
    assert_eq!(empty_string_is_none(Some(String::new())), None);
}

#[test]
fn absent_stays_absent() {
    assert_eq!(empty_string_is_none(None), None);
}

#[test]
fn text_is_kept_as_it_is() {
    assert_eq!(
        empty_string_is_none(Some(String::from("Professor"))),
        Some(String::from("Professor"))
    );
}

#[test]
fn blank_text_is_not_empty() {
    assert_eq!(empty_string_is_none(Some(String::from(" "))), Some(String::from(" ")));
}

#[test]
fn empty_job_title_decodes_as_absent() {
    let user = decode(record(Some(""), None, None));
    assert_eq!(user.job_title(), None);
}

#[test]
fn job_title_decodes_with_its_exact_value() {
    let user = decode(record(Some("Professor"), None, None));
    assert_eq!(user.job_title(), Some("Professor"));
}

#[test]
fn null_attributes_decode_as_absent() {
    let user = decode(record(None, None, None));
    assert_eq!(user.job_title(), None);
    assert_eq!(user.work_location(), None);
    assert_eq!(user.telephone(), None);
}

#[test]
fn each_optional_attribute_is_normalized_on_its_own() {
    let user = decode(record(Some(""), Some("Building 1"), Some("")));
    assert_eq!(user.job_title(), None);
    assert_eq!(user.work_location(), Some("Building 1"));
    assert_eq!(user.telephone(), None);

    let user = decode(record(Some("Lecturer"), Some(""), Some("+46 8 790 60 00")));
    assert_eq!(user.job_title(), Some("Lecturer"));
    assert_eq!(user.work_location(), None);
    assert_eq!(user.telephone(), Some("+46 8 790 60 00"));
}

#[test]
fn required_attributes_are_taken_over_unchanged() {
    let user = decode(record(None, None, None));
    assert_eq!(user.given_name(), "Ada");
    assert_eq!(user.family_name(), "Lovelace");
    assert_eq!(user.email(), "ada@example.com");
    assert_eq!(user.url(), "https://example.com/ada");
    assert_eq!(user.works_for().len(), 1);
    assert_eq!(user.works_for()[0].name, "CS");
}

#[test]
fn required_attributes_may_be_empty() {
    let mut raw = record(None, None, None);
    raw.given_name = String::new();
    raw.email = String::new();
    let user = decode(raw);
    assert_eq!(user.given_name(), "");
    assert_eq!(user.email(), "");
}

#[test]
fn departments_keep_their_order() {
    let mut raw = record(None, None, None);
    raw.works_for = vec![
        Department { name: String::from("Mathematics") },
        Department { name: String::from("CS") },
        Department { name: String::from("Mathematics") },
    ];
    let user = decode(raw);
    let names: Vec<&str> = user.works_for().iter().map(|d| d.name.as_str()).collect();
    assert_eq!(names, vec!["Mathematics", "CS", "Mathematics"]);
}

#[test]
fn decoding_twice_gives_the_same_profile() {
    let first = decode(record(Some(""), Some("Building 1"), None));
    let second = decode(record(Some(""), Some("Building 1"), None));
    assert_eq!(first.given_name(), second.given_name());
    assert_eq!(first.family_name(), second.family_name());
    assert_eq!(first.email(), second.email());
    assert_eq!(first.url(), second.url());
    assert_eq!(first.works_for().len(), second.works_for().len());
    assert_eq!(first.works_for()[0].name, second.works_for()[0].name);
    assert_eq!(first.job_title(), second.job_title());
    assert_eq!(first.work_location(), second.work_location());
    assert_eq!(first.telephone(), second.telephone());
    assert_eq!(first.render(), second.render());
}
