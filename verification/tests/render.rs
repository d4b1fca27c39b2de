use kthprofile::decode::{decode, RawUser};
use kthprofile::profile::Department;
use kthprofile::render::write_opt;

fn ada() -> RawUser {
    RawUser {
        given_name: String::from("Ada"),
        family_name: String::from("Lovelace"),
        email: String::from("ada@example.com"),
        url: String::from("https://example.com/ada"),
        works_for: vec![Department { name: String::from("CS") }],
        job_title: Some(String::new()),
        work_location: Some(String::from("Building 1")),
        telephone: None,
    }
}

const ADA_HEADING: &str =
    "\u{1b}]8;;https://example.com/ada\u{1b}\\Ada Lovelace\u{1b}]8;;\u{1b}\\ <ada@example.com>";

#[test]
fn profile_with_one_department_and_a_location() {
    let text = decode(ada()).render();
    assert_eq!(text, format!("{}\n    CS\n    Plats: Building 1\n", ADA_HEADING));
    let lines: Vec<&str> = text.lines().collect();
    assert_eq!(lines.len(), 3);
    assert_eq!(lines[1], "    CS");
    assert_eq!(lines[2], "    Plats: Building 1");
    assert!(!text.contains("Titel:"));
    assert!(!text.contains("Tel:"));
}

#[test]
fn heading_links_the_name_to_the_profile_page() {
    let text = decode(ada()).render();
    let heading = text.lines().next().unwrap();
    assert!(heading.starts_with("\u{1b}]8;;https://example.com/ada\u{1b}\\"));
    assert!(heading.ends_with("Ada Lovelace\u{1b}]8;;\u{1b}\\ <ada@example.com>"));
    assert_eq!(text.matches("\u{1b}]8;;").count(), 2);
}

#[test]
fn profile_without_departments_or_optional_attributes() {
    let mut raw = ada();
    raw.works_for = Vec::new();
    raw.work_location = None;
    let text = decode(raw).render();
    assert_eq!(text, format!("{}\n", ADA_HEADING));
}

#[test]
fn all_optional_attributes_in_their_order() {
    let mut raw = ada();
    raw.works_for = vec![
        Department { name: String::from("EECS") },
        Department { name: String::from("Theoretical Computer Science") },
    ];
    raw.job_title = Some(String::from("Professor"));
    raw.telephone = Some(String::from("087906000"));
    let text = decode(raw).render();
    assert_eq!(
        text,
        format!(
            "{}\n    EECS\n    Theoretical Computer Science\n    Titel: Professor\n    Plats: Building 1\n    Tel:   087906000\n",
            ADA_HEADING
        )
    );
}

#[test]
fn line_count_follows_the_record() {
    let mut raw = ada();
    raw.works_for = vec![
        Department { name: String::from("A") },
        Department { name: String::from("B") },
        Department { name: String::from("C") },
    ];
    raw.job_title = Some(String::from("Professor"));
    raw.work_location = Some(String::new());
    raw.telephone = Some(String::from("1"));
    let text = decode(raw).render();
    let lines: Vec<&str> = text.lines().collect();
    assert_eq!(lines.len(), 1 + 3 + 2);
    assert_eq!(lines[1..4], ["    A", "    B", "    C"]);
    assert_eq!(lines[4], "    Titel: Professor");
    assert_eq!(lines[5], "    Tel:   1");
    assert!(text.ends_with('\n'));
}

#[test]
fn department_with_an_empty_name_still_has_its_line() {
    let mut raw = ada();
    raw.works_for = vec![Department { name: String::new() }];
    raw.work_location = None;
    let text = decode(raw).render();
    assert_eq!(text, format!("{}\n    \n", ADA_HEADING));
}

#[test]
fn write_opt_appends_a_labelled_line() {
    let mut out = String::from("x\n");
    write_opt(&mut out, "Titel:", &Some(String::from("Professor")));
    assert_eq!(out, "x\n    Titel: Professor\n");
}

#[test]
fn write_opt_pads_the_short_label() {
    let mut out = String::new();
    write_opt(&mut out, "Tel:  ", &Some(String::from("08-790 60 00")));
    assert_eq!(out, "    Tel:   08-790 60 00\n");
}

#[test]
fn write_opt_writes_nothing_for_an_absent_value() {
    let mut out = String::from("kept");
    write_opt(&mut out, "Plats:", &None);
    assert_eq!(out, "kept");
}
