//! The text shown for a profile.
//!
//! A profile is shown as a sequence of lines: a heading that links the
//! person's name to the profile page, one line for each department, and one
//! line for each optional attribute that is present. The text is those lines,
//! each followed by a line feed.

use crate::decode::{decode_spec, normalize, RawUserView};
use crate::lines::{
    is_single_line, join_lines, lemma_join_lines_concat, lemma_join_lines_single,
    lemma_lines_of_joined, lines_of,
};
use crate::profile::{department_names, optional_text, User, UserView};
use vstd::prelude::*;

verus! {

/// A label that a terminal shows as a link to `target`.
pub open spec fn hyperlink(target: Seq<char>, label: Seq<char>) -> Seq<char> {
    "\x1b]8;;"@ + target + "\x1b\\"@ + label + "\x1b]8;;\x1b\\"@
}

/// The heading: the full name, linked to the profile page, and the address
/// in angle brackets.
pub open spec fn heading(user: UserView) -> Seq<char> {
    hyperlink(user.url, user.given_name + " "@ + user.family_name) + " <"@ + user.email + ">"@
}

/// The line for one department.
pub open spec fn department_line(name: Seq<char>) -> Seq<char> {
    "    "@ + name
}

/// The line for an optional attribute that is present.
pub open spec fn labelled_line(label: Seq<char>, value: Seq<char>) -> Seq<char> {
    "    "@ + label + " "@ + value
}

/// The lines for an optional attribute: one if it is present, none if not.
pub open spec fn optional_lines(label: Seq<char>, value: Option<Seq<char>>) -> Seq<Seq<char>> {
    match value {
        Some(text) => seq![labelled_line(label, text)],
        None => Seq::empty(),
    }
}

/// The lines shown for a profile, in order.
pub open spec fn render_lines(user: UserView) -> Seq<Seq<char>> {
    seq![heading(user)] + user.works_for.map_values(|name: Seq<char>| department_line(name))
        + optional_lines("Titel:"@, user.job_title) + optional_lines(
        "Plats:"@,
        user.work_location,
    ) + optional_lines("Tel:  "@, user.telephone)
}

/// The text shown for a profile.
pub open spec fn render_text(user: UserView) -> Seq<char> {
    join_lines(render_lines(user))
}

/// How many lines an optional attribute takes: one if it is present.
pub open spec fn line_count(value: Option<Seq<char>>) -> nat {
    if value is Some {
        1
    } else {
        0
    }
}

/// No attribute of the profile holds a line feed.
pub open spec fn has_single_line_fields(user: UserView) -> bool {
    &&& is_single_line(user.given_name)
    &&& is_single_line(user.family_name)
    &&& is_single_line(user.email)
    &&& is_single_line(user.url)
    &&& forall|i: int| 0 <= i < user.works_for.len() ==> is_single_line(#[trigger] user.works_for[i])
    &&& user.job_title matches Some(text) ==> is_single_line(text)
    &&& user.work_location matches Some(text) ==> is_single_line(text)
    &&& user.telephone matches Some(text) ==> is_single_line(text)
}

/// The layout of a profile's lines: the heading first and once; then one
/// line for each department, in the order of the departments; then the
/// lines of the optional attributes that are present, and no others, in the
/// order title, location, telephone.
pub proof fn lemma_render_layout(user: UserView)
    ensures
        ({
            let lines = render_lines(user);
            let departments = user.works_for.len() as int;
            let title = line_count(user.job_title) as int;
            let place = line_count(user.work_location) as int;
            let phone = line_count(user.telephone) as int;
            &&& lines.len() == 1 + departments + title + place + phone
            &&& lines[0] == heading(user)
            &&& forall|i: int|
                0 <= i < departments ==> #[trigger] lines[1 + i] == department_line(
                    user.works_for[i],
                )
            &&& user.job_title matches Some(text) ==> lines[1 + departments] == labelled_line(
                "Titel:"@,
                text,
            )
            &&& user.work_location matches Some(text) ==> lines[1 + departments + title]
                == labelled_line("Plats:"@, text)
            &&& user.telephone matches Some(text) ==> lines[1 + departments + title + place]
                == labelled_line("Tel:  "@, text)
        }),
{
}

/// How many lines an optional attribute of a record takes once the record
/// is decoded: one if the record holds a text of at least one character for
/// it, none if it holds the empty text or nothing.
pub open spec fn record_line_count(value: Option<Seq<char>>) -> nat {
    line_count(normalize(value))
}

/// The layout of a decoded profile's lines, read from the record: the
/// heading; one line for each department of the record, in order; and a
/// line for exactly those optional attributes for which the record holds a
/// text of at least one character, with that text.
pub proof fn lemma_decoded_layout(raw: RawUserView)
    ensures
        ({
            let lines = render_lines(decode_spec(raw));
            let departments = raw.works_for.len() as int;
            let title = record_line_count(raw.job_title) as int;
            let place = record_line_count(raw.work_location) as int;
            let phone = record_line_count(raw.telephone) as int;
            &&& lines.len() == 1 + departments + title + place + phone
            &&& lines[0] == heading(decode_spec(raw))
            &&& forall|i: int|
                0 <= i < departments ==> #[trigger] lines[1 + i] == department_line(
                    raw.works_for[i],
                )
            &&& title == if raw.job_title matches Some(text) && text.len() > 0 {
                1int
            } else {
                0int
            }
            &&& place == if raw.work_location matches Some(text) && text.len() > 0 {
                1int
            } else {
                0int
            }
            &&& phone == if raw.telephone matches Some(text) && text.len() > 0 {
                1int
            } else {
                0int
            }
            &&& title == 1 ==> lines[1 + departments] == labelled_line(
                "Titel:"@,
                raw.job_title->0,
            )
            &&& place == 1 ==> lines[1 + departments + title] == labelled_line(
                "Plats:"@,
                raw.work_location->0,
            )
            &&& phone == 1 ==> lines[1 + departments + title + place] == labelled_line(
                "Tel:  "@,
                raw.telephone->0,
            )
        }),
{
    lemma_render_layout(decode_spec(raw));
}

/// Each line of a profile without line feeds in its attributes is without
/// a line feed itself.
pub proof fn lemma_render_lines_single(user: UserView)
    requires
        has_single_line_fields(user),
    ensures
        forall|i: int|
            0 <= i < render_lines(user).len() ==> is_single_line(#[trigger] render_lines(user)[i]),
{
    reveal_strlit("\x1b]8;;");
    reveal_strlit("\x1b\\");
    reveal_strlit("\x1b]8;;\x1b\\");
    reveal_strlit(" ");
    reveal_strlit(" <");
    reveal_strlit(">");
    reveal_strlit("    ");
    reveal_strlit("Titel:");
    reveal_strlit("Plats:");
    reveal_strlit("Tel:  ");
    lemma_render_layout(user);
    let lines = render_lines(user);
    let departments = user.works_for.len() as int;
    assert(is_single_line(heading(user)));
    assert forall|i: int| 0 <= i < lines.len() implies is_single_line(#[trigger] lines[i]) by {
        if i == 0 {
        } else if i < 1 + departments {
            let k = i - 1;
            assert(lines[1 + k] == department_line(user.works_for[k]));
            assert(is_single_line(user.works_for[k]));
        } else {
        }
    }
}

/// The text of a profile without line feeds in its attributes, read line
/// by line, gives the profile's lines: no line is lost, added or moved.
pub proof fn lemma_rendered_text_lines(user: UserView)
    requires
        has_single_line_fields(user),
    ensures
        lines_of(render_text(user)) == render_lines(user),
{
    lemma_render_lines_single(user);
    lemma_lines_of_joined(render_lines(user));
}

/// Appends to `out` the line for an optional attribute, if it is present.
pub fn write_opt(out: &mut String, label: &str, value: &Option<String>)
    ensures
        final(out)@ == old(out)@ + join_lines(optional_lines(label@, optional_text(*value))),
{
    match value {
        Some(text) => {
            let ghost before = out@;
            out.append("    ");
            out.append(label);
            out.append(" ");
            out.append(text.as_str());
            out.append("\n");
            proof {
                lemma_join_lines_single(labelled_line(label@, text@));
                assert(out@ =~= before + (labelled_line(label@, text@) + "\n"@));
            }
        },
        None => {
            assert(join_lines(Seq::<Seq<char>>::empty()) =~= Seq::<char>::empty());
            assert(out@ =~= out@ + Seq::<char>::empty());
        },
    }
}

impl User {
    /// The text shown for this profile.
    pub fn render(&self) -> (text: String)
        ensures
            text@ == render_text(self@),
    {
        let mut out = String::new();
        out.append("\x1b]8;;");
        out.append(self.url.as_str());
        out.append("\x1b\\");
        out.append(self.given_name.as_str());
        out.append(" ");
        out.append(self.family_name.as_str());
        out.append("\x1b]8;;\x1b\\");
        out.append(" <");
        out.append(self.email.as_str());
        out.append(">");
        out.append("\n");
        let ghost names = department_names(self.works_for@);
        let ghost shown = names.map_values(|name: Seq<char>| department_line(name));
        proof {
            lemma_join_lines_single(heading(self@));
            assert(out@ =~= heading(self@) + "\n"@);
            assert(seq![heading(self@)] + shown.take(0) =~= seq![heading(self@)]);
        }
        let mut i: usize = 0;
        while i < self.works_for.len()
            invariant
                i <= self.works_for.len(),
                names == department_names(self.works_for@),
                shown == names.map_values(|name: Seq<char>| department_line(name)),
                out@ == join_lines(seq![heading(self@)] + shown.take(i as int)),
            decreases self.works_for.len() - i,
        {
            let ghost before = out@;
            out.append("    ");
            out.append(self.works_for[i].name.as_str());
            out.append("\n");
            proof {
                let line = department_line(names[i as int]);
                assert(shown[i as int] == line);
                assert(shown.take(i + 1) =~= shown.take(i as int) + seq![line]);
                lemma_join_lines_single(line);
                lemma_join_lines_concat(seq![heading(self@)] + shown.take(i as int), seq![line]);
                assert(seq![heading(self@)] + shown.take(i + 1) =~= (seq![heading(self@)]
                    + shown.take(i as int)) + seq![line]);
                assert(out@ =~= before + (line + "\n"@));
            }
            i = i + 1;
        }
        let ghost head = seq![heading(self@)] + shown;
        let ghost title = optional_lines("Titel:"@, self@.job_title);
        let ghost place = optional_lines("Plats:"@, self@.work_location);
        let ghost phone = optional_lines("Tel:  "@, self@.telephone);
        assert(shown.take(i as int) =~= shown);
        write_opt(&mut out, "Titel:", &self.job_title);
        write_opt(&mut out, "Plats:", &self.work_location);
        write_opt(&mut out, "Tel:  ", &self.telephone);
        proof {
            lemma_join_lines_concat(head, title);
            lemma_join_lines_concat(head + title, place);
            lemma_join_lines_concat(head + title + place, phone);
        }
        out
    }
}

} // verus!
