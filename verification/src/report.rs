//! The block of text printed for one identifier: the profile, or a line that
//! says why there is none, and a blank line after either.

use crate::fetch::LookupError;
use crate::lines::{join_lines, lemma_join_lines_concat, lemma_join_lines_single};
use crate::profile::{User, UserView};
use crate::render::render_lines;
use vstd::prelude::*;

verus! {

/// What std's `Debug` implementation for `str` writes for a text: the text in
/// double quotes, with escapes in place of a double quote, a backslash and the
/// characters that std does not take for printable. Which characters those
/// are follows std's tables, so the result has a name and no definition.
pub uninterp spec fn debug_text(text: Seq<char>) -> Seq<char>;

/// Formats `text` with `{:?}`, that is with std's `Debug` implementation for
/// `str`. Not proved: that the result is a function of the text alone, which
/// is all the contract claims.
#[verifier::external_body]
fn debug_quoted(text: &str) -> (quoted: String)
    ensures
        quoted@ == debug_text(text@),
{
    format!("{:?}", text)
}

/// How a lookup ended, as plain values: the profile, or the description of
/// the failure.
pub type OutcomeView = Result<UserView, Seq<char>>;

/// An outcome as plain values.
pub open spec fn outcome_view(outcome: Result<User, LookupError>) -> OutcomeView {
    match outcome {
        Ok(user) => Ok(user@),
        Err(error) => Err(error.description_text()),
    }
}

/// The line that reports a failure, given the identifier as it is to be
/// shown.
pub open spec fn failure_line(quoted: Seq<char>, description: Seq<char>) -> Seq<char> {
    "Failed to get user "@ + quoted + ": "@ + description
}

/// The lines of the block for a failure: the report and a blank line.
pub open spec fn failure_lines(quoted: Seq<char>, description: Seq<char>) -> Seq<Seq<char>> {
    seq![failure_line(quoted, description), Seq::empty()]
}

/// The lines of the block for one identifier: those of the profile or the
/// report of the failure, and a blank line.
pub open spec fn report_lines(identifier: Seq<char>, outcome: OutcomeView) -> Seq<Seq<char>> {
    match outcome {
        Ok(user) => render_lines(user).push(Seq::empty()),
        Err(description) => failure_lines(debug_text(identifier), description),
    }
}

/// The block printed for one identifier.
pub open spec fn report_text(identifier: Seq<char>, outcome: OutcomeView) -> Seq<char> {
    join_lines(report_lines(identifier, outcome))
}

/// The block for a failure, given the identifier as it is to be shown.
pub fn failure_block(quoted: &str, description: &str) -> (block: String)
    ensures
        block@ == join_lines(failure_lines(quoted@, description@)),
{
    let mut block = String::from_str("Failed to get user ");
    block.append(quoted);
    block.append(": ");
    block.append(description);
    block.append("\n");
    block.append("\n");
    proof {
        let line = failure_line(quoted@, description@);
        lemma_join_lines_single(line);
        lemma_join_lines_single(Seq::<char>::empty());
        lemma_join_lines_concat(seq![line], seq![Seq::<char>::empty()]);
        assert(failure_lines(quoted@, description@) =~= seq![line] + seq![Seq::<char>::empty()]);
        assert(block@ =~= (line + "\n"@) + (Seq::<char>::empty() + "\n"@));
    }
    block
}

/// The block for a profile: its text and a blank line.
pub fn profile_block(user: &User) -> (block: String)
    ensures
        block@ == join_lines(render_lines(user@).push(Seq::empty())),
{
    let mut block = user.render();
    block.append("\n");
    proof {
        let lines = render_lines(user@);
        lemma_join_lines_single(Seq::<char>::empty());
        lemma_join_lines_concat(lines, seq![Seq::<char>::empty()]);
        assert(lines.push(Seq::empty()) =~= lines + seq![Seq::<char>::empty()]);
        assert(block@ =~= join_lines(lines) + (Seq::<char>::empty() + "\n"@));
    }
    block
}

/// The block printed for `identifier` when its lookup ended in `outcome`.
pub fn report(identifier: &str, outcome: &Result<User, LookupError>) -> (block: String)
    ensures
        block@ == report_text(identifier@, outcome_view(*outcome)),
{
    match outcome {
        Ok(user) => profile_block(user),
        Err(error) => {
            let quoted = debug_quoted(identifier);
            failure_block(quoted.as_str(), error.description())
        },
    }
}

} // verus!
