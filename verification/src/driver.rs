//! The order of work over the identifiers of one run.
//!
//! A session holds the identifiers in the order given and counts those that
//! have been answered. It names the next request, takes what came of it, and
//! gives the block to print. Whatever comes back, it moves on to the next
//! identifier: a failure is reported and ends nothing.

use crate::fetch::{profile_url, profile_url_text, LookupError};
use crate::profile::{optional_text, User};
use crate::report::{outcome_view, report, report_text, OutcomeView};
use vstd::prelude::*;

verus! {

/// Why a run cannot start.
#[derive(Debug)]
pub enum UsageError {
    /// No identifier was given.
    NoIdentifiers,
}

/// The texts of a list of strings, in order.
pub open spec fn texts(strings: Seq<String>) -> Seq<Seq<char>> {
    strings.map_values(|s: String| s@)
}

/// A session as plain values: the identifiers, and how many of them have
/// been answered.
pub struct SessionView {
    pub names: Seq<Seq<char>>,
    pub answered: nat,
}

impl SessionView {
    /// The session before its first request.
    pub open spec fn start(names: Seq<Seq<char>>) -> SessionView {
        SessionView { names, answered: 0 }
    }

    /// Every identifier has been answered.
    pub open spec fn finished(self) -> bool {
        self.answered >= self.names.len()
    }

    /// The address to ask next, if an identifier is left.
    pub open spec fn request(self) -> Option<Seq<char>> {
        if self.finished() {
            None
        } else {
            Some(profile_url_text(self.names[self.answered as int]))
        }
    }

    /// The session after `outcome` has come back for the request, and the
    /// block to print for it. A finished session stays as it is and prints
    /// nothing.
    pub open spec fn record(self, outcome: OutcomeView) -> (SessionView, Option<Seq<char>>) {
        if self.finished() {
            (self, None)
        } else {
            (
                SessionView { names: self.names, answered: self.answered + 1 },
                Some(report_text(self.names[self.answered as int], outcome)),
            )
        }
    }

    /// The session after the outcomes have come back one after another, and
    /// the blocks printed on the way.
    pub open spec fn run(self, outcomes: Seq<OutcomeView>) -> (SessionView, Seq<Seq<char>>)
        decreases outcomes.len(),
    {
        if outcomes.len() == 0 {
            (self, Seq::empty())
        } else {
            let (before, blocks) = self.run(outcomes.drop_last());
            let (after, block) = before.record(outcomes.last());
            match block {
                Some(text) => (after, blocks.push(text)),
                None => (after, blocks),
            }
        }
    }
}

/// A run prints one block for each identifier that was answered, in the
/// order of the identifiers, and each block is the one for that identifier
/// and its outcome. After `outcomes`, as many identifiers are answered as
/// there are outcomes, though no more than there are identifiers; the
/// session is finished exactly when every identifier has its outcome.
pub proof fn lemma_one_block_per_identifier(names: Seq<Seq<char>>, outcomes: Seq<OutcomeView>)
    ensures
        ({
            let (end, blocks) = SessionView::start(names).run(outcomes);
            &&& end.names == names
            &&& end.answered == blocks.len()
            &&& blocks.len() == if outcomes.len() <= names.len() {
                outcomes.len()
            } else {
                names.len()
            }
            &&& end.finished() <==> outcomes.len() >= names.len()
            &&& forall|i: int|
                0 <= i < blocks.len() ==> #[trigger] blocks[i] == report_text(names[i], outcomes[i])
        }),
    decreases outcomes.len(),
{
    if outcomes.len() > 0 {
        lemma_one_block_per_identifier(names, outcomes.drop_last());
    }
}

/// The identifiers of one run and the place reached in them.
#[derive(Debug)]
pub struct Session {
    names: Vec<String>,
    answered: usize,
}

impl View for Session {
    type V = SessionView;

    closed spec fn view(&self) -> SessionView {
        SessionView { names: texts(self.names@), answered: self.answered as nat }
    }
}

impl Session {
    #[verifier::type_invariant]
    spec fn inv(self) -> bool {
        0 < self.names.len() && self.answered <= self.names.len()
    }

    /// Starts a session over `names`. At least one identifier is needed.
    pub fn new(names: Vec<String>) -> (started: Result<Session, UsageError>)
        ensures
            started is Err <==> names@.len() == 0,
            started matches Ok(session) ==> session@ == SessionView::start(texts(names@)),
            started matches Err(error) ==> error is NoIdentifiers,
    {
        if names.len() == 0 {
            Err(UsageError::NoIdentifiers)
        } else {
            Ok(Session { names, answered: 0 })
        }
    }

    /// Whether every identifier has been answered.
    pub fn is_finished(&self) -> (done: bool)
        ensures
            done == self@.finished(),
    {
        self.answered >= self.names.len()
    }

    /// The address to ask next, or `None` when every identifier has been
    /// answered.
    pub fn request(&self) -> (url: Option<String>)
        ensures
            optional_text(url) == self@.request(),
    {
        if self.answered < self.names.len() {
            assert(texts(self.names@)[self.answered as int] == self.names@[self.answered as int]@);
            Some(profile_url(self.names[self.answered].as_str()))
        } else {
            None
        }
    }

    /// Takes what came of the request and gives the block to print for it.
    /// With nothing left to answer, the session stays as it is and the
    /// result is `None`.
    pub fn record(&mut self, outcome: Result<User, LookupError>) -> (block: Option<String>)
        ensures
            (final(self)@, optional_text(block)) == old(self)@.record(outcome_view(outcome)),
    {
        proof {
            use_type_invariant(&*self);
        }
        if self.answered < self.names.len() {
            assert(texts(self.names@)[self.answered as int] == self.names@[self.answered as int]@);
            let block = report(self.names[self.answered].as_str(), &outcome);
            self.answered = self.answered + 1;
            Some(block)
        } else {
            None
        }
    }
}

} // verus!
