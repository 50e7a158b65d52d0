//! The canonical names of the levels: writing a level out and reading one in.

use crate::level::Verbosity;
use std::str::FromStr;
use vstd::prelude::*;
use vstd::string::*;

verus! {

/// The error of reading a level: the text is not the name of any level.
#[derive(Clone, Debug, PartialEq, Eq)]
pub struct InvalidLevel {
    /// The text that was rejected, unchanged.
    pub text: String,
}

/// Whether two texts hold the same characters.
fn same_text(text: &str, name: &str) -> (same: bool)
    ensures
        same == (text@ == name@),
{
    let n: usize = name.unicode_len();
    if text.unicode_len() != n {
        return false;
    }
    let mut i: usize = 0;
    while i < n
        invariant
            i <= n,
            n == name@.len(),
            n == text@.len(),
            forall|j: int| 0 <= j < i ==> text@[j] == name@[j],
        decreases n - i,
    {
        if text.get_char(i) != name.get_char(i) {
            return false;
        }
        i += 1;
    }
    assert(text@ =~= name@);
    true
}

impl Verbosity {
    /// The canonical name of the level: lower case, and spelled `quite`
    /// for the quietest level.
    pub open spec fn name(self) -> Seq<char> {
        match self {
            Verbosity::Quite => "quite"@,
            Verbosity::Terse => "terse"@,
            Verbosity::Verbose => "verbose"@,
        }
    }

    /// The level that `text` names, if it names one. The match is exact:
    /// nothing is trimmed and case is not folded.
    pub open spec fn named(text: Seq<char>) -> Option<Verbosity> {
        if text == Verbosity::Quite.name() {
            Some(Verbosity::Quite)
        } else if text == Verbosity::Terse.name() {
            Some(Verbosity::Terse)
        } else if text == Verbosity::Verbose.name() {
            Some(Verbosity::Verbose)
        } else {
            None
        }
    }

    /// The canonical name of the level.
    pub fn as_str(self) -> (s: &'static str)
        ensures
            s@ == self.name(),
    {
        match self {
            Verbosity::Quite => "quite",
            Verbosity::Terse => "terse",
            Verbosity::Verbose => "verbose",
        }
    }

    /// The canonical name of the level, as an owned string.
    pub fn to_text(self) -> (s: String)
        ensures
            s@ == self.name(),
    {
        self.as_str().to_owned()
    }

    /// Reads a level from its canonical name. Any other text is handed
    /// back in the error.
    pub fn parse(text: &str) -> (r: Result<Verbosity, InvalidLevel>)
        ensures
            match Verbosity::named(text@) {
                Some(v) => r == Ok::<Verbosity, InvalidLevel>(v),
                None => r is Err && r->Err_0.text@ == text@,
            },
    {
        if same_text(text, Verbosity::Quite.as_str()) {
            Ok(Verbosity::Quite)
        } else if same_text(text, Verbosity::Terse.as_str()) {
            Ok(Verbosity::Terse)
        } else if same_text(text, Verbosity::Verbose.as_str()) {
            Ok(Verbosity::Verbose)
        } else {
            Err(InvalidLevel { text: text.to_owned() })
        }
    }

    /// No two levels share a name.
    pub proof fn lemma_names_differ(a: Verbosity, b: Verbosity)
        ensures
            a.name() == b.name() ==> a == b,
    {
        reveal_strlit("quite");
        reveal_strlit("terse");
        reveal_strlit("verbose");
        assert("quite"@.len() == 5 && "quite"@[0] == 'q');
        assert("terse"@.len() == 5 && "terse"@[0] == 't');
        assert("verbose"@.len() == 7);
    }

    /// Reading is the inverse of writing: `text` names `v` exactly when it
    /// is the name of `v`. So a level's name reads back as that level, and
    /// a text that reads as a level is written out again unchanged.
    pub proof fn lemma_named_iff_name(text: Seq<char>, v: Verbosity)
        ensures
            Verbosity::named(text) == Some(v) <==> v.name() == text,
    {
        Verbosity::lemma_names_differ(v, Verbosity::Quite);
        Verbosity::lemma_names_differ(v, Verbosity::Terse);
        Verbosity::lemma_names_differ(v, Verbosity::Verbose);
    }
}

impl FromStr for Verbosity {
    type Err = InvalidLevel;

    fn from_str(source: &str) -> (r: Result<Verbosity, InvalidLevel>)
        ensures
            match Verbosity::named(source@) {
                Some(v) => r == Ok::<Verbosity, InvalidLevel>(v),
                None => r is Err && r->Err_0.text@ == source@,
            },
    {
        Verbosity::parse(source)
    }
}

} // verus!
