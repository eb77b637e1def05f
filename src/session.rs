//! The decisions of an interactive session, from plain values to plain values.

use crate::order::texts;
use crate::text::push_char;
use crate::topic::Outcome;
use vstd::prelude::*;
use vstd::string::StringExecFns;

verus! {

/// What a listing request asks to see.
#[derive(Clone, Copy, Debug, PartialEq, Eq, Structural)]
pub enum Listing {
    Topics,
    Courses,
    Profiles,
}

/// `s` between single quotes, after `before` and followed by `after`.
pub open spec fn quoted(before: Seq<char>, s: Seq<char>, after: Seq<char>) -> Seq<char> {
    before + seq!['\''] + s + seq!['\''] + after
}

/// Builds `before`, then `s` in single quotes, then `after`.
fn quote(before: &str, s: &str, after: &str) -> (r: String)
    ensures
        r@ == quoted(before@, s@, after@),
{
    let mut r = String::from_str(before);
    push_char(&mut r, '\'');
    r.append(s);
    push_char(&mut r, '\'');
    r.append(after);
    r
}

impl Listing {
    /// Reads the kind of listing named by `s`.
    pub fn parse(s: &str) -> (r: Result<Listing, String>)
        ensures
            s@ == "topics"@ <==> r == Ok::<Listing, String>(Listing::Topics),
            s@ == "courses"@ <==> r == Ok::<Listing, String>(Listing::Courses),
            s@ == "profiles"@ <==> r == Ok::<Listing, String>(Listing::Profiles),
            r matches Err(e) ==> e@ == quoted("unknown listing of type "@, s@, ""@),
    {
        proof {
            reveal_strlit("topics");
            reveal_strlit("courses");
            reveal_strlit("profiles");
            assert("topics"@[0] != "courses"@[0]);
            assert("topics"@[0] != "profiles"@[0]);
            assert("courses"@[0] != "profiles"@[0]);
        }
        let given = String::from_str(s);
        if given == String::from_str("topics") {
            Ok(Listing::Topics)
        } else if given == String::from_str("courses") {
            Ok(Listing::Courses)
        } else if given == String::from_str("profiles") {
            Ok(Listing::Profiles)
        } else {
            Err(quote("unknown listing of type ", s, ""))
        }
    }
}

impl std::str::FromStr for Listing {
    type Err = String;

    fn from_str(s: &str) -> Result<Listing, String> {
        Listing::parse(s)
    }
}

/// Chooses the profile to load among the `available` ones: the one `requested`, which must
/// exist, or else the only one there is.
pub fn select_profile(available: &Vec<String>, requested: Option<String>) -> (r: Result<String, String>)
    ensures
        match requested {
            Some(p) => if texts(available@).contains(p@) {
                r matches Ok(q) && q@ == p@
            } else {
                r matches Err(e) && e@ == quoted("no such profile "@, p@, " (try --list profiles)"@)
            },
            None => if available@.len() == 1 {
                r matches Ok(q) && q@ == available@[0]@
            } else {
                r matches Err(e) && e@ == "please select a profile (try --list profiles)"@
            },
        },
{
    match requested {
        None => {
            if available.len() != 1 {
                return Err(String::from_str("please select a profile (try --list profiles)"));
            }
            Ok(available[0].clone())
        },
        Some(p) => {
            let mut i: usize = 0;
            while i < available.len()
                invariant
                    i <= available@.len(),
                    requested == Some(p),
                    forall|k: int| 0 <= k < i ==> available@[k]@ != p@,
                decreases available@.len() - i,
            {
                if available[i] == p {
                    assert(texts(available@)[i as int] == p@);
                    assert(texts(available@).contains(p@));
                    return Ok(p);
                }
                i = i + 1;
            }
            proof {
                if texts(available@).contains(p@) {
                    let k = choose|k: int| 0 <= k < available@.len() && texts(available@)[k] == p@;
                    assert(available@[k]@ == p@);
                }
            }
            let e = quote("no such profile ", p.as_str(), " (try --list profiles)");
            Err(e)
        },
    }
}

/// The message for a graded answer, and whether the question is done with.
pub open spec fn feedback_of(outcome: Outcome) -> (Seq<char>, bool) {
    match outcome {
        Outcome::Incorrect => ("Your answer isn't quite right. Try again!"@, false),
        Outcome::Invalid(reason) => ("There was a problem with your answer: "@ + reason@, false),
        Outcome::Correct => ("That's the right answer. Great work!"@, true),
    }
}

/// What to tell the student after grading an answer, and whether to move on.
pub fn feedback(outcome: &Outcome) -> (r: (String, bool))
    ensures
        (r.0@, r.1) == feedback_of(*outcome),
{
    match outcome {
        Outcome::Incorrect => (String::from_str("Your answer isn't quite right. Try again!"), false),
        Outcome::Invalid(reason) => {
            let mut m = String::from_str("There was a problem with your answer: ");
            m.append(reason.as_str());
            (m, false)
        },
        Outcome::Correct => (String::from_str("That's the right answer. Great work!"), true),
    }
}

} // verus!
