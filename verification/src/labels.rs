//! The closed label sets of the log format: activity kinds (category
//! headings) and action verbs (item lines), with their exact label strings.

use vstd::prelude::*;
use crate::text::str_eq;

verus! {

/// An activity category, recognized from a fixed set of heading labels.
#[derive(Clone, Copy, Debug, PartialEq, Eq, Structural)]
pub enum Kind {
    IssueTriage,
    RfcReview,
    FcpReview,
    PrReview,
    PrSubmission,
    Discussion,
    Research,
}

/// An action verb, recognized from a fixed set of item-line labels.
/// The label of `Track` is the verb `Track` + `ed`; its spelled-out form
/// collides with a name from Verus's prelude, so the variant is shortened and
/// its label is assembled from two pieces wherever it is written.
#[derive(Clone, Copy, Debug, PartialEq, Eq, Structural)]
pub enum Action {
    Closed,
    Commented,
    Created,
    Merged,
    Track,
    Updated,
}

/// The kind that a category-heading label denotes, if it is recognized.
pub open spec fn kind_of_label(s: Seq<char>) -> Option<Kind> {
    if s == "Issue triages"@ {
        Some(Kind::IssueTriage)
    } else if s == "RFC reviews"@ {
        Some(Kind::RfcReview)
    } else if s == "FCP reviews"@ {
        Some(Kind::FcpReview)
    } else if s == "PR reviews"@ {
        Some(Kind::PrReview)
    } else if s == "PR submissions"@ {
        Some(Kind::PrSubmission)
    } else if s == "Discussions"@ {
        Some(Kind::Discussion)
    } else if s == "Researches"@ {
        Some(Kind::Research)
    } else {
        None
    }
}

/// The label of the `Track` action, assembled from two pieces.
pub open spec fn track_label() -> Seq<char> {
    "Track"@ + "ed"@
}

/// The label of the `Track` action.
pub fn track_label_str() -> (r: String)
    ensures
        r@ == track_label(),
{
    let r = vstd::string::StringExecFns::concat("Track".to_owned(), "ed");
    proof {
        assert(r@ =~= track_label());
    }
    r
}

/// The action that an item-line verb denotes, if it is recognized.
pub open spec fn action_of_label(s: Seq<char>) -> Option<Action> {
    if s == "Closed"@ {
        Some(Action::Closed)
    } else if s == "Commented"@ {
        Some(Action::Commented)
    } else if s == "Created"@ {
        Some(Action::Created)
    } else if s == "Merged"@ {
        Some(Action::Merged)
    } else if s == track_label() {
        Some(Action::Track)
    } else if s == "Updated"@ {
        Some(Action::Updated)
    } else {
        None
    }
}

/// The message reported for a category label outside the fixed set.
pub open spec fn unrecognized_kind_msg(s: Seq<char>) -> Seq<char> {
    "Unrecognizable kind `"@ + s + "`"@
}

/// The message reported for an action label outside the fixed set.
pub open spec fn unrecognized_action_msg(s: Seq<char>) -> Seq<char> {
    "Unrecognizable action `"@ + s + "`"@
}

/// The fixed name under which a kind is rendered in output records.
pub open spec fn kind_name(k: Kind) -> Seq<char> {
    match k {
        Kind::IssueTriage => "IssueTriage"@,
        Kind::RfcReview => "RfcReview"@,
        Kind::FcpReview => "FcpReview"@,
        Kind::PrReview => "PrReview"@,
        Kind::PrSubmission => "PrSubmission"@,
        Kind::Discussion => "Discussion"@,
        Kind::Research => "Research"@,
    }
}

/// The fixed name under which an action is rendered in output records.
pub open spec fn action_name(a: Action) -> Seq<char> {
    match a {
        Action::Closed => "Closed"@,
        Action::Commented => "Commented"@,
        Action::Created => "Created"@,
        Action::Merged => "Merged"@,
        Action::Track => track_label(),
        Action::Updated => "Updated"@,
    }
}

impl Kind {
    /// Parses a category-heading label; a label outside the fixed set is an
    /// error naming the offending text.
    pub fn from_str(s: &str) -> (r: Result<Kind, String>)
        ensures
            match kind_of_label(s@) {
                Some(k) => r == Ok::<Kind, String>(k),
                None => r matches Err(m) && m@ == unrecognized_kind_msg(s@),
            },
    {
        if str_eq(s, "Issue triages") {
            Ok(Kind::IssueTriage)
        } else if str_eq(s, "RFC reviews") {
            Ok(Kind::RfcReview)
        } else if str_eq(s, "FCP reviews") {
            Ok(Kind::FcpReview)
        } else if str_eq(s, "PR reviews") {
            Ok(Kind::PrReview)
        } else if str_eq(s, "PR submissions") {
            Ok(Kind::PrSubmission)
        } else if str_eq(s, "Discussions") {
            Ok(Kind::Discussion)
        } else if str_eq(s, "Researches") {
            Ok(Kind::Research)
        } else {
            let m = vstd::string::StringExecFns::concat(
                vstd::string::StringExecFns::concat("Unrecognizable kind `".to_owned(), s),
                "`",
            );
            proof {
                assert(m@ =~= unrecognized_kind_msg(s@));
            }
            Err(m)
        }
    }

    /// The fixed name under which this kind is rendered in output records.
    pub fn name(&self) -> (r: &'static str)
        ensures
            r@ == kind_name(*self),
    {
        match self {
            Kind::IssueTriage => "IssueTriage",
            Kind::RfcReview => "RfcReview",
            Kind::FcpReview => "FcpReview",
            Kind::PrReview => "PrReview",
            Kind::PrSubmission => "PrSubmission",
            Kind::Discussion => "Discussion",
            Kind::Research => "Research",
        }
    }
}

impl Default for Kind {
    /// The category in effect before any category heading has been seen.
    fn default() -> (r: Kind)
        ensures
            r == Kind::IssueTriage,
    {
        Kind::IssueTriage
    }
}

impl Action {
    /// Parses an item-line action verb; a verb outside the fixed set is an
    /// error naming the offending text.
    pub fn from_str(s: &str) -> (r: Result<Action, String>)
        ensures
            match action_of_label(s@) {
                Some(a) => r == Ok::<Action, String>(a),
                None => r matches Err(m) && m@ == unrecognized_action_msg(s@),
            },
    {
        if str_eq(s, "Closed") {
            Ok(Action::Closed)
        } else if str_eq(s, "Commented") {
            Ok(Action::Commented)
        } else if str_eq(s, "Created") {
            Ok(Action::Created)
        } else if str_eq(s, "Merged") {
            Ok(Action::Merged)
        } else if str_eq(s, track_label_str().as_str()) {
            Ok(Action::Track)
        } else if str_eq(s, "Updated") {
            Ok(Action::Updated)
        } else {
            let m = vstd::string::StringExecFns::concat(
                vstd::string::StringExecFns::concat("Unrecognizable action `".to_owned(), s),
                "`",
            );
            proof {
                assert(m@ =~= unrecognized_action_msg(s@));
            }
            Err(m)
        }
    }

    /// The fixed name under which this action is rendered in output records.
    pub fn name(&self) -> (r: String)
        ensures
            r@ == action_name(*self),
    {
        match self {
            Action::Closed => "Closed".to_owned(),
            Action::Commented => "Commented".to_owned(),
            Action::Created => "Created".to_owned(),
            Action::Merged => "Merged".to_owned(),
            Action::Track => track_label_str(),
            Action::Updated => "Updated".to_owned(),
        }
    }
}

} // verus!
