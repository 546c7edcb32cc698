//! The output record, the error types, and their rendered forms.

use vstd::prelude::*;
use crate::labels::{Action, Kind, action_name, kind_name, unrecognized_action_msg,
    unrecognized_kind_msg};
use crate::text::{canonical_of, spec_digits, usize_digits};

verus! {

/// One emitted record: the ambient date and category joined with the action
/// and URL of one item line.
#[derive(Debug)]
pub struct Record {
    /// The most recent date-heading text, carried verbatim.
    pub date: String,
    /// The most recent category heading.
    pub kind: Kind,
    /// The action verb of the item line.
    pub action: Action,
    /// The URL token of the item line, verbatim.
    pub url: String,
    /// `url` with any trailing `#fragment` removed.
    pub canonical_url: String,
}

/// The mathematical value of a [`Record`].
pub struct RecordModel {
    pub date: Seq<char>,
    pub kind: Kind,
    pub action: Action,
    pub url: Seq<char>,
    pub canonical_url: Seq<char>,
}

impl View for Record {
    type V = RecordModel;

    open spec fn view(&self) -> RecordModel {
        RecordModel {
            date: self.date@,
            kind: self.kind,
            action: self.action,
            url: self.url@,
            canonical_url: self.canonical_url@,
        }
    }
}

impl RecordModel {
    /// A record is well formed when its canonical URL is derived from its URL.
    pub open spec fn wf(self) -> bool {
        self.canonical_url == canonical_of(self.url)
    }
}

/// The comma-separated line under which a record is written out:
/// date, kind name, action name, URL, canonical URL.
pub open spec fn record_line(r: RecordModel) -> Seq<char> {
    r.date + ","@ + kind_name(r.kind) + ","@ + action_name(r.action) + ","@ + r.url + ","@
        + r.canonical_url
}

impl Record {
    /// Renders this record as its comma-separated output line.
    pub fn render(&self) -> (r: String)
        ensures
            r@ == record_line(self@),
    {
        let mut s = self.date.clone();
        vstd::string::StringExecFns::append(&mut s, ",");
        vstd::string::StringExecFns::append(&mut s, self.kind.name());
        vstd::string::StringExecFns::append(&mut s, ",");
        vstd::string::StringExecFns::append(&mut s, self.action.name().as_str());
        vstd::string::StringExecFns::append(&mut s, ",");
        vstd::string::StringExecFns::append(&mut s, self.url.as_str());
        vstd::string::StringExecFns::append(&mut s, ",");
        vstd::string::StringExecFns::append(&mut s, self.canonical_url.as_str());
        proof {
            assert(s@ =~= record_line(self@));
        }
        s
    }
}

/// A plain error value carrying a rendered message.
#[derive(Debug)]
pub struct Error(pub String);

/// Wraps a message as an [`Error`].
pub fn error(msg: String) -> (e: Error)
    ensures
        e.0@ == msg@,
{
    Error(msg)
}

/// The line under which an error is reported to the user.
pub open spec fn error_line(msg: Seq<char>) -> Seq<char> {
    "error: "@ + msg
}

impl Error {
    /// Renders this error as its reported line.
    pub fn render(&self) -> (r: String)
        ensures
            r@ == error_line(self.0@),
    {
        let mut s = "error: ".to_owned();
        vstd::string::StringExecFns::append(&mut s, self.0.as_str());
        s
    }
}

/// The message of an error that occurred on a given (0-based) input line.
pub open spec fn broken_msg(lnr: nat, err: Seq<char>) -> Seq<char> {
    "broken on line "@ + spec_digits(lnr) + ": "@ + err
}

/// Wraps a message as an [`Error`] annotated with the (0-based) line number
/// on which it occurred.
pub fn error_lnr(lnr: usize, err: &str) -> (e: Error)
    ensures
        e.0@ == broken_msg(lnr as nat, err@),
{
    let mut s = "broken on line ".to_owned();
    vstd::string::StringExecFns::append(&mut s, usize_digits(lnr).as_str());
    vstd::string::StringExecFns::append(&mut s, ": ");
    vstd::string::StringExecFns::append(&mut s, err);
    proof {
        assert(s@ =~= broken_msg(lnr as nat, err@));
    }
    error(s)
}

/// A failure of the item parser, before a line number is attached.
#[derive(Debug)]
pub enum ItemError {
    /// The action verb is outside the fixed label set.
    UnrecognizedAction { label: String },
    /// The trimmed item text holds no space separator.
    MissingSeparator { text: String },
}

/// The mathematical value of an [`ItemError`].
pub enum ItemErrorModel {
    UnrecognizedAction { label: Seq<char> },
    MissingSeparator { text: Seq<char> },
}

impl View for ItemError {
    type V = ItemErrorModel;

    open spec fn view(&self) -> ItemErrorModel {
        match self {
            ItemError::UnrecognizedAction { label } => ItemErrorModel::UnrecognizedAction {
                label: label@,
            },
            ItemError::MissingSeparator { text } => ItemErrorModel::MissingSeparator {
                text: text@,
            },
        }
    }
}

/// The message reported for an item text that holds no space separator.
pub open spec fn failed_parse_msg(text: Seq<char>) -> Seq<char> {
    "failed to parse `"@ + text + "`"@
}

/// The message of an item error, before a line number is attached.
pub open spec fn item_error_msg(e: ItemErrorModel) -> Seq<char> {
    match e {
        ItemErrorModel::UnrecognizedAction { label } => unrecognized_action_msg(label),
        ItemErrorModel::MissingSeparator { text } => failed_parse_msg(text),
    }
}

impl ItemError {
    /// Renders this error's message.
    pub fn message(&self) -> (r: String)
        ensures
            r@ == item_error_msg(self@),
    {
        match self {
            ItemError::UnrecognizedAction { label } => {
                let mut s = "Unrecognizable action `".to_owned();
                vstd::string::StringExecFns::append(&mut s, label.as_str());
                vstd::string::StringExecFns::append(&mut s, "`");
                proof {
                    assert(s@ =~= item_error_msg(self@));
                }
                s
            },
            ItemError::MissingSeparator { text } => {
                let mut s = "failed to parse `".to_owned();
                vstd::string::StringExecFns::append(&mut s, text.as_str());
                vstd::string::StringExecFns::append(&mut s, "`");
                proof {
                    assert(s@ =~= item_error_msg(self@));
                }
                s
            },
        }
    }
}

/// A failure of the whole parse, annotated with the 0-based line number on
/// which it occurred. The first failing line aborts the run.
#[derive(Debug)]
pub enum ParseError {
    /// A category-heading label outside the fixed set.
    UnrecognizedKind { line: usize, label: String },
    /// An item-line action verb outside the fixed set.
    UnrecognizedAction { line: usize, label: String },
    /// An item line whose trimmed text holds no space separator.
    MalformedItem { line: usize, text: String },
    /// A non-blank line whose two-character prefix matches no rule.
    MalformedLine { line: usize },
}

/// The mathematical value of a [`ParseError`].
pub enum ParseErrorModel {
    UnrecognizedKind { line: nat, label: Seq<char> },
    UnrecognizedAction { line: nat, label: Seq<char> },
    MalformedItem { line: nat, text: Seq<char> },
    MalformedLine { line: nat },
}

impl View for ParseError {
    type V = ParseErrorModel;

    open spec fn view(&self) -> ParseErrorModel {
        match self {
            ParseError::UnrecognizedKind { line, label } => ParseErrorModel::UnrecognizedKind {
                line: *line as nat,
                label: label@,
            },
            ParseError::UnrecognizedAction { line, label } => ParseErrorModel::UnrecognizedAction {
                line: *line as nat,
                label: label@,
            },
            ParseError::MalformedItem { line, text } => ParseErrorModel::MalformedItem {
                line: *line as nat,
                text: text@,
            },
            ParseError::MalformedLine { line } => ParseErrorModel::MalformedLine {
                line: *line as nat,
            },
        }
    }
}

/// The full message of a parse error: the line number followed by the
/// line-level message.
pub open spec fn parse_error_msg(e: ParseErrorModel) -> Seq<char> {
    match e {
        ParseErrorModel::UnrecognizedKind { line, label } => broken_msg(
            line,
            unrecognized_kind_msg(label),
        ),
        ParseErrorModel::UnrecognizedAction { line, label } => broken_msg(
            line,
            unrecognized_action_msg(label),
        ),
        ParseErrorModel::MalformedItem { line, text } => broken_msg(line, failed_parse_msg(text)),
        ParseErrorModel::MalformedLine { line } => broken_msg(line, Seq::<char>::empty()),
    }
}

impl ParseError {
    /// The 0-based input line on which the parse failed.
    pub fn line(&self) -> (r: usize)
        ensures
            match self@ {
                ParseErrorModel::UnrecognizedKind { line, .. } => r as nat == line,
                ParseErrorModel::UnrecognizedAction { line, .. } => r as nat == line,
                ParseErrorModel::MalformedItem { line, .. } => r as nat == line,
                ParseErrorModel::MalformedLine { line } => r as nat == line,
            },
    {
        match self {
            ParseError::UnrecognizedKind { line, .. } => *line,
            ParseError::UnrecognizedAction { line, .. } => *line,
            ParseError::MalformedItem { line, .. } => *line,
            ParseError::MalformedLine { line } => *line,
        }
    }

    /// Renders this error as an [`Error`] whose message names the line number
    /// and the offending text.
    pub fn to_error(&self) -> (e: Error)
        ensures
            e.0@ == parse_error_msg(self@),
    {
        match self {
            ParseError::UnrecognizedKind { line, label } => {
                let mut s = "Unrecognizable kind `".to_owned();
                vstd::string::StringExecFns::append(&mut s, label.as_str());
                vstd::string::StringExecFns::append(&mut s, "`");
                let e = error_lnr(*line, s.as_str());
                proof {
                    assert(unrecognized_kind_msg(label@) =~= s@);
                }
                e
            },
            ParseError::UnrecognizedAction { line, label } => {
                let mut s = "Unrecognizable action `".to_owned();
                vstd::string::StringExecFns::append(&mut s, label.as_str());
                vstd::string::StringExecFns::append(&mut s, "`");
                let e = error_lnr(*line, s.as_str());
                proof {
                    assert(unrecognized_action_msg(label@) =~= s@);
                }
                e
            },
            ParseError::MalformedItem { line, text } => {
                let mut s = "failed to parse `".to_owned();
                vstd::string::StringExecFns::append(&mut s, text.as_str());
                vstd::string::StringExecFns::append(&mut s, "`");
                let e = error_lnr(*line, s.as_str());
                proof {
                    assert(failed_parse_msg(text@) =~= s@);
                }
                e
            },
            ParseError::MalformedLine { line } => {
                let e = error_lnr(*line, "");
                proof {
                    reveal_strlit("");
                    assert(""@ =~= Seq::<char>::empty());
                }
                e
            },
        }
    }
}

} // verus!
