//! The line classifier and record parser: a single pass over the input
//! lines, carrying the current date and category as ambient context and
//! emitting one record per item line. The first failing line aborts the
//! whole run; nothing is emitted for it or after it.

use vstd::prelude::*;
use vstd::string::StrSliceExecFns;
use crate::labels::{Action, Kind, action_of_label, kind_of_label};
use crate::record::{ItemError, ItemErrorModel, ParseError, ParseErrorModel, Record, RecordModel};
use crate::text::{canonical_of, find_char, spec_strip_marks, spec_trim, strip_fragment,
    strip_marks, trim_str};

verus! {

/// The item text after its leading `-` / space markers and surrounding
/// whitespace are removed: the text that is split into action and URL.
pub open spec fn item_core(text: Seq<char>) -> Seq<char> {
    spec_trim(spec_strip_marks(text))
}

/// What parsing one item text yields under the ambient `date` and `kind`:
/// either the record made of the first token (the action) and the rest (the
/// URL), or the error for a missing separator or unrecognized verb.
pub open spec fn item_outcome(date: Seq<char>, kind: Kind, text: Seq<char>) -> Result<
    RecordModel,
    ItemErrorModel,
> {
    let core = item_core(text);
    match core.index_of_first(' ') {
        None => Err(ItemErrorModel::MissingSeparator { text }),
        Some(i) => {
            let url = core.skip(i + 1);
            match action_of_label(core.take(i)) {
                None => Err(ItemErrorModel::UnrecognizedAction { label: core.take(i) }),
                Some(action) => Ok(
                    RecordModel {
                        date,
                        kind,
                        action,
                        url,
                        canonical_url: canonical_of(url),
                    },
                ),
            }
        },
    }
}

/// The view of an item parse's result.
pub open spec fn item_result_view(r: Result<Record, ItemError>) -> Result<
    RecordModel,
    ItemErrorModel,
> {
    match r {
        Ok(rec) => Ok(rec@),
        Err(e) => Err(e@),
    }
}

/// Parses one item line's remainder `text` under the ambient `date` and
/// `kind`: strips leading `-` / space markers, trims, splits on the first
/// space into an action verb and a URL, and builds the record, whose
/// canonical URL drops any trailing `#fragment`.
pub fn parse_item(date: &str, kind: Kind, text: &str) -> (r: Result<Record, ItemError>)
    ensures
        item_result_view(r) == item_outcome(date@, kind, text@),
{
    let core = trim_str(strip_marks(text));
    match find_char(core, ' ') {
        None => Err(ItemError::MissingSeparator { text: text.to_owned() }),
        Some(i) => {
            proof {
                core@.index_of_first_ensures(' ');
            }
            let n = core.unicode_len();
            let label = core.substring_char(0, i);
            let url = core.substring_char(i + 1, n);
            match Action::from_str(label) {
                Err(_) => Err(ItemError::UnrecognizedAction { label: label.to_owned() }),
                Ok(action) => {
                    let canonical_url = strip_fragment(url);
                    Ok(
                        Record {
                            date: date.to_owned(),
                            kind,
                            action,
                            url: url.to_owned(),
                            canonical_url,
                        },
                    )
                },
            }
        },
    }
}

/// A date-heading line: its first two characters are `##`.
pub open spec fn is_date_heading(line: Seq<char>) -> bool {
    line.len() >= 2 && line[0] == '#' && line[1] == '#'
}

/// A category-heading line: its first two characters are `- `.
pub open spec fn is_kind_heading(line: Seq<char>) -> bool {
    line.len() >= 2 && line[0] == '-' && line[1] == ' '
}

/// An item line: its first two characters are two spaces.
pub open spec fn is_item_line(line: Seq<char>) -> bool {
    line.len() >= 2 && line[0] == ' ' && line[1] == ' '
}

/// What parsing `lines` from position `i` on yields, under the ambient
/// `date` and `kind`: the records emitted from there to the end, each with
/// the 0-based index of its item line, or the first error. Lines shorter
/// than two characters are skipped; heading lines update the context for
/// everything after them.
pub open spec fn run(lines: Seq<Seq<char>>, i: int, date: Seq<char>, kind: Kind) -> Result<
    Seq<(RecordModel, nat)>,
    ParseErrorModel,
>
    decreases lines.len() - i,
{
    if i < 0 || i >= lines.len() {
        Ok(Seq::empty())
    } else {
        let line = lines[i];
        if line.len() < 2 {
            run(lines, i + 1, date, kind)
        } else if is_date_heading(line) {
            run(lines, i + 1, spec_trim(line.skip(2)), kind)
        } else if is_kind_heading(line) {
            match kind_of_label(spec_trim(line.skip(2))) {
                Some(k) => run(lines, i + 1, date, k),
                None => Err(
                    ParseErrorModel::UnrecognizedKind {
                        line: i as nat,
                        label: spec_trim(line.skip(2)),
                    },
                ),
            }
        } else if is_item_line(line) {
            match item_outcome(date, kind, line.skip(2)) {
                Ok(rec) => match run(lines, i + 1, date, kind) {
                    Ok(rest) => Ok(seq![(rec, i as nat)] + rest),
                    Err(e) => Err(e),
                },
                Err(ItemErrorModel::UnrecognizedAction { label }) => Err(
                    ParseErrorModel::UnrecognizedAction { line: i as nat, label },
                ),
                Err(ItemErrorModel::MissingSeparator { text }) => Err(
                    ParseErrorModel::MalformedItem { line: i as nat, text },
                ),
            }
        } else {
            Err(ParseErrorModel::MalformedLine { line: i as nat })
        }
    }
}

/// What the whole parse of `lines` yields: `run` from the first line, with
/// an empty date and the default category as initial context.
pub open spec fn parse_outcome(lines: Seq<Seq<char>>) -> Result<
    Seq<(RecordModel, nat)>,
    ParseErrorModel,
> {
    run(lines, 0, Seq::empty(), Kind::IssueTriage)
}

/// The view of the emitted records: each with the index of its item line.
pub open spec fn emitted_view(s: Seq<(Record, usize)>) -> Seq<(RecordModel, nat)> {
    s.map_values(|p: (Record, usize)| (p.0@, p.1 as nat))
}

/// The view of a whole parse's result.
pub open spec fn parse_result_view(r: Result<Vec<(Record, usize)>, ParseError>) -> Result<
    Seq<(RecordModel, nat)>,
    ParseErrorModel,
> {
    match r {
        Ok(v) => Ok(emitted_view(v@)),
        Err(e) => Err(e@),
    }
}

/// `rest`, with `pre` prepended to its records when it succeeded.
spec fn prepend(pre: Seq<(RecordModel, nat)>, rest: Result<
    Seq<(RecordModel, nat)>,
    ParseErrorModel,
>) -> Result<Seq<(RecordModel, nat)>, ParseErrorModel> {
    match rest {
        Ok(s) => Ok(pre + s),
        Err(e) => Err(e),
    }
}

/// A line shorter than two characters yields no record and no error, and
/// leaves the ambient context unchanged: the parse continues on the next
/// line exactly as it stood.
pub proof fn lemma_short_line_skipped(lines: Seq<Seq<char>>, i: int, date: Seq<char>, kind: Kind)
    requires
        0 <= i < lines.len(),
        lines[i].len() < 2,
    ensures
        run(lines, i, date, kind) == run(lines, i + 1, date, kind),
{
}

/// A valid item text — one whose stripped and trimmed core splits at first
/// space `i` into a recognized action verb and a URL token — yields a record
/// whose action is that verb, whose URL is the token verbatim, and whose
/// ambient fields are the given date and kind.
pub proof fn lemma_valid_item_record(date: Seq<char>, kind: Kind, text: Seq<char>, i: int)
    requires
        item_core(text).index_of_first(' ') == Some(i),
        action_of_label(item_core(text).take(i)) is Some,
    ensures
        item_outcome(date, kind, text) == Ok::<RecordModel, ItemErrorModel>(
            RecordModel {
                date,
                kind,
                action: action_of_label(item_core(text).take(i))->Some_0,
                url: item_core(text).skip(i + 1),
                canonical_url: canonical_of(item_core(text).skip(i + 1)),
            },
        ),
{
}

/// A category-heading line whose label is outside the fixed set aborts the
/// parse at that line, with an error naming the exact offending text and the
/// line number; nothing is emitted for that line or after it.
pub proof fn lemma_unrecognized_kind_aborts(
    lines: Seq<Seq<char>>,
    i: int,
    date: Seq<char>,
    kind: Kind,
)
    requires
        0 <= i < lines.len(),
        is_kind_heading(lines[i]),
        kind_of_label(spec_trim(lines[i].skip(2))) is None,
    ensures
        run(lines, i, date, kind) == Err::<Seq<(RecordModel, nat)>, ParseErrorModel>(
            ParseErrorModel::UnrecognizedKind {
                line: i as nat,
                label: spec_trim(lines[i].skip(2)),
            },
        ),
{
}

/// An item line whose text does not parse — an unrecognized action verb, or
/// no space separator — aborts the parse at that line, with an error naming
/// the exact offending text and the line number; nothing is emitted for that
/// line or after it.
pub proof fn lemma_item_error_aborts(lines: Seq<Seq<char>>, i: int, date: Seq<char>, kind: Kind)
    requires
        0 <= i < lines.len(),
        is_item_line(lines[i]),
        item_outcome(date, kind, lines[i].skip(2)) is Err,
    ensures
        run(lines, i, date, kind) == Err::<Seq<(RecordModel, nat)>, ParseErrorModel>(
            match item_outcome(date, kind, lines[i].skip(2))->Err_0 {
                ItemErrorModel::UnrecognizedAction { label } => ParseErrorModel::UnrecognizedAction {
                    line: i as nat,
                    label,
                },
                ItemErrorModel::MissingSeparator { text } => ParseErrorModel::MalformedItem {
                    line: i as nat,
                    text,
                },
            },
        ),
{
}

/// Every record that the item parser yields is well formed: its canonical
/// URL is derived from its URL by stripping the trailing fragment.
pub proof fn lemma_item_record_well_formed(date: Seq<char>, kind: Kind, text: Seq<char>)
    ensures
        item_outcome(date, kind, text) matches Ok(rec) ==> rec.wf(),
{
}

/// The ambient context propagates forward: every record that `run` emits
/// carries the date set by the most recent preceding date heading and the
/// category set by the most recent preceding category heading — that is, the
/// incoming `date` and `kind` stand until a heading line of that sort changes
/// them. Each emitted position is an item line at or after `i`.
pub proof fn lemma_context_propagates(lines: Seq<Seq<char>>, i: int, date: Seq<char>, kind: Kind)
    requires
        0 <= i <= lines.len(),
    ensures
        run(lines, i, date, kind) matches Ok(recs) ==> forall|n: int|
            0 <= n < recs.len() ==> {
                &&& i <= #[trigger] recs[n].1 < lines.len()
                &&& is_item_line(lines[recs[n].1 as int])
                &&& ((forall|j: int|
                    i <= j < recs[n].1 ==> !is_date_heading(lines[j])) ==> recs[n].0.date == date)
                &&& ((forall|j: int|
                    i <= j < recs[n].1 ==> !is_kind_heading(lines[j])) ==> recs[n].0.kind == kind)
            },
    decreases lines.len() - i,
{
    if i >= lines.len() {
    } else {
        let line = lines[i];
        let r = run(lines, i, date, kind);
        if line.len() < 2 {
            lemma_context_propagates(lines, i + 1, date, kind);
        } else if is_date_heading(line) {
            lemma_context_propagates(lines, i + 1, spec_trim(line.skip(2)), kind);
            if r is Ok {
                let recs = r->Ok_0;
                assert forall|n: int| 0 <= n < recs.len() implies {
                    &&& i <= #[trigger] recs[n].1 < lines.len()
                    &&& is_item_line(lines[recs[n].1 as int])
                    &&& ((forall|j: int|
                        i <= j < recs[n].1 ==> !is_date_heading(lines[j])) ==> recs[n].0.date
                        == date)
                    &&& ((forall|j: int|
                        i <= j < recs[n].1 ==> !is_kind_heading(lines[j])) ==> recs[n].0.kind
                        == kind)
                } by {
                    assert(is_date_heading(lines[i]));
                }
            }
        } else if is_kind_heading(line) {
            if kind_of_label(spec_trim(line.skip(2))) is Some {
                let k = kind_of_label(spec_trim(line.skip(2)))->Some_0;
                lemma_context_propagates(lines, i + 1, date, k);
                if r is Ok {
                    let recs = r->Ok_0;
                    assert forall|n: int| 0 <= n < recs.len() implies {
                        &&& i <= #[trigger] recs[n].1 < lines.len()
                        &&& is_item_line(lines[recs[n].1 as int])
                        &&& ((forall|j: int|
                            i <= j < recs[n].1 ==> !is_date_heading(lines[j])) ==> recs[n].0.date
                            == date)
                        &&& ((forall|j: int|
                            i <= j < recs[n].1 ==> !is_kind_heading(lines[j])) ==> recs[n].0.kind
                            == kind)
                    } by {
                        assert(is_kind_heading(lines[i]));
                    }
                }
            }
        } else if is_item_line(line) {
            lemma_context_propagates(lines, i + 1, date, kind);
            if r is Ok {
                let recs = r->Ok_0;
                let rec = item_outcome(date, kind, line.skip(2))->Ok_0;
                let rest = run(lines, i + 1, date, kind)->Ok_0;
                assert(recs == seq![(rec, i as nat)] + rest);
                assert(recs[0] == (rec, i as nat));
                assert forall|n: int| 1 <= n < recs.len() implies recs[n] == rest[n - 1] by {
                }
            }
        }
    }
}

/// Parses the whole log: walks `lines` in order, carrying the current date
/// and category, and returns every record together with the 0-based index
/// of its item line, or the first error. The records are returned only when
/// every line parses; a failed run delivers nothing.
pub fn parse(lines: &Vec<String>) -> (r: Result<Vec<(Record, usize)>, ParseError>)
    ensures
        parse_result_view(r) == parse_outcome(lines.deep_view()),
{
    let ghost lv = lines.deep_view();
    let mut date: String = String::new();
    let mut kind: Kind = Kind::IssueTriage;
    let mut out: Vec<(Record, usize)> = Vec::new();
    let mut i: usize = 0;
    proof {
        assert(lv.len() == lines@.len());
        assert(emitted_view(out@) =~= Seq::<(RecordModel, nat)>::empty());
        let r0 = run(lv, 0, date@, kind);
        if r0 is Ok {
            assert(emitted_view(out@) + r0->Ok_0 =~= r0->Ok_0);
        }
    }
    while i < lines.len()
        invariant
            i <= lines.len(),
            lv == lines.deep_view(),
            lv.len() == lines@.len(),
            parse_outcome(lv) == prepend(emitted_view(out@), run(lv, i as int, date@, kind)),
        decreases lines.len() - i,
    {
        proof {
            assert(lv[i as int] == lines@[i as int]@);
        }
        let line: &str = lines[i].as_str();
        let n = line.unicode_len();
        if n < 2 {
            // Too short to classify: skipped with no effect.
        } else {
            let c0 = line.get_char(0);
            let c1 = line.get_char(1);
            let rest = line.substring_char(2, n);
            proof {
                assert(rest@ =~= lv[i as int].skip(2));
            }
            if c0 == '#' && c1 == '#' {
                date = trim_str(rest).to_owned();
            } else if c0 == '-' && c1 == ' ' {
                let label = trim_str(rest);
                match Kind::from_str(label) {
                    Ok(k) => {
                        kind = k;
                    },
                    Err(_) => {
                        let e = ParseError::UnrecognizedKind {
                            line: i,
                            label: label.to_owned(),
                        };
                        return Err(e);
                    },
                }
            } else if c0 == ' ' && c1 == ' ' {
                match parse_item(date.as_str(), kind, rest) {
                    Ok(rec) => {
                        let ghost prev = out@;
                        out.push((rec, i));
                        proof {
                            assert(emitted_view(out@) =~= emitted_view(prev).push(
                                (rec@, i as nat),
                            ));
                            let r1 = run(lv, i + 1, date@, kind);
                            if r1 is Ok {
                                assert(emitted_view(prev) + (seq![(rec@, i as nat)] + r1->Ok_0)
                                    =~= emitted_view(out@) + r1->Ok_0);
                            }
                        }
                    },
                    Err(ItemError::UnrecognizedAction { label }) => {
                        return Err(ParseError::UnrecognizedAction { line: i, label });
                    },
                    Err(ItemError::MissingSeparator { text }) => {
                        return Err(ParseError::MalformedItem { line: i, text });
                    },
                }
            } else {
                return Err(ParseError::MalformedLine { line: i });
            }
        }
        i += 1;
    }
    proof {
        assert(run(lv, i as int, date@, kind) == Ok::<_, ParseErrorModel>(
            Seq::<(RecordModel, nat)>::empty(),
        ));
        assert(emitted_view(out@) + Seq::<(RecordModel, nat)>::empty() =~= emitted_view(out@));
    }
    Ok(out)
}

} // verus!
