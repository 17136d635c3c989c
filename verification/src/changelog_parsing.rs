//! Finds the entry of a version in the lines of a changelog.
//!
//! An entry is announced by a heading `## [<version>]`, the version written
//! with or without a leading `v`, and runs up to the next `# ` or `## `
//! heading or to the first reference-link definition. [`changelog_entry`]
//! states this in full; [`get_changelog_entry`] computes it from all lines
//! at once, and [`EntryScanner`] from lines that come one by one.

use crate::text::{
    debug_format, debug_text, is_blank, is_blank_text, is_prefix, is_white_space, join_lines, joined,
    line_texts, starts_with,
};
use vstd::prelude::*;
use vstd::slice::slice_subrange;
use vstd::std_specs::iter::IteratorSpec;

verus! {

broadcast use vstd::string::group_string_axioms;

/// A version identifier without its optional leading `v`.
pub open spec fn without_v_prefix(version: Seq<char>) -> Seq<char> {
    if version.len() > 0 && version[0] == 'v' {
        version.subrange(1, version.len() as int)
    } else {
        version
    }
}

/// The heading prefix under which a version stands when it is written without `v`.
pub open spec fn plain_title(version: Seq<char>) -> Seq<char> {
    "## ["@ + without_v_prefix(version) + "]"@
}

/// The heading prefix under which a version stands when it is written with `v`.
pub open spec fn prefixed_title(version: Seq<char>) -> Seq<char> {
    "## [v"@ + without_v_prefix(version) + "]"@
}

/// Whether `line` opens the entry of `version`: it starts with one of the
/// two target titles. Anything may follow the title on the line.
pub open spec fn is_target_heading(line: Seq<char>, version: Seq<char>) -> bool {
    is_prefix(plain_title(version), line) || is_prefix(prefixed_title(version), line)
}

/// Whether `end` is where the label of a reference-link definition closes:
/// the line opens with `[`, holds at least one character that is neither
/// `[` nor `]` up to `end`, and goes on with `]:` there.
pub open spec fn is_link_label_end(line: Seq<char>, end: int) -> bool {
    &&& 2 <= end
    &&& end + 1 < line.len()
    &&& line[0] == '['
    &&& forall|i: int| 1 <= i < end ==> #[trigger] line[i] != '[' && line[i] != ']'
    &&& line[end] == ']'
    &&& line[end + 1] == ':'
}

/// Whether `line` is a reference-link definition such as `[v1.2.0]: https://...`.
pub open spec fn is_link_definition(line: Seq<char>) -> bool {
    exists|end: int| is_link_label_end(line, end)
}

/// Whether `line` closes the entry that precedes it: a level-1 heading, a
/// level-2 heading or a reference-link definition.
pub open spec fn entry_ended(line: Seq<char>) -> bool {
    is_prefix("# "@, line) || is_prefix("## "@, line) || is_link_definition(line)
}

/// Whether `i` is where the entry of `version` is announced: the first line
/// that is a target heading, or the number of lines where there is none.
pub open spec fn is_heading_index(lines: Seq<Seq<char>>, version: Seq<char>, i: int) -> bool {
    &&& 0 <= i <= lines.len()
    &&& forall|j: int| 0 <= j < i ==> !is_target_heading(#[trigger] lines[j], version)
    &&& i < lines.len() ==> is_target_heading(lines[i], version)
}

/// The index of the first target heading of `version` among `lines`, or the
/// number of lines where no line is one.
pub open spec fn heading_index(lines: Seq<Seq<char>>, version: Seq<char>) -> int {
    choose|i: int| is_heading_index(lines, version, i)
}

/// Where the body under the heading at `heading` begins. The line right
/// after the heading is left out where it is blank and taken where it is
/// not, whatever else it holds.
pub open spec fn body_start(lines: Seq<Seq<char>>, heading: int) -> int {
    if is_blank_text(lines[heading + 1]) {
        heading + 2
    } else {
        heading + 1
    }
}

/// Whether `stop` is where collecting under the heading at `heading` stops:
/// the first line, from the second after the heading on, at which the entry
/// has ended, or the number of lines where there is none.
pub open spec fn is_stop_index(lines: Seq<Seq<char>>, heading: int, stop: int) -> bool {
    &&& heading + 2 <= stop <= lines.len()
    &&& forall|j: int| heading + 2 <= j < stop ==> !entry_ended(#[trigger] lines[j])
    &&& stop < lines.len() ==> entry_ended(lines[stop])
}

/// The index at which collecting under the heading at `heading` stops.
pub open spec fn stop_index(lines: Seq<Seq<char>>, heading: int) -> int {
    choose|stop: int| is_stop_index(lines, heading, stop)
}

/// Whether `end` is where the body under the heading at `heading` ends once
/// its trailing blank lines are gone: every collected line from `end` on is
/// blank, and the one before `end`, if the body has any line, is not.
pub open spec fn is_body_end(lines: Seq<Seq<char>>, heading: int, end: int) -> bool {
    &&& body_start(lines, heading) <= end <= stop_index(lines, heading)
    &&& forall|j: int| end <= j < stop_index(lines, heading) ==> is_blank_text(#[trigger] lines[j])
    &&& end > body_start(lines, heading) ==> !is_blank_text(lines[end - 1])
}

/// The index just after the last line of the body under the heading at `heading`.
pub open spec fn body_end(lines: Seq<Seq<char>>, heading: int) -> int {
    choose|end: int| is_body_end(lines, heading, end)
}

/// The lines of the entry under the heading at `heading`.
pub open spec fn entry_lines(lines: Seq<Seq<char>>, heading: int) -> Seq<Seq<char>> {
    lines.subrange(body_start(lines, heading), body_end(lines, heading))
}

/// Why no entry can be taken from a changelog, over texts.
pub enum EntryFailure {
    NoEntryFound {
        version: Seq<char>,
        changelog_file_path: Seq<char>,
        title_1: Seq<char>,
        title_2: Seq<char>,
    },
    UnexpectedEnd { title_line: Seq<char> },
    EmptyEntry { version: Seq<char> },
}

impl EntryFailure {
    /// The failure in words.
    pub open spec fn message(self) -> Seq<char> {
        match self {
            EntryFailure::NoEntryFound { version, changelog_file_path, title_1, title_2 } => {
                "No changelog entry found for version '"@ + version + "' in changelog file '"@
                    + debug_text(changelog_file_path) + "' (looking for titles starting with '"@
                    + title_1 + "' or '"@ + title_2 + "')"@
            },
            EntryFailure::UnexpectedEnd { title_line } => {
                "Unexpected end of changelog file after title line '"@ + title_line + "'"@
            },
            EntryFailure::EmptyEntry { version } => {
                "Changelog entry for version '"@ + version + "' was empty"@
            },
        }
    }
}

/// What extracting the entry of `version` from `lines` gives: the text of
/// the entry, its lines joined by line feeds, or the reason why there is none.
pub open spec fn changelog_entry(
    changelog_file_path: Seq<char>,
    lines: Seq<Seq<char>>,
    version: Seq<char>,
) -> Result<Seq<char>, EntryFailure> {
    let heading = heading_index(lines, version);
    if heading >= lines.len() {
        Err(
            EntryFailure::NoEntryFound {
                version,
                changelog_file_path,
                title_1: plain_title(version),
                title_2: prefixed_title(version),
            },
        )
    } else if heading + 1 >= lines.len() {
        Err(EntryFailure::UnexpectedEnd { title_line: lines[heading] })
    } else if entry_lines(lines, heading).len() == 0 {
        Err(EntryFailure::EmptyEntry { version })
    } else {
        Ok(joined(entry_lines(lines, heading)))
    }
}

/// Why no entry could be taken from a changelog.
#[derive(Debug, PartialEq, Eq)]
pub enum ChangelogError {
    /// No line starts with one of the two target titles.
    NoEntryFound { version: String, changelog_file_path: String, title_1: String, title_2: String },
    /// The heading of the entry is the last line.
    UnexpectedEnd { title_line: String },
    /// Nothing but blank lines stands under the heading.
    EmptyEntry { version: String },
}

impl View for ChangelogError {
    type V = EntryFailure;

    open spec fn view(&self) -> EntryFailure {
        match self {
            ChangelogError::NoEntryFound { version, changelog_file_path, title_1, title_2 } => {
                EntryFailure::NoEntryFound {
                    version: version@,
                    changelog_file_path: changelog_file_path@,
                    title_1: title_1@,
                    title_2: title_2@,
                }
            },
            ChangelogError::UnexpectedEnd { title_line } => {
                EntryFailure::UnexpectedEnd { title_line: title_line@ }
            },
            ChangelogError::EmptyEntry { version } => {
                EntryFailure::EmptyEntry { version: version@ }
            },
        }
    }
}

/// An outcome of [`get_changelog_entry`] over texts.
pub open spec fn outcome_view(outcome: Result<String, ChangelogError>) -> Result<
    Seq<char>,
    EntryFailure,
> {
    match outcome {
        Ok(text) => Ok(text@),
        Err(error) => Err(error@),
    }
}

impl ChangelogError {
    /// The error in words, for the one who ran the release.
    pub fn message(&self) -> (text: String)
        ensures
            text@ == self@.message(),
    {
        match self {
            ChangelogError::NoEntryFound { version, changelog_file_path, title_1, title_2 } => {
                let mut text = String::from_str("No changelog entry found for version '");
                text.append(version.as_str());
                text.append("' in changelog file '");
                text.append(debug_format(changelog_file_path.as_str()).as_str());
                text.append("' (looking for titles starting with '");
                text.append(title_1.as_str());
                text.append("' or '");
                text.append(title_2.as_str());
                text.append("')");
                text
            },
            ChangelogError::UnexpectedEnd { title_line } => {
                let mut text = String::from_str(
                    "Unexpected end of changelog file after title line '",
                );
                text.append(title_line.as_str());
                text.append("'");
                text
            },
            ChangelogError::EmptyEntry { version } => {
                let mut text = String::from_str("Changelog entry for version '");
                text.append(version.as_str());
                text.append("' was empty");
                text
            },
        }
    }
}

/// Takes the optional leading `v` from a version identifier.
pub fn strip_v_prefix(version: &str) -> (bare: &str)
    ensures
        bare@ == without_v_prefix(version@),
{
    let mut first_chars = version.chars();
    let has_prefix = match first_chars.next() {
        Some(c) => c == 'v',
        None => false,
    };
    if has_prefix {
        let len = version.unicode_len();
        version.substring_char(1, len)
    } else {
        version
    }
}

/// The two heading prefixes that may introduce the entry of `version_to_find`:
/// first the one without a leading `v`, then the one with it.
pub fn get_target_titles(version_to_find: &str) -> (titles: [String; 2])
    ensures
        titles[0]@ == plain_title(version_to_find@),
        titles[1]@ == prefixed_title(version_to_find@),
{
    let bare = strip_v_prefix(version_to_find);
    let mut plain = String::from_str("## [");
    plain.append(bare);
    plain.append("]");
    let mut prefixed = String::from_str("## [v");
    prefixed.append(bare);
    prefixed.append("]");
    [plain, prefixed]
}

/// Whether `line` is a reference-link definition.
fn is_link_definition_line(line: &str) -> (b: bool)
    ensures
        b == is_link_definition(line@),
{
    let mut rest = line.chars();
    match rest.next() {
        Some(c) => {
            if c != '[' {
                return false;
            }
        },
        None => {
            return false;
        },
    }
    let ghost mut n: int = 1;
    let mut label_seen = false;
    loop
        invariant_except_break
            rest.remaining() == line@.subrange(n, line@.len() as int),
        invariant
            1 <= n <= line@.len(),
            line@[0] == '[',
            label_seen == (n >= 2),
            forall|i: int| 1 <= i < n ==> #[trigger] line@[i] != '[' && line@[i] != ']',
        ensures
            n < line@.len(),
            line@[n] == ']',
            rest.remaining() == line@.subrange(n + 1, line@.len() as int),
        decreases line@.len() - n,
    {
        match rest.next() {
            None => {
                return false;
            },
            Some(c) => {
                if c == ']' {
                    break;
                }
                if c == '[' {
                    return false;
                }
                label_seen = true;
                proof {
                    n = n + 1;
                }
            },
        }
    }
    // A label end, if there is one, is the first bracket after the opening one.
    assert(forall|end: int| is_link_label_end(line@, end) ==> end == n);
    if !label_seen {
        return false;
    }
    match rest.next() {
        Some(c) => {
            proof {
                if c == ':' {
                    assert(is_link_label_end(line@, n));
                }
            }
            c == ':'
        },
        None => false,
    }
}

/// A changelog entry has ended at a line that is a level-1 heading (`# `), the
/// heading of another entry (`## `), or the start of the link section at the
/// end of the changelog (`[v0.1.0]: <link>`).
pub fn changelog_entry_ended(line: &str) -> (b: bool)
    ensures
        b == entry_ended(line@),
{
    starts_with(line, "# ") || starts_with(line, "## ") || is_link_definition_line(line)
}

/// No index but [`heading_index`] fits [`is_heading_index`].
pub proof fn lemma_heading_index_is(lines: Seq<Seq<char>>, version: Seq<char>, i: int)
    requires
        is_heading_index(lines, version, i),
    ensures
        heading_index(lines, version) == i,
{
    let chosen = heading_index(lines, version);
    assert(is_heading_index(lines, version, chosen));
    if chosen < i {
        assert(!is_target_heading(lines[chosen], version));
    }
    if i < chosen {
        assert(!is_target_heading(lines[i], version));
    }
}

/// No index but [`stop_index`] fits [`is_stop_index`].
pub proof fn lemma_stop_index_is(lines: Seq<Seq<char>>, heading: int, stop: int)
    requires
        is_stop_index(lines, heading, stop),
    ensures
        stop_index(lines, heading) == stop,
{
    let chosen = stop_index(lines, heading);
    assert(is_stop_index(lines, heading, chosen));
    if chosen < stop {
        assert(!entry_ended(lines[chosen]));
    }
    if stop < chosen {
        assert(!entry_ended(lines[stop]));
    }
}

/// No index but [`body_end`] fits [`is_body_end`].
pub proof fn lemma_body_end_is(lines: Seq<Seq<char>>, heading: int, end: int)
    requires
        is_body_end(lines, heading, end),
    ensures
        body_end(lines, heading) == end,
{
    let chosen = body_end(lines, heading);
    assert(is_body_end(lines, heading, chosen));
    if chosen < end {
        assert(is_blank_text(lines[end - 1]));
    }
    if end < chosen {
        assert(is_blank_text(lines[chosen - 1]));
    }
}

/// Scans for the first line that starts with one of `titles`.
fn locate_heading(lines: &[String], titles: &[String; 2], Ghost(version): Ghost<Seq<char>>) -> (heading:
    usize)
    requires
        titles[0]@ == plain_title(version),
        titles[1]@ == prefixed_title(version),
    ensures
        heading <= lines.len(),
        heading == heading_index(line_texts(lines@), version),
        is_heading_index(line_texts(lines@), version, heading as int),
{
    let ghost texts = line_texts(lines@);
    let mut i: usize = 0;
    while i < lines.len()
        invariant
            i <= lines.len(),
            texts == line_texts(lines@),
            titles[0]@ == plain_title(version),
            titles[1]@ == prefixed_title(version),
            forall|j: int| 0 <= j < i ==> !is_target_heading(#[trigger] texts[j], version),
        ensures
            is_heading_index(texts, version, i as int),
        decreases lines.len() - i,
    {
        let line = lines[i].as_str();
        if starts_with(line, titles[0].as_str()) || starts_with(line, titles[1].as_str()) {
            break;
        }
        i = i + 1;
    }
    proof {
        lemma_heading_index_is(texts, version, i as int);
    }
    i
}

/// Finds the line that announces the entry of `version_to_find`: the first
/// one that starts with `## [<version>]`, the version written with or
/// without its leading `v`. `None` where no line does.
pub fn find_entry_heading(lines: &[String], version_to_find: &str) -> (found: Option<usize>)
    ensures
        found matches Some(i) ==> i < lines.len(),
        heading_index(line_texts(lines@), version_to_find@) == match found {
            Some(i) => i as int,
            None => lines.len() as int,
        },
{
    let titles = get_target_titles(version_to_find);
    let heading = locate_heading(lines, &titles, Ghost(version_to_find@));
    if heading < lines.len() {
        Some(heading)
    } else {
        None
    }
}

/// Extracts the changelog entry of `version_to_find` from the lines of a
/// changelog. `changelog_file_path` says where the lines come from and is
/// only used to describe a failure.
///
/// The entry is announced by the first line that starts with `## [<version>]`,
/// the version written with or without its leading `v`. The line after the
/// heading belongs to the entry unless it is blank. The lines after that one
/// are collected up to the first at which [`changelog_entry_ended`], or up
/// to the last line. Blank lines at the end are dropped, and what is left
/// is joined with line feeds.
pub fn get_changelog_entry(
    changelog_file_path: &str,
    lines: &[String],
    version_to_find: &str,
) -> (result: Result<String, ChangelogError>)
    ensures
        outcome_view(result) == changelog_entry(
            changelog_file_path@,
            line_texts(lines@),
            version_to_find@,
        ),
{
    let ghost texts = line_texts(lines@);
    let titles = get_target_titles(version_to_find);
    let heading = locate_heading(lines, &titles, Ghost(version_to_find@));
    if heading >= lines.len() {
        return Err(
            ChangelogError::NoEntryFound {
                version: version_to_find.to_owned(),
                changelog_file_path: changelog_file_path.to_owned(),
                title_1: titles[0].clone(),
                title_2: titles[1].clone(),
            },
        );
    }
    if heading + 1 >= lines.len() {
        return Err(ChangelogError::UnexpectedEnd { title_line: lines[heading].clone() });
    }
    let start: usize = if is_blank(lines[heading + 1].as_str()) {
        heading + 2
    } else {
        heading + 1
    };
    let mut stop: usize = heading + 2;
    while stop < lines.len()
        invariant
            heading + 2 <= stop <= lines.len(),
            texts == line_texts(lines@),
            forall|j: int| heading + 2 <= j < stop ==> !entry_ended(#[trigger] texts[j]),
        ensures
            is_stop_index(texts, heading as int, stop as int),
        decreases lines.len() - stop,
    {
        if changelog_entry_ended(lines[stop].as_str()) {
            break;
        }
        stop = stop + 1;
    }
    proof {
        lemma_stop_index_is(texts, heading as int, stop as int);
    }
    let mut end: usize = stop;
    while end > start
        invariant
            start <= end <= stop <= lines.len(),
            texts == line_texts(lines@),
            forall|j: int| end <= j < stop ==> is_blank_text(#[trigger] texts[j]),
        ensures
            start <= end <= stop,
            forall|j: int| end <= j < stop ==> is_blank_text(#[trigger] texts[j]),
            end > start ==> !is_blank_text(texts[end - 1]),
        decreases end,
    {
        if !is_blank(lines[end - 1].as_str()) {
            break;
        }
        end = end - 1;
    }
    proof {
        lemma_body_end_is(texts, heading as int, end as int);
    }
    if end <= start {
        return Err(ChangelogError::EmptyEntry { version: version_to_find.to_owned() });
    }
    let body = slice_subrange(lines, start, end);
    assert(line_texts(body@) =~= entry_lines(texts, heading as int));
    Ok(join_lines(body))
}

/// Running the extraction again on the same lines and version gives the
/// same outcome: any two results that [`get_changelog_entry`] may return for
/// one input agree, text for text and failure for failure.
pub proof fn lemma_extraction_is_repeatable(
    changelog_file_path: &str,
    lines: &[String],
    version_to_find: &str,
    first: Result<String, ChangelogError>,
    second: Result<String, ChangelogError>,
)
    requires
        call_ensures(get_changelog_entry, (changelog_file_path, lines, version_to_find), first),
        call_ensures(get_changelog_entry, (changelog_file_path, lines, version_to_find), second),
    ensures
        outcome_view(first) == outcome_view(second),
{
}

/// From `from` on there is a first target heading, or none up to the end.
proof fn lemma_heading_index_from(lines: Seq<Seq<char>>, version: Seq<char>, from: int)
    requires
        0 <= from <= lines.len(),
        forall|j: int| 0 <= j < from ==> !is_target_heading(#[trigger] lines[j], version),
    ensures
        exists|i: int| is_heading_index(lines, version, i),
    decreases lines.len() - from,
{
    if from < lines.len() && !is_target_heading(lines[from], version) {
        lemma_heading_index_from(lines, version, from + 1);
    } else {
        assert(is_heading_index(lines, version, from));
    }
}

/// From `from` on there is a first line at which the entry has ended, or
/// none up to the end.
proof fn lemma_stop_index_from(lines: Seq<Seq<char>>, heading: int, from: int)
    requires
        heading + 2 <= from <= lines.len(),
        forall|j: int| heading + 2 <= j < from ==> !entry_ended(#[trigger] lines[j]),
    ensures
        exists|stop: int| is_stop_index(lines, heading, stop),
    decreases lines.len() - from,
{
    if from < lines.len() && !entry_ended(lines[from]) {
        lemma_stop_index_from(lines, heading, from + 1);
    } else {
        assert(is_stop_index(lines, heading, from));
    }
}

/// Going back from `from`, there is a last line that is not blank, or none
/// down to the start of the body.
proof fn lemma_body_end_from(lines: Seq<Seq<char>>, heading: int, from: int)
    requires
        body_start(lines, heading) <= from <= stop_index(lines, heading),
        forall|j: int| from <= j < stop_index(lines, heading) ==> is_blank_text(#[trigger] lines[j]),
    ensures
        exists|end: int| is_body_end(lines, heading, end),
    decreases from - body_start(lines, heading),
{
    if from > body_start(lines, heading) && is_blank_text(lines[from - 1]) {
        lemma_body_end_from(lines, heading, from - 1);
    } else {
        assert(is_body_end(lines, heading, from));
    }
}

/// [`heading_index`] is the index of the first line that is a target
/// heading, or the number of lines where there is none.
pub proof fn lemma_heading_index(lines: Seq<Seq<char>>, version: Seq<char>)
    ensures
        is_heading_index(lines, version, heading_index(lines, version)),
{
    lemma_heading_index_from(lines, version, 0);
}

/// [`stop_index`] is the index of the first line, from the second after the
/// heading on, at which the entry has ended, or the number of lines.
pub proof fn lemma_stop_index(lines: Seq<Seq<char>>, heading: int)
    requires
        0 <= heading,
        heading + 2 <= lines.len(),
    ensures
        is_stop_index(lines, heading, stop_index(lines, heading)),
{
    lemma_stop_index_from(lines, heading, heading + 2);
}

/// [`body_end`] is where the trailing blank lines of the collected lines begin.
pub proof fn lemma_body_end(lines: Seq<Seq<char>>, heading: int)
    requires
        0 <= heading,
        heading + 2 <= lines.len(),
    ensures
        is_body_end(lines, heading, body_end(lines, heading)),
{
    lemma_stop_index(lines, heading);
    lemma_body_end_from(lines, heading, stop_index(lines, heading));
}

/// The leading `v` of a version is optional, in the request as in the
/// changelog. A version asked for with a `v` in front finds what it finds
/// without: the same lines are target headings, the same text is extracted,
/// and the extraction fails for the same reason. A heading that names the
/// version with or without `v` is a target heading either way, whatever
/// follows it on the line.
pub proof fn lemma_leading_v_is_optional(
    changelog_file_path: Seq<char>,
    lines: Seq<Seq<char>>,
    version: Seq<char>,
    rest_of_line: Seq<char>,
)
    requires
        version.len() == 0 || version[0] != 'v',
    ensures
        ({
            let with_v = seq!['v'] + version;
            let bare_heading = "## ["@ + version + "]"@ + rest_of_line;
            let v_heading = "## [v"@ + version + "]"@ + rest_of_line;
            let bare_outcome = changelog_entry(changelog_file_path, lines, version);
            let v_outcome = changelog_entry(changelog_file_path, lines, with_v);
            &&& is_target_heading(bare_heading, version)
            &&& is_target_heading(v_heading, version)
            &&& is_target_heading(bare_heading, with_v)
            &&& is_target_heading(v_heading, with_v)
            &&& forall|line: Seq<char>|
                is_target_heading(line, with_v) == is_target_heading(line, version)
            &&& heading_index(lines, with_v) == heading_index(lines, version)
            &&& bare_outcome is Ok ==> v_outcome == bare_outcome
            &&& v_outcome is Ok ==> v_outcome == bare_outcome
            &&& (bare_outcome matches Err(EntryFailure::NoEntryFound { .. })) <==> (v_outcome matches Err(
                EntryFailure::NoEntryFound { .. },
            ))
            &&& (bare_outcome matches Err(EntryFailure::UnexpectedEnd { .. })) ==> v_outcome
                == bare_outcome
            &&& (bare_outcome matches Err(EntryFailure::EmptyEntry { .. })) <==> (v_outcome matches Err(
                EntryFailure::EmptyEntry { .. },
            ))
        }),
{
    let with_v = seq!['v'] + version;
    assert(without_v_prefix(with_v) =~= version);
    let bare_heading = "## ["@ + version + "]"@ + rest_of_line;
    let v_heading = "## [v"@ + version + "]"@ + rest_of_line;
    assert(bare_heading.subrange(0, plain_title(version).len() as int) =~= plain_title(version));
    assert(v_heading.subrange(0, prefixed_title(version).len() as int) =~= prefixed_title(
        version,
    ));
    lemma_heading_index(lines, version);
    lemma_heading_index_is(lines, with_v, heading_index(lines, version));
}

/// The line right after the heading of an entry is part of the entry if and
/// only if it is not blank. Where it is blank the entry is drawn from the
/// lines after it alone. Where it is not, the extraction succeeds and the
/// entry begins with that line.
pub proof fn lemma_line_after_heading(
    changelog_file_path: Seq<char>,
    lines: Seq<Seq<char>>,
    version: Seq<char>,
)
    requires
        heading_index(lines, version) + 1 < lines.len(),
    ensures
        ({
            let heading = heading_index(lines, version);
            let body = entry_lines(lines, heading);
            let after = lines[heading + 1];
            &&& is_blank_text(after) ==> body == lines.subrange(
                heading + 2,
                body_end(lines, heading),
            )
            &&& !is_blank_text(after) ==> body.len() > 0 && body[0] == after
            &&& !is_blank_text(after) ==> changelog_entry(changelog_file_path, lines, version)
                == Ok::<Seq<char>, EntryFailure>(joined(body))
        }),
{
    let heading = heading_index(lines, version);
    lemma_heading_index(lines, version);
    lemma_stop_index(lines, heading);
    lemma_body_end(lines, heading);
}

/// An entry that is returned does not end in a blank line, however many
/// blank lines stand before the line that ends it or before the end of the
/// changelog: they are all left out, and only they.
pub proof fn lemma_no_trailing_blank_lines(
    changelog_file_path: Seq<char>,
    lines: Seq<Seq<char>>,
    version: Seq<char>,
)
    requires
        changelog_entry(changelog_file_path, lines, version) is Ok,
    ensures
        ({
            let heading = heading_index(lines, version);
            let body = entry_lines(lines, heading);
            &&& changelog_entry(changelog_file_path, lines, version) == Ok::<
                Seq<char>,
                EntryFailure,
            >(joined(body))
            &&& body.len() > 0
            &&& !is_blank_text(body.last())
            &&& forall|j: int|
                body_end(lines, heading) <= j < stop_index(lines, heading) ==> is_blank_text(
                    #[trigger] lines[j],
                )
        }),
{
    let heading = heading_index(lines, version);
    lemma_heading_index(lines, version);
    lemma_stop_index(lines, heading);
    lemma_body_end(lines, heading);
}

/// An entry that is returned is not blank: its last line holds a character
/// that is not whitespace.
pub proof fn lemma_returned_entry_is_not_blank(
    changelog_file_path: Seq<char>,
    lines: Seq<Seq<char>>,
    version: Seq<char>,
)
    requires
        changelog_entry(changelog_file_path, lines, version) is Ok,
    ensures
        changelog_entry(changelog_file_path, lines, version) matches Ok(text) && !is_blank_text(
            text,
        ),
{
    lemma_no_trailing_blank_lines(changelog_file_path, lines, version);
    let body = entry_lines(lines, heading_index(lines, version));
    let last = body.last();
    let text = joined(body);
    let at = choose|i: int| 0 <= i < last.len() && !is_white_space(#[trigger] last[i]);
    // The text ends with the last line, and so holds what that line holds.
    let before = text.len() - last.len();
    assert(text =~= text.subrange(0, before) + last);
    assert(text[before + at] == last[at]);
}

/// An entry stops at the first line that is a `# ` or `## ` heading or a
/// reference-link definition, and never takes that line in. This holds
/// from the second line after the heading on: the line right after the
/// heading is not examined.
pub proof fn lemma_entry_stops_at_terminator(lines: Seq<Seq<char>>, version: Seq<char>)
    requires
        heading_index(lines, version) + 1 < lines.len(),
    ensures
        ({
            let heading = heading_index(lines, version);
            let body = entry_lines(lines, heading);
            let stop = stop_index(lines, heading);
            &&& heading + 2 <= stop <= lines.len()
            &&& stop < lines.len() ==> entry_ended(lines[stop])
            &&& body_start(lines, heading) <= body_end(lines, heading) <= stop
            &&& forall|j: int| heading + 2 <= j < stop ==> !entry_ended(#[trigger] lines[j])
            &&& forall|k: int|
                0 <= k < body.len() && heading + 2 <= body_start(lines, heading) + k
                    ==> !entry_ended(#[trigger] body[k])
        }),
{
    let heading = heading_index(lines, version);
    lemma_heading_index(lines, version);
    lemma_stop_index(lines, heading);
    lemma_body_end(lines, heading);
}

/// Once the line that ends an entry has been met, the lines that follow it
/// are not consulted: whatever is added after it, the outcome of the
/// extraction is the same.
pub proof fn lemma_lines_after_terminator_are_not_consulted(
    changelog_file_path: Seq<char>,
    lines: Seq<Seq<char>>,
    version: Seq<char>,
    more_lines: Seq<Seq<char>>,
)
    requires
        heading_index(lines, version) + 1 < lines.len(),
        stop_index(lines, heading_index(lines, version)) < lines.len(),
    ensures
        changelog_entry(changelog_file_path, lines + more_lines, version) == changelog_entry(
            changelog_file_path,
            lines,
            version,
        ),
{
    let heading = heading_index(lines, version);
    let stop = stop_index(lines, heading);
    let end = body_end(lines, heading);
    let all = lines + more_lines;
    lemma_heading_index(lines, version);
    lemma_stop_index(lines, heading);
    lemma_body_end(lines, heading);
    lemma_heading_index_is(all, version, heading);
    lemma_stop_index_is(all, heading, stop);
    lemma_body_end_is(all, heading, end);
    assert(entry_lines(all, heading) =~= entry_lines(lines, heading));
}

/// Whether the lines read so far settle the outcome of the extraction:
/// the heading has been met, a line after it, and the line that ends the
/// entry. No line that follows can change the outcome then.
pub open spec fn is_settled(lines: Seq<Seq<char>>, version: Seq<char>) -> bool {
    let heading = heading_index(lines, version);
    heading + 1 < lines.len() && stop_index(lines, heading) < lines.len()
}

/// How far a scan has come.
#[derive(Debug, Clone, Copy, PartialEq, Eq, Structural)]
enum ScanStage {
    /// No heading of the version has been met.
    Searching,
    /// The last line was the heading of the version.
    AtHeading,
    /// The lines under the heading are being collected.
    Collecting,
    /// The line that ends the entry has been met.
    Ended,
}

/// Extracts a changelog entry from lines that are handed over one by one,
/// in the order of the changelog, so that reading can stop at the line that
/// ends the entry.
pub struct EntryScanner {
    version: String,
    titles: [String; 2],
    stage: ScanStage,
    title_line: String,
    body: Vec<String>,
    seen: Ghost<Seq<Seq<char>>>,
}

impl EntryScanner {
    #[verifier::type_invariant]
    spec fn well_formed(self) -> bool {
        let lines = self.seen@;
        let version = self.version@;
        let heading = heading_index(lines, version);
        &&& self.titles[0]@ == plain_title(version)
        &&& self.titles[1]@ == prefixed_title(version)
        &&& is_heading_index(lines, version, heading)
        &&& match self.stage {
            ScanStage::Searching => heading == lines.len() && self.body@.len() == 0,
            ScanStage::AtHeading => {
                &&& heading + 1 == lines.len()
                &&& self.title_line@ == lines[heading]
                &&& self.body@.len() == 0
            },
            ScanStage::Collecting => {
                &&& heading + 1 < lines.len()
                &&& stop_index(lines, heading) == lines.len()
                &&& line_texts(self.body@) == lines.subrange(
                    body_start(lines, heading),
                    lines.len() as int,
                )
            },
            ScanStage::Ended => {
                &&& heading + 1 < lines.len()
                &&& stop_index(lines, heading) < lines.len()
                &&& is_stop_index(lines, heading, stop_index(lines, heading))
                &&& line_texts(self.body@) == lines.subrange(
                    body_start(lines, heading),
                    stop_index(lines, heading),
                )
            },
        }
    }

    /// The version whose entry is sought.
    pub closed spec fn version(&self) -> Seq<char> {
        self.version@
    }

    /// The lines that the scan has taken in so far.
    pub closed spec fn lines(&self) -> Seq<Seq<char>> {
        self.seen@
    }

    /// A scan for the entry of `version_to_find` that has taken in no line yet.
    pub fn new(version_to_find: &str) -> (scanner: EntryScanner)
        ensures
            scanner.version() == version_to_find@,
            scanner.lines() == Seq::<Seq<char>>::empty(),
    {
        let titles = get_target_titles(version_to_find);
        proof {
            lemma_heading_index_is(Seq::<Seq<char>>::empty(), version_to_find@, 0);
        }
        EntryScanner {
            version: version_to_find.to_owned(),
            titles,
            stage: ScanStage::Searching,
            title_line: String::new(),
            body: Vec::new(),
            seen: Ghost(Seq::empty()),
        }
    }

    /// Whether the scan needs another line: the lines taken in so far do
    /// not settle the outcome.
    pub fn wants_more(&self) -> (more: bool)
        ensures
            more == !is_settled(self.lines(), self.version()),
    {
        proof {
            use_type_invariant(self);
        }
        match self.stage {
            ScanStage::Ended => false,
            _ => true,
        }
    }

    /// Takes in the next line of the changelog. A scan that needs no more
    /// lines leaves it aside.
    pub fn feed(self, line: String) -> (next: EntryScanner)
        ensures
            next.version() == self.version(),
            next.lines() == if is_settled(self.lines(), self.version()) {
                self.lines()
            } else {
                self.lines().push(line@)
            },
    {
        proof {
            use_type_invariant(&self);
        }
        let EntryScanner { version, titles, stage, title_line, body, seen } = self;
        let ghost before = seen@;
        let ghost after = before.push(line@);
        let ghost heading = heading_index(before, version@);
        match stage {
            ScanStage::Searching => {
                let found = starts_with(line.as_str(), titles[0].as_str()) || starts_with(
                    line.as_str(),
                    titles[1].as_str(),
                );
                proof {
                    if found {
                        lemma_heading_index_is(after, version@, before.len() as int);
                    } else {
                        lemma_heading_index_is(after, version@, after.len() as int);
                    }
                }
                if found {
                    EntryScanner {
                        version,
                        titles,
                        stage: ScanStage::AtHeading,
                        title_line: line,
                        body,
                        seen: Ghost(after),
                    }
                } else {
                    EntryScanner { version, titles, stage, title_line, body, seen: Ghost(after) }
                }
            },
            ScanStage::AtHeading => {
                // A blank line after the heading only sets the heading off from its entry.
                let mut body = body;
                proof {
                    lemma_heading_index_is(after, version@, heading);
                    lemma_stop_index_is(after, heading, after.len() as int);
                }
                if !is_blank(line.as_str()) {
                    body.push(line);
                }
                assert(line_texts(body@) =~= after.subrange(
                    body_start(after, heading),
                    after.len() as int,
                ));
                EntryScanner {
                    version,
                    titles,
                    stage: ScanStage::Collecting,
                    title_line,
                    body,
                    seen: Ghost(after),
                }
            },
            ScanStage::Collecting => {
                let mut body = body;
                let ended = changelog_entry_ended(line.as_str());
                proof {
                    lemma_heading_index_is(after, version@, heading);
                    lemma_stop_index(before, heading);
                    if ended {
                        lemma_stop_index_is(after, heading, before.len() as int);
                    } else {
                        lemma_stop_index_is(after, heading, after.len() as int);
                    }
                }
                if ended {
                    assert(line_texts(body@) =~= after.subrange(
                        body_start(after, heading),
                        before.len() as int,
                    ));
                    EntryScanner {
                        version,
                        titles,
                        stage: ScanStage::Ended,
                        title_line,
                        body,
                        seen: Ghost(after),
                    }
                } else {
                    let ghost collected = line_texts(body@);
                    body.push(line);
                    assert(line_texts(body@) =~= collected.push(line@));
                    assert(line_texts(body@) =~= after.subrange(
                        body_start(after, heading),
                        after.len() as int,
                    ));
                    EntryScanner { version, titles, stage, title_line, body, seen: Ghost(after) }
                }
            },
            ScanStage::Ended => EntryScanner { version, titles, stage, title_line, body, seen },
        }
    }

    /// The outcome of the extraction for the lines taken in: the entry, or
    /// why there is none. `changelog_file_path` says where the lines come
    /// from and is only used to describe a failure.
    pub fn finish(&self, changelog_file_path: &str) -> (result: Result<String, ChangelogError>)
        ensures
            outcome_view(result) == changelog_entry(
                changelog_file_path@,
                self.lines(),
                self.version(),
            ),
    {
        proof {
            use_type_invariant(self);
        }
        let ghost lines = self.seen@;
        let ghost heading = heading_index(lines, self.version@);
        match self.stage {
            ScanStage::Searching => {
                return Err(
                    ChangelogError::NoEntryFound {
                        version: self.version.clone(),
                        changelog_file_path: changelog_file_path.to_owned(),
                        title_1: self.titles[0].clone(),
                        title_2: self.titles[1].clone(),
                    },
                );
            },
            ScanStage::AtHeading => {
                return Err(ChangelogError::UnexpectedEnd { title_line: self.title_line.clone() });
            },
            _ => {},
        }
        let ghost start = body_start(lines, heading);
        let ghost stop = stop_index(lines, heading);
        let ghost collected = line_texts(self.body@);
        // Blank lines at the end of the entry only set it off from what follows.
        let mut end: usize = self.body.len();
        while end > 0
            invariant
                end <= self.body.len(),
                collected == line_texts(self.body@),
                forall|j: int| end <= j < collected.len() ==> is_blank_text(#[trigger] collected[j]),
            ensures
                end <= self.body.len(),
                forall|j: int| end <= j < collected.len() ==> is_blank_text(#[trigger] collected[j]),
                end > 0 ==> !is_blank_text(collected[end - 1]),
            decreases end,
        {
            if !is_blank(self.body[end - 1].as_str()) {
                break;
            }
            end = end - 1;
        }
        proof {
            assert(collected == lines.subrange(start, stop));
            assert forall|j: int| start + end <= j < stop implies is_blank_text(
                #[trigger] lines[j],
            ) by {
                assert(lines[j] == collected[j - start]);
            }
            if end > 0 {
                assert(lines[start + end - 1] == collected[end - 1]);
            }
            lemma_body_end_is(lines, heading, start + end);
        }
        if end == 0 {
            return Err(ChangelogError::EmptyEntry { version: self.version.clone() });
        }
        let kept = slice_subrange(self.body.as_slice(), 0, end);
        assert(line_texts(kept@) =~= entry_lines(lines, heading));
        Ok(join_lines(kept))
    }
}

} // verus!
