//! Stored parts: the file under the Context tree's cursor, opened with the
//! operating system or written into the run's working directory, and the files a
//! typed answer names with `@path`.

use crate::state::{logged, notice, Dashboard, Notes};
use crate::text::{cat2, cat3, cat4, copy_of, same};
use crate::types::{
    ContextRegion, ContextSnapshot, InboundPart, InlineParts, Part, ToastLevel, ToastView, TreeRow,
};
use crate::views::{group_views, views};
use vstd::prelude::*;

verus! {

broadcast use group_views;

/// The first region of this name, from `from` on.
pub open spec fn region_from(regions: Seq<ContextRegion>, name: Seq<char>, from: int) -> Option<
    ContextRegion,
>
    decreases regions.len() - from,
{
    if from < 0 || from >= regions.len() {
        None
    } else if regions[from].name@ == name {
        Some(regions[from])
    } else {
        region_from(regions, name, from + 1)
    }
}

/// The part that a row of the tree stands for.
pub open spec fn part_of_row(snapshot: ContextSnapshot, row: TreeRow) -> Option<Part> {
    match row {
        TreeRow::Part { region, index, part } => match region_from(snapshot.regions@, region@, 0) {
            Some(found) => if index < found.entries@.len() && part
                < found.entries@[index as int].parts@.len() {
                Some(found.entries@[index as int].parts@[part as int])
            } else {
                None
            },
            None => None,
        },
        _ => None,
    }
}

/// The part under the tree's cursor: there is one only where a run is selected
/// and its context can be read.
pub open spec fn part_at_cursor(
    dash: Dashboard,
    snapshot: Option<ContextSnapshot>,
    rows: Seq<TreeRow>,
) -> Option<Part> {
    match (dash.current(), snapshot) {
        (Some(_), Some(context)) => if dash.detail.tree.cursor < rows.len() {
            part_of_row(context, rows[dash.detail.tree.cursor as int])
        } else {
            None
        },
        _ => None,
    }
}

/// The region of this name.
fn find_region<'a>(regions: &'a Vec<ContextRegion>, name: &str) -> (region: Option<
    &'a ContextRegion,
>)
    ensures
        match region {
            Some(found) => region_from(regions@, name@, 0) == Some(*found),
            None => region_from(regions@, name@, 0) is None,
        },
{
    let mut i: usize = 0;
    while i < regions.len()
        invariant
            i <= regions@.len(),
            region_from(regions@, name@, 0) == region_from(regions@, name@, i as int),
        decreases regions.len() - i,
    {
        if same(regions[i].name.as_str(), name) {
            return Some(&regions[i]);
        }
        i = i + 1;
    }
    None
}

/// A stored part, with the run and the working directory it belongs to.
#[derive(Clone, Copy, Debug)]
pub struct FoundPart<'a> {
    pub run_id: &'a str,
    pub workdir: &'a str,
    pub part: &'a Part,
}

/// What became of a part that was opened or written: the name it exports under,
/// and where it is now or why it is not.
#[derive(Debug, PartialEq, Eq)]
pub struct PartOutcome {
    pub name: String,
    pub result: Result<String, String>,
}

/// What opening a part is reported as.
pub open spec fn opened_notice(outcome: Option<PartOutcome>) -> ToastView {
    match outcome {
        None => notice("Move the cursor onto a stored part first"@, ToastLevel::Info),
        Some(done) => match done.result {
            Ok(_) => notice("Opened "@ + done.name@, ToastLevel::Info),
            Err(reason) => notice(
                "Could not open "@ + done.name@ + ": "@ + reason@,
                ToastLevel::Error,
            ),
        },
    }
}

/// What writing a part is reported as.
pub open spec fn written_notice(outcome: Option<PartOutcome>) -> ToastView {
    match outcome {
        None => notice("Move the cursor onto a stored part first"@, ToastLevel::Info),
        Some(done) => match done.result {
            Ok(path) => notice("Wrote "@ + path@, ToastLevel::Info),
            Err(reason) => notice(
                "Could not write "@ + done.name@ + ": "@ + reason@,
                ToastLevel::Error,
            ),
        },
    }
}

/// The log line of a part that was opened or written, where it was.
pub open spec fn part_log(verb: Seq<char>, outcome: Option<PartOutcome>) -> Option<Seq<char>> {
    match outcome {
        Some(done) => match done.result {
            Ok(path) => Some(verb + path@),
            Err(_) => None,
        },
        None => None,
    }
}

/// The log with a line more, where there is one.
pub open spec fn part_logged(before: Dashboard, after: Dashboard, line: Option<Seq<char>>) -> bool {
    views(after.notes.log@) == match line {
        Some(text) => views(before.notes.log@).push(logged(before.notes.log_stamp@, text)),
        None => views(before.notes.log@),
    }
}

impl Dashboard {
    /// The stored part under the Context tree's cursor: `snapshot` is the context
    /// of the selected run, `rows` the tree's rows.
    pub fn context_part_under_cursor<'a>(
        &'a self,
        snapshot: Option<&'a ContextSnapshot>,
        rows: &'a Vec<TreeRow>,
    ) -> (found: Option<FoundPart<'a>>)
        ensures
            match found {
                Some(it) => {
                    &&& part_at_cursor(
                        *self,
                        match snapshot {
                            Some(context) => Some(*context),
                            None => None,
                        },
                        rows@,
                    ) == Some(*it.part)
                    &&& self.current() matches Some(agent) && it.run_id@ == agent.id@
                        && it.workdir@ == agent.workdir@
                },
                None => part_at_cursor(
                    *self,
                    match snapshot {
                        Some(context) => Some(*context),
                        None => None,
                    },
                    rows@,
                ) is None,
            },
    {
        let agent = match self.selected_agent() {
            Some(agent) => agent,
            None => return None,
        };
        let context = match snapshot {
            Some(context) => context,
            None => return None,
        };
        if self.detail.tree.cursor >= rows.len() {
            return None;
        }
        match &rows[self.detail.tree.cursor] {
            TreeRow::Part { region, index, part } => {
                let found = match find_region(&context.regions, region.as_str()) {
                    Some(found) => found,
                    None => return None,
                };
                if *index >= found.entries.len() {
                    return None;
                }
                let entry = &found.entries[*index];
                if *part >= entry.parts.len() {
                    return None;
                }
                Some(
                    FoundPart {
                        run_id: agent.id.as_str(),
                        workdir: agent.workdir.as_str(),
                        part: &entry.parts[*part],
                    },
                )
            },
            _ => None,
        }
    }

    /// Say what became of the part under the cursor that was handed to the
    /// operating system; there may have been none.
    pub fn open_context_part(&mut self, outcome: Option<PartOutcome>)
        ensures
            *final(self) == (Dashboard {
                notes: Notes {
                    toasts: final(self).notes.toasts,
                    log: final(self).notes.log,
                    ..old(self).notes
                },
                ..*old(self)
            }),
            views(final(self).notes.toasts@) == views(old(self).notes.toasts@).push(
                opened_notice(outcome),
            ),
            part_logged(*old(self), *final(self), part_log("opened "@, outcome)),
    {
        match outcome {
            None => self.toast(
                copy_of("Move the cursor onto a stored part first"),
                ToastLevel::Info,
            ),
            Some(done) => match done.result {
                Ok(path) => {
                    self.add_log(cat2("opened ", path.as_str()));
                    self.toast(cat2("Opened ", done.name.as_str()), ToastLevel::Info);
                },
                Err(reason) => self.toast(
                    cat4("Could not open ", done.name.as_str(), ": ", reason.as_str()),
                    ToastLevel::Error,
                ),
            },
        }
    }

    /// Say what became of the part under the cursor that was written into the
    /// run's working directory; there may have been none.
    pub fn write_context_part(&mut self, outcome: Option<PartOutcome>)
        ensures
            *final(self) == (Dashboard {
                notes: Notes {
                    toasts: final(self).notes.toasts,
                    log: final(self).notes.log,
                    ..old(self).notes
                },
                ..*old(self)
            }),
            views(final(self).notes.toasts@) == views(old(self).notes.toasts@).push(
                written_notice(outcome),
            ),
            part_logged(*old(self), *final(self), part_log("wrote "@, outcome)),
    {
        match outcome {
            None => self.toast(
                copy_of("Move the cursor onto a stored part first"),
                ToastLevel::Info,
            ),
            Some(done) => match done.result {
                Ok(path) => {
                    self.add_log(cat2("wrote ", path.as_str()));
                    self.toast(cat2("Wrote ", path.as_str()), ToastLevel::Info);
                },
                Err(reason) => self.toast(
                    cat4("Could not write ", done.name.as_str(), ": ", reason.as_str()),
                    ToastLevel::Error,
                ),
            },
        }
    }

    /// The text and the files of a typed answer: `read` is what the files it names
    /// with `@path` came to. A token that named nothing stays text and gets a
    /// warning; where a file could not be read the words go alone.
    pub fn answer_parts(&mut self, text: &str, read: Result<InlineParts, String>) -> (answer: (
        String,
        Vec<InboundPart>,
    ))
        ensures
            *final(self) == (Dashboard {
                notes: Notes { toasts: final(self).notes.toasts, ..old(self).notes },
                ..*old(self)
            }),
            match read {
                Ok(parts) => {
                    &&& answer.0 == parts.text
                    &&& answer.1 == parts.parts
                    &&& views(final(self).notes.toasts@) == views(old(self).notes.toasts@)
                        + answer_warnings(
                        views(parts.unresolved@),
                        parts.unresolved@.len() as int,
                    )
                },
                Err(reason) => {
                    &&& answer.0@ == text@
                    &&& answer.1@ == Seq::<InboundPart>::empty()
                    &&& views(final(self).notes.toasts@) == views(old(self).notes.toasts@).push(
                        notice(
                            "Could not attach a file, so the text goes alone: "@ + reason@,
                            ToastLevel::Error,
                        ),
                    )
                },
            },
    {
        match read {
            Ok(InlineParts { text: kept, parts, unresolved }) => {
                let mut i: usize = 0;
                while i < unresolved.len()
                    invariant
                        i <= unresolved@.len(),
                        *self == (Dashboard {
                            notes: Notes { toasts: self.notes.toasts, ..old(self).notes },
                            ..*old(self)
                        }),
                        views(self.notes.toasts@) == views(old(self).notes.toasts@)
                            + answer_warnings(views(unresolved@), i as int),
                    decreases unresolved.len() - i,
                {
                    assert(views(unresolved@)[i as int] == unresolved@[i as int]@);
                    self.toast(
                        cat3(
                            "'@",
                            unresolved[i].as_str(),
                            "' names no file in the run's working directory; sent as text",
                        ),
                        ToastLevel::Warning,
                    );
                    i = i + 1;
                }
                (kept, parts)
            },
            Err(reason) => {
                self.toast(
                    cat2("Could not attach a file, so the text goes alone: ", reason.as_str()),
                    ToastLevel::Error,
                );
                (copy_of(text), Vec::new())
            },
        }
    }
}

/// The warnings for the first `count` tokens of an answer that named no file.
pub open spec fn answer_warnings(tokens: Seq<Seq<char>>, count: int) -> Seq<ToastView>
    decreases count,
{
    if count <= 0 {
        Seq::empty()
    } else {
        answer_warnings(tokens, count - 1).push(
            notice(
                "'@"@ + tokens[count - 1]
                    + "' names no file in the run's working directory; sent as text"@,
                ToastLevel::Warning,
            ),
        )
    }
}

/// The hash of a part's stored bytes; nothing where it has none.
pub open spec fn hash_of(part: Part) -> Seq<char> {
    match part.blob {
        Some(blob) => blob.sha256@,
        None => Seq::empty(),
    }
}

/// The type of a part's stored bytes; nothing where it has none.
pub open spec fn type_of(part: Part) -> Seq<char> {
    match part.blob {
        Some(blob) => blob.mime_type@,
        None => Seq::empty(),
    }
}

/// What a part's export name is made from: the hash and the type of its bytes,
/// both empty where it has none.
pub fn export_name_of(part: &Part) -> (source: (String, String))
    ensures
        source.0@ == hash_of(*part),
        source.1@ == type_of(*part),
{
    match &part.blob {
        Some(blob) => (copy_of(blob.sha256.as_str()), copy_of(blob.mime_type.as_str())),
        None => (String::new(), String::new()),
    }
}

/// Why a stored part's bytes cannot be had.
pub fn bytes_missing(reason: &str) -> (message: String)
    ensures
        message@ == "the bytes are not in the run's store: "@ + reason@,
{
    cat2("the bytes are not in the run's store: ", reason)
}

/// The part that a row stands for is the one at its place in the first region of its name, and
/// no other row stands for a part.
pub proof fn a_row_stands_for_its_part(snapshot: ContextSnapshot, row: TreeRow, at: int)
    requires
        0 <= at < snapshot.regions@.len(),
    ensures
        row is Region || row is Entry ==> part_of_row(snapshot, row) is None,
        row matches TreeRow::Part { region, index, part } ==> ({
            let found = snapshot.regions@[at];
            found.name@ == region@ && (forall|j: int|
                0 <= j < at ==> (#[trigger] snapshot.regions@[j]).name@ != region@)
                ==> part_of_row(snapshot, row) == if index < found.entries@.len() && part
                < found.entries@[index as int].parts@.len() {
                Some(found.entries@[index as int].parts@[part as int])
            } else {
                None
            }
        }),
{
    match row {
        TreeRow::Part { region, index, part } => {
            if snapshot.regions@[at].name@ == region@ && (forall|j: int|
                0 <= j < at ==> (#[trigger] snapshot.regions@[j]).name@ != region@) {
                the_first_region_is_found(snapshot.regions@, region@, 0, at);
            }
        },
        _ => {},
    }
}

proof fn the_first_region_is_found(
    regions: Seq<ContextRegion>,
    name: Seq<char>,
    from: int,
    at: int,
)
    requires
        0 <= from <= at < regions.len(),
        regions[at].name@ == name,
        forall|j: int| 0 <= j < at ==> (#[trigger] regions[j]).name@ != name,
    ensures
        region_from(regions, name, from) == Some(regions[at]),
    decreases at - from,
{
    if from < at {
        the_first_region_is_found(regions, name, from + 1, at);
    }
}

/// What became of a part is told in its own words: an error if and only if it failed, with the
/// part's name and the reason, and else where it went.
pub proof fn a_part_is_told_of(done: PartOutcome, verb: Seq<char>)
    ensures
        opened_notice(Some(done)).level is Error <==> done.result is Err,
        written_notice(Some(done)).level is Error <==> done.result is Err,
        done.result is Ok ==> done.name@.is_suffix_of(opened_notice(Some(done)).message)
            && done.result->Ok_0@.is_suffix_of(written_notice(Some(done)).message) && part_log(
            verb,
            Some(done),
        ) == Some(verb + done.result->Ok_0@),
        done.result is Err ==> ("Could not open "@ + done.name@).is_prefix_of(
            opened_notice(Some(done)).message,
        ) && ("Could not write "@ + done.name@).is_prefix_of(written_notice(Some(done)).message)
            && done.result->Err_0@.is_suffix_of(opened_notice(Some(done)).message)
            && done.result->Err_0@.is_suffix_of(written_notice(Some(done)).message) && part_log(
            verb,
            Some(done),
        ) is None,
        opened_notice(None) == written_notice(None),
        opened_notice(None).level is Info,
{
    let opened = opened_notice(Some(done)).message;
    let written = written_notice(Some(done)).message;
    match done.result {
        Ok(path) => {
            assert(opened.skip(opened.len() - done.name@.len()) =~= done.name@);
            assert(written.skip(written.len() - path@.len()) =~= path@);
        },
        Err(reason) => {
            let open_head = "Could not open "@ + done.name@;
            let write_head = "Could not write "@ + done.name@;
            assert(opened.take(open_head.len() as int) =~= open_head);
            assert(written.take(write_head.len() as int) =~= write_head);
            assert(opened.skip(opened.len() - reason@.len()) =~= reason@);
            assert(written.skip(written.len() - reason@.len()) =~= reason@);
        },
    }
}

/// Every name in an answer that was no file is warned of, in its order.
pub proof fn every_name_in_an_answer_is_warned_of(tokens: Seq<Seq<char>>, count: int)
    requires
        0 <= count <= tokens.len(),
    ensures
        answer_warnings(tokens, count).len() == count,
        forall|i: int|
            0 <= i < count ==> (#[trigger] answer_warnings(tokens, count)[i]).level is Warning
                && ("'@"@ + tokens[i] + "'"@).is_prefix_of(
                answer_warnings(tokens, count)[i].message,
            ),
    decreases count,
{
    if count > 0 {
        every_name_in_an_answer_is_warned_of(tokens, count - 1);
        let head = "'@"@ + tokens[count - 1] + "'"@;
        let last = answer_warnings(tokens, count)[count - 1];
        reveal_strlit("'");
        reveal_strlit("' names no file in the run's working directory; sent as text");
        assert(last.message.take(head.len() as int) =~= head);
    }
}

/// A stored part is exported by the hash and the type of its own bytes, and one without bytes by
/// neither; the part under the cursor is that of the row it is on.
pub proof fn a_part_is_known_by_its_bytes(part: Part)
    ensures
        part.blob matches Some(blob) ==> hash_of(part) == blob.sha256@ && type_of(part)
            == blob.mime_type@,
        part.blob is None ==> hash_of(part).len() == 0 && type_of(part).len() == 0,
{
}

/// The part under the cursor is the one that the row under it stands for, and there is none without
/// a run or a context.
pub proof fn the_cursor_is_on_a_part(
    dash: Dashboard,
    context: ContextSnapshot,
    rows: Seq<TreeRow>,
)
    ensures
        dash.current() is None ==> part_at_cursor(dash, Some(context), rows) is None,
        part_at_cursor(dash, None, rows) is None,
        dash.current() is Some && dash.detail.tree.cursor < rows.len() ==> part_at_cursor(
            dash,
            Some(context),
            rows,
        ) == part_of_row(context, rows[dash.detail.tree.cursor as int]),
        dash.detail.tree.cursor >= rows.len() ==> part_at_cursor(dash, Some(context), rows) is None,
{
}

} // verus!
