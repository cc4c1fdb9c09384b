//! The new-run screen's Inputs pane: one slot per region that the selected
//! blueprint takes from its caller, so that a file or a line of text can go
//! straight to the region it is for.
//!
//! A slot takes what the `--<region>` flag takes: `@file` attaches the file (or
//! seeds the region with its text when it is text), a bare path that names a file
//! in the working directory does the same, and anything else is the region's
//! text.

use crate::numbers::{compact_count, compacted};
use crate::outside::{final_name, is_portable, path_name};
use crate::render::new_run::{focus_colour, focus_ink};
use crate::state::{Dashboard, Inputs, Mouse, NewRun};
use crate::style::{
    bold_ink, copy_span, ink, minus, plus, sp, span, styled, Color, Line, Rect, Span, SpanView,
    Style,
};
use crate::text::{
    begins, cat2, cat3, cat5, copy_all, copy_of, count_text, decimal, fit, fitted, join, joined,
    length_of, occurs, pad_right, padded_right, same, stands_at, starts_with, trim, trimmed,
};
use crate::types::{
    ClickTarget, EditOutcome, InboundPart, InboundView, KeyCode, KeyEvent, LineEdit, NewRunPane,
};
use crate::views::{group_views, views};
use vstd::prelude::*;

verus! {

broadcast use group_views;

// ── Slots ────────────────────────────────────────────────────────────────────

/// One caller-input region of the selected blueprint, and what was typed for
/// it.
#[derive(Clone, Debug, PartialEq, Eq)]
pub struct NewRunInput {
    /// The caller key, what `--<key>` names on the command line.
    pub key: String,
    /// The region the key seeds.
    pub region: String,
    /// The mime type patterns the region takes; empty means anything.
    pub accepts: Vec<String>,
    /// Whether the run refuses to start without it.
    pub required: bool,
    /// The region's token budget; zero where it declares none.
    pub max_tokens: usize,
    /// The text typed for it.
    pub edit: LineEdit,
    /// The files chosen for it, relative to the working directory.
    pub files: Vec<String>,
}

/// One caller-input region of the selected blueprint, and what was typed for
/// it.
#[verifier::ext_equal]
pub struct InputView {
    pub key: Seq<char>,
    pub region: Seq<char>,
    pub accepts: Seq<Seq<char>>,
    pub required: bool,
    pub max_tokens: usize,
    pub value: Seq<char>,
    pub masked: bool,
    pub files: Seq<Seq<char>>,
}

impl View for NewRunInput {
    type V = InputView;

    open spec fn view(&self) -> InputView {
        InputView {
            key: self.key@,
            region: self.region@,
            accepts: views(self.accepts@),
            required: self.required,
            max_tokens: self.max_tokens,
            value: self.edit.value@,
            masked: self.edit.masked,
            files: views(self.files@),
        }
    }
}

/// Whether a pattern takes everything.
pub open spec fn takes_all(pattern: Seq<char>) -> bool {
    pattern == "*/*"@
}

impl InputView {
    /// Whether the region takes text a person would type: it says so, or it takes
    /// anything.
    pub open spec fn text_goes(self) -> bool {
        self.accepts.len() == 0 || exists|i: int|
            0 <= i < self.accepts.len() && (takes_all(#[trigger] self.accepts[i]) || begins(
                self.accepts[i],
                "text/"@,
            ))
    }

    /// Whether the region takes a file: it names a type that is not text, or it
    /// takes anything.
    pub open spec fn files_go(self) -> bool {
        self.accepts.len() == 0 || exists|i: int|
            0 <= i < self.accepts.len() && (takes_all(#[trigger] self.accepts[i]) || !begins(
                self.accepts[i],
                "text/"@,
            ))
    }

    /// What is noted beside the key: what the region takes, the room it has, and
    /// whether it is required.
    pub open spec fn notes(self) -> Seq<Seq<char>> {
        let types = if self.accepts.len() > 0 {
            seq![joined(self.accepts, " "@)]
        } else {
            Seq::empty()
        };
        let room = if self.max_tokens > 0 {
            types.push("≤"@ + compacted(self.max_tokens as nat) + " tok"@)
        } else {
            types
        };
        if self.required {
            room.push("required"@)
        } else {
            room
        }
    }

    /// The note beside the key; nothing where there is nothing to note.
    pub open spec fn aside(self) -> Seq<char> {
        if self.notes().len() == 0 {
            Seq::empty()
        } else {
            " ("@ + joined(self.notes(), ", "@) + ")"@
        }
    }

    /// How the value of a slot that only takes files is shown, by the names of its
    /// files.
    pub open spec fn files_shown(self, on: bool, names: Seq<Seq<char>>) -> Seq<SpanView> {
        if self.files.len() > 0 {
            seq![sp(in_short(names), ink(Color::Active))]
        } else if on {
            seq![sp("Enter to choose files"@, ink(Color::Dim))]
        } else {
            seq![sp("no files chosen"@, ink(Color::Dim))]
        }
    }

    /// How the value of a slot is shown: the chosen files where it takes only
    /// those, else the typed text as the field shows it. An empty field keeps its
    /// hint, and files chosen beside the text follow it.
    pub open spec fn value_shown(
        self,
        on: bool,
        field: Seq<SpanView>,
        names: Seq<Seq<char>>,
    ) -> Seq<SpanView> {
        if self.files_go() && !self.text_goes() {
            self.files_shown(on, names)
        } else {
            let hint = if self.files_go() {
                "text, or ^O for files"@
            } else {
                "text"@
            };
            let text = if self.value.len() > 0 {
                field
            } else if on {
                field.push(sp(" "@ + hint, ink(Color::Dim)))
            } else {
                seq![sp(hint, ink(Color::Dim))]
            };
            if self.files_go() && self.files.len() > 0 {
                text.push(sp("  +"@ + in_short(names), ink(Color::Accent)))
            } else {
                text
            }
        }
    }
}

impl NewRunInput {
    /// Whether the region takes text a person would type.
    pub fn takes_text(&self) -> (takes: bool)
        ensures
            takes == self@.text_goes(),
    {
        if self.accepts.len() == 0 {
            return true;
        }
        let mut i: usize = 0;
        while i < self.accepts.len()
            invariant
                i <= self.accepts@.len(),
                forall|j: int|
                    0 <= j < i ==> !(takes_all(#[trigger] self@.accepts[j]) || begins(
                        self@.accepts[j],
                        "text/"@,
                    )),
            decreases self.accepts.len() - i,
        {
            let pattern = self.accepts[i].as_str();
            assert(self@.accepts[i as int] == pattern@);
            if same(pattern, "*/*") || starts_with(pattern, "text/") {
                return true;
            }
            i = i + 1;
        }
        false
    }

    /// Whether the region takes a file.
    pub fn takes_files(&self) -> (takes: bool)
        ensures
            takes == self@.files_go(),
    {
        if self.accepts.len() == 0 {
            return true;
        }
        let mut i: usize = 0;
        while i < self.accepts.len()
            invariant
                i <= self.accepts@.len(),
                forall|j: int|
                    0 <= j < i ==> !(takes_all(#[trigger] self@.accepts[j]) || !begins(
                        self@.accepts[j],
                        "text/"@,
                    )),
            decreases self.accepts.len() - i,
        {
            let pattern = self.accepts[i].as_str();
            assert(self@.accepts[i as int] == pattern@);
            if same(pattern, "*/*") || !starts_with(pattern, "text/") {
                return true;
            }
            i = i + 1;
        }
        false
    }

    /// The note beside the key. The token room is the honest answer to how many
    /// files fit.
    pub fn note(&self) -> (note: String)
        ensures
            note@ == self@.aside(),
    {
        let mut bits: Vec<String> = Vec::new();
        if self.accepts.len() > 0 {
            bits.push(join(&self.accepts, " "));
            assert(views(bits@) =~= seq![joined(self@.accepts, " "@)]);
        }
        if self.max_tokens > 0 {
            let room = compact_count(self.max_tokens);
            bits.push(cat3("≤", room.as_str(), " tok"));
        }
        if self.required {
            bits.push(copy_of("required"));
        }
        assert(views(bits@) =~= self@.notes());
        if bits.len() == 0 {
            return String::new();
        }
        let all = join(&bits, ", ");
        cat3(" (", all.as_str(), ")")
    }

    /// How the slot's value is shown: `field` is how the text field shows itself,
    /// and `names` are the names of the slot's files.
    pub fn value_spans(&self, on: bool, field: &Line, names: &Vec<String>) -> (spans: Vec<Span>)
        ensures
            views(spans@) == self@.value_shown(on, field@, views(names@)),
    {
        let files_go = self.takes_files();
        if files_go && !self.takes_text() {
            return self.file_spans(on, names);
        }
        let hint: &str = if files_go {
            "text, or ^O for files"
        } else {
            "text"
        };
        let empty = self.edit.value.as_str().is_empty();
        let mut spans: Vec<Span> = Vec::new();
        if empty && !on {
            spans.push(span(hint, Style::ink(Color::Dim)));
            assert(views(spans@) =~= seq![sp(hint@, ink(Color::Dim))]);
        } else {
            let mut i: usize = 0;
            while i < field.spans.len()
                invariant
                    i <= field.spans@.len(),
                    views(spans@) == field@.take(i as int),
                decreases field.spans.len() - i,
            {
                spans.push(copy_span(&field.spans[i]));
                proof {
                    assert(field@[i as int] == field.spans@[i as int]@);
                    assert(field@.take(i + 1) =~= field@.take(i as int).push(field@[i as int]));
                }
                i = i + 1;
            }
            assert(field@.take(i as int) =~= field@);
            if empty {
                let after = cat2(" ", hint);
                spans.push(styled(after, Style::ink(Color::Dim)));
            }
        }
        if files_go && self.files.len() > 0 {
            let short = Self::names_in_short(names);
            let chip = cat2("  +", short.as_str());
            spans.push(styled(chip, Style::ink(Color::Accent)));
        }
        spans
    }

    /// How the value of a slot that only takes files is shown, by the names of its
    /// files.
    pub fn file_spans(&self, on: bool, names: &Vec<String>) -> (spans: Vec<Span>)
        ensures
            views(spans@) == self@.files_shown(on, views(names@)),
    {
        let mut spans: Vec<Span> = Vec::new();
        if self.files.len() == 0 {
            let prompt: &str = if on {
                "Enter to choose files"
            } else {
                "no files chosen"
            };
            spans.push(span(prompt, Style::ink(Color::Dim)));
        } else {
            let short = Self::names_in_short(names);
            spans.push(styled(short, Style::ink(Color::Active)));
        }
        assert(views(spans@) =~= self@.files_shown(on, views(names@)));
        spans
    }

    /// The names of the chosen files.
    pub fn file_names(&self) -> (names: Vec<String>)
        ensures
            are_names(views(names@), self@.files),
    {
        let mut names: Vec<String> = Vec::new();
        let mut i: usize = 0;
        while i < self.files.len()
            invariant
                i <= self.files@.len(),
                are_names(views(names@), self@.files.take(i as int)),
            decreases self.files.len() - i,
        {
            let path = self.files[i].as_str();
            let ghost before = views(names@);
            let name = match path_name(path) {
                Some(name) => name,
                None => copy_of(path),
            };
            names.push(name);
            proof {
                assert(views(names@) =~= before.push(name@));
                assert(self@.files.take(i + 1) =~= self@.files.take(i as int).push(path@));
                assert(occurs(path@, path@)) by {
                    assert(path@.subrange(0, path@.len() as int) =~= path@);
                    assert(stands_at(path@, path@, 0));
                }
            }
            i = i + 1;
        }
        assert(self@.files.take(i as int) =~= self@.files);
        names
    }

    /// Several names in a few words, as in `hero.png, villain.png (2)`.
    pub fn names_in_short(names: &Vec<String>) -> (summary: String)
        ensures
            summary@ == in_short(views(names@)),
    {
        let all = join(names, ", ");
        if names.len() > 1 {
            let count = count_text(names.len());
            let mut summary = cat3(all.as_str(), " (", count.as_str());
            summary.append(")");
            summary
        } else {
            all
        }
    }

    /// The chosen files in a few words.
    pub fn file_summary(&self) -> (summary: String)
        ensures
            exists|names: Seq<Seq<char>>| #[trigger]
                are_names(names, self@.files) && summary@ == in_short(names),
    {
        let names = self.file_names();
        Self::names_in_short(&names)
    }
}

/// A path's name, or the whole path where it has none.
pub open spec fn short_name(path: Seq<char>) -> Seq<char> {
    match final_name(path) {
        Some(name) => name,
        None => path,
    }
}

/// Whether this is the name of a path. A path that is not portable has the name that
/// the system finds in it.
pub open spec fn is_name(name: Seq<char>, path: Seq<char>) -> bool {
    &&& is_portable(path) ==> name == short_name(path)
    &&& occurs(path, name)
}

/// Whether these are the names of some paths.
pub open spec fn are_names(names: Seq<Seq<char>>, paths: Seq<Seq<char>>) -> bool {
    &&& names.len() == paths.len()
    &&& forall|i: int| 0 <= i < names.len() ==> is_name(#[trigger] names[i], paths[i])
}

/// Several names in a few words: all of them, and how many where there is more than
/// one.
pub open spec fn in_short(names: Seq<Seq<char>>) -> Seq<char> {
    let all = joined(names, ", "@);
    if names.len() > 1 {
        all + " ("@ + decimal(names.len()) + ")"@
    } else {
        all
    }
}

/// Portable paths have one list of names.
pub proof fn portable_paths_have_their_names(
    names: Seq<Seq<char>>,
    others: Seq<Seq<char>>,
    paths: Seq<Seq<char>>,
)
    requires
        are_names(names, paths),
        are_names(others, paths),
        forall|i: int| 0 <= i < paths.len() ==> is_portable(#[trigger] paths[i]),
    ensures
        names == others,
{
    assert forall|i: int| 0 <= i < names.len() implies names[i] == others[i] by {
        assert(is_portable(paths[i]));
        assert(is_name(names[i], paths[i]) && is_name(others[i], paths[i]));
    }
    assert(names =~= others);
}

// ── Following the selected agent ─────────────────────────────────────────────

/// One region of a blueprint as its entry stage lays it out, with the caller key
/// that seeds it where one does.
#[derive(Clone, Debug, PartialEq, Eq)]
pub struct RegionDecl {
    pub name: String,
    pub caller_key: Option<String>,
    pub accepts: Vec<String>,
    pub required: bool,
    pub max_tokens: usize,
}

/// Every slot takes something: text, files, or both.
pub proof fn every_slot_takes_something(slot: InputView)
    ensures
        slot.text_goes() || slot.files_go(),
{
    if slot.accepts.len() > 0 {
        let first = slot.accepts[0];
        if begins(first, "text/"@) {
            assert(slot.text_goes());
        } else {
            assert(slot.files_go());
        }
    }
}

/// An empty slot for a region.
pub open spec fn empty_slot(region: RegionDecl, key: Seq<char>) -> InputView {
    InputView {
        key,
        region: region.name@,
        accepts: views(region.accepts@),
        required: region.required,
        max_tokens: region.max_tokens,
        value: Seq::empty(),
        masked: false,
        files: Seq::empty(),
    }
}

/// The slots of the first `count` regions: one for each that a caller seeds. The
/// task has a box of its own.
pub open spec fn slots_for(regions: Seq<RegionDecl>, count: int) -> Seq<InputView>
    decreases count,
{
    if count <= 0 {
        Seq::empty()
    } else {
        let before = slots_for(regions, count - 1);
        match regions[count - 1].caller_key {
            Some(key) if key@ != "task"@ => before.push(empty_slot(regions[count - 1], key@)),
            _ => before,
        }
    }
}

/// What the Inputs pane needs to follow the selected agent.
#[derive(Clone, Debug, PartialEq, Eq)]
pub enum InputsStep {
    /// No agent is selected: there are no slots.
    Cleared,
    /// The slots are those of the selected agent.
    Kept,
    /// The agent changed: its blueprint's regions are wanted, a bundled one's by
    /// name, another's by path.
    Load { path: String, bundled: bool, name: String },
}

/// Which step the Inputs pane needs.
pub open spec fn follows(dash: Dashboard, step: InputsStep) -> bool {
    match dash.chosen_agent() {
        None => step is Cleared,
        Some(agent) => if dash.inputs.key@ == agent.path@ {
            step is Kept
        } else {
            step matches InputsStep::Load { path, bundled, name } && path@ == agent.path@
                && bundled == (agent.source@ == "bundled"@) && name@ == agent.name@
        },
    }
}

impl Dashboard {
    /// Let the slots follow the selected agent. They go where none is selected;
    /// where another one is, its regions are asked for, to be handed to
    /// `fill_new_run_inputs`.
    pub fn sync_new_run_inputs(&mut self) -> (step: InputsStep)
        ensures
            follows(*old(self), step),
            *final(self) == (Dashboard {
                inputs: Inputs {
                    slots: final(self).inputs.slots,
                    key: final(self).inputs.key,
                    ..old(self).inputs
                },
                ..*old(self)
            }),
            step is Cleared ==> final(self).inputs.slots@ == Seq::<NewRunInput>::empty()
                && final(self).inputs.key@ == Seq::<char>::empty(),
            !(step is Cleared) ==> *final(self) == *old(self),
    {
        let step = match self.new_run_selected_agent() {
            None => InputsStep::Cleared,
            Some(agent) => if same(self.inputs.key.as_str(), agent.path.as_str()) {
                InputsStep::Kept
            } else {
                InputsStep::Load {
                    path: copy_of(agent.path.as_str()),
                    bundled: same(agent.source.as_str(), "bundled"),
                    name: copy_of(agent.name.as_str()),
                }
            },
        };
        match &step {
            InputsStep::Cleared => {
                self.inputs.slots.clear();
                self.inputs.key.clear();
            },
            _ => {},
        }
        step
    }

    /// Fresh slots for the agent at `path`: one per region of its blueprint that a
    /// caller seeds, none where the blueprint could not be read.
    pub fn fill_new_run_inputs(&mut self, path: String, regions: &Option<Vec<RegionDecl>>)
        ensures
            *final(self) == (Dashboard {
                inputs: Inputs {
                    slots: final(self).inputs.slots,
                    key: path,
                    selected: 0,
                    ..old(self).inputs
                },
                ..*old(self)
            }),
            views(final(self).inputs.slots@) == match *regions {
                Some(all) => slots_for(all@, all@.len() as int),
                None => Seq::empty(),
            },
    {
        self.inputs.selected = 0;
        self.inputs.key = path;
        self.inputs.slots = match regions {
            Some(all) => make_slots(all),
            None => Vec::new(),
        };
    }

    /// Whether the screen has an Inputs pane to move the keys to.
    pub fn new_run_has_inputs(&self) -> (has: bool)
        ensures
            has == (self.inputs.slots@.len() > 0),
    {
        self.inputs.slots.len() > 0
    }
}

/// The slots of the regions.
fn make_slots(regions: &Vec<RegionDecl>) -> (slots: Vec<NewRunInput>)
    ensures
        views(slots@) == slots_for(regions@, regions@.len() as int),
{
    let mut slots: Vec<NewRunInput> = Vec::new();
    let mut i: usize = 0;
    while i < regions.len()
        invariant
            i <= regions@.len(),
            views(slots@) == slots_for(regions@, i as int),
        decreases regions.len() - i,
    {
        let region = &regions[i];
        match &region.caller_key {
            Some(key) => {
                if !same(key.as_str(), "task") {
                    let slot = NewRunInput {
                        key: copy_of(key.as_str()),
                        region: copy_of(region.name.as_str()),
                        accepts: copy_all(&region.accepts),
                        required: region.required,
                        max_tokens: region.max_tokens,
                        edit: LineEdit::new(String::new(), false),
                        files: Vec::new(),
                    };
                    assert(slot@ =~= empty_slot(*region, key@));
                    slots.push(slot);
                }
            },
            None => {},
        }
        i = i + 1;
    }
    slots
}

/// A stage's name and its first model, by provider and name, where it names one.
#[derive(Clone, Debug, PartialEq, Eq)]
pub struct StageModel {
    pub stage: String,
    pub model: Option<(String, String)>,
}

/// The window a model has where nothing says otherwise.
pub const DEFAULT_WINDOW: usize = 8192;

/// The first stage with this name, from `from` on.
pub open spec fn stage_from(stages: Seq<StageModel>, name: Seq<char>, from: int) -> Option<
    StageModel,
>
    decreases stages.len() - from,
{
    if from < 0 || from >= stages.len() {
        None
    } else if stages[from].stage@ == name {
        Some(stages[from])
    } else {
        stage_from(stages, name, from + 1)
    }
}

/// The window set for a model under this key, from `from` on. A key that is there
/// without a window sets none.
pub open spec fn window_set(settings: Seq<(String, Option<usize>)>, key: Seq<char>, from: int) -> Option<
    usize,
>
    decreases settings.len() - from,
{
    if from < 0 || from >= settings.len() {
        None
    } else if settings[from].0@ == key {
        settings[from].1
    } else {
        window_set(settings, key, from + 1)
    }
}

/// The window the catalog gives a model, from `from` on.
pub open spec fn window_known(
    catalog: Seq<(String, String, usize)>,
    provider: Seq<char>,
    model: Seq<char>,
    from: int,
) -> Option<usize>
    decreases catalog.len() - from,
{
    if from < 0 || from >= catalog.len() {
        None
    } else if catalog[from].0@ == provider && catalog[from].1@ == model {
        Some(catalog[from].2)
    } else {
        window_known(catalog, provider, model, from + 1)
    }
}

/// The context window of the entry stage: what is set for its model, under
/// `provider/model` or under the bare name, wins, then the catalog, then the
/// default.
pub open spec fn entry_window(
    stages: Seq<StageModel>,
    entry: Seq<char>,
    settings: Seq<(String, Option<usize>)>,
    catalog: Seq<(String, String, usize)>,
) -> usize {
    match stage_from(stages, entry, 0) {
        Some(stage) => match stage.model {
            Some((provider, model)) => match window_set(settings, provider@ + "/"@ + model@, 0) {
                Some(window) => window,
                None => match window_set(settings, model@, 0) {
                    Some(window) => window,
                    None => match window_known(catalog, provider@, model@, 0) {
                        Some(window) => window,
                        None => DEFAULT_WINDOW,
                    },
                },
            },
            None => DEFAULT_WINDOW,
        },
        None => DEFAULT_WINDOW,
    }
}

/// The window set for a model under this key.
fn find_setting(settings: &Vec<(String, Option<usize>)>, key: &str) -> (window: Option<usize>)
    ensures
        window == window_set(settings@, key@, 0),
{
    let mut i: usize = 0;
    while i < settings.len()
        invariant
            i <= settings@.len(),
            window_set(settings@, key@, 0) == window_set(settings@, key@, i as int),
        decreases settings.len() - i,
    {
        if same(settings[i].0.as_str(), key) {
            return settings[i].1;
        }
        i = i + 1;
    }
    None
}

/// The window the catalog gives a model.
fn find_window(catalog: &Vec<(String, String, usize)>, provider: &str, model: &str) -> (window: Option<
    usize,
>)
    ensures
        window == window_known(catalog@, provider@, model@, 0),
{
    let mut i: usize = 0;
    while i < catalog.len()
        invariant
            i <= catalog@.len(),
            window_known(catalog@, provider@, model@, 0) == window_known(
                catalog@,
                provider@,
                model@,
                i as int,
            ),
        decreases catalog.len() - i,
    {
        if same(catalog[i].0.as_str(), provider) && same(catalog[i].1.as_str(), model) {
            return Some(catalog[i].2);
        }
        i = i + 1;
    }
    None
}

/// The context window of the blueprint's entry stage. Region budgets given in
/// percent resolve against it.
pub fn entry_stage_window(
    stages: &Vec<StageModel>,
    entry: &str,
    settings: &Vec<(String, Option<usize>)>,
    catalog: &Vec<(String, String, usize)>,
) -> (window: usize)
    ensures
        window == entry_window(stages@, entry@, settings@, catalog@),
{
    let mut i: usize = 0;
    while i < stages.len()
        invariant
            i <= stages@.len(),
            stage_from(stages@, entry@, 0) == stage_from(stages@, entry@, i as int),
        decreases stages.len() - i,
    {
        if same(stages[i].stage.as_str(), entry) {
            return match &stages[i].model {
                Some((provider, model)) => {
                    let qualified = cat3(provider.as_str(), "/", model.as_str());
                    match find_setting(settings, qualified.as_str()) {
                        Some(window) => window,
                        None => match find_setting(settings, model.as_str()) {
                            Some(window) => window,
                            None => match find_window(catalog, provider.as_str(), model.as_str()) {
                                Some(window) => window,
                                None => DEFAULT_WINDOW,
                            },
                        },
                    }
                },
                None => DEFAULT_WINDOW,
            };
        }
        i = i + 1;
    }
    DEFAULT_WINDOW
}

// ── Keys ─────────────────────────────────────────────────────────────────────

/// What is left to do after a key on the Inputs pane.
#[derive(Clone, Copy, Debug, PartialEq, Eq, Structural)]
pub enum SlotAction {
    Done,
    /// The file picker opens on this slot.
    OpenPicker(usize),
    /// The key goes to this slot's text field, and what it did to
    /// `finish_slot_edit`.
    EditSlot(usize),
}

/// Whether a key opens the file picker on a slot: always with `^O` where the slot
/// takes files, and with Enter or Space where it takes nothing else.
pub open spec fn opens_picker(slot: InputView, key: KeyEvent) -> bool {
    slot.files_go() && ((key.control && (key.code == KeyCode::Char('o') || key.code
        == KeyCode::Char('O'))) || (!slot.text_goes() && (key.code == KeyCode::Enter || key.code
        == KeyCode::Char(' '))))
}

/// What a key on the Inputs pane does to the state, and what it leaves to do.
pub open spec fn after_inputs_key(dash: Dashboard, key: KeyEvent) -> (Dashboard, SlotAction) {
    let last = if dash.inputs.slots@.len() == 0 {
        0
    } else {
        dash.inputs.slots@.len() - 1
    };
    let selected = dash.inputs.selected;
    match key.code {
        KeyCode::Esc | KeyCode::BackTab => (focused_on(dash, NewRunPane::Agents), SlotAction::Done),
        KeyCode::Tab => (focused_on(dash, NewRunPane::Task), SlotAction::Done),
        KeyCode::Up => (
            on_slot(
                dash,
                if selected == 0 {
                    0
                } else {
                    (selected - 1) as usize
                },
            ),
            SlotAction::Done,
        ),
        KeyCode::Down => (
            on_slot(
                dash,
                if selected + 1 > last {
                    last as usize
                } else {
                    (selected + 1) as usize
                },
            ),
            SlotAction::Done,
        ),
        _ => if selected >= dash.inputs.slots@.len() {
            (dash, SlotAction::Done)
        } else {
            let slot = dash.inputs.slots@[selected as int]@;
            if opens_picker(slot, key) {
                (
                    Dashboard {
                        inputs: Inputs { picker: Some(selected), ..dash.inputs },
                        ..dash
                    },
                    SlotAction::OpenPicker(selected),
                )
            } else if slot.text_goes() {
                (dash, SlotAction::EditSlot(selected))
            } else {
                (dash, SlotAction::Done)
            }
        },
    }
}

/// The keys go to another pane.
pub open spec fn focused_on(dash: Dashboard, pane: NewRunPane) -> Dashboard {
    Dashboard { new_run: NewRun { focus: pane, ..dash.new_run }, ..dash }
}

/// The cursor goes to another slot.
pub open spec fn on_slot(dash: Dashboard, slot: usize) -> Dashboard {
    Dashboard { inputs: Inputs { selected: slot, ..dash.inputs }, ..dash }
}

impl Dashboard {
    /// A key while the Inputs pane has them: the arrows pick a slot, Tab goes to
    /// the task, Shift+Tab and Esc back to the agents; anything else is for the
    /// slot.
    pub fn handle_new_run_inputs_key(&mut self, key: KeyEvent) -> (action: SlotAction)
        ensures
            (*final(self), action) == after_inputs_key(*old(self), key),
    {
        let last: usize = self.inputs.slots.len().saturating_sub(1);
        match key.code {
            KeyCode::Esc | KeyCode::BackTab => {
                self.new_run.focus = NewRunPane::Agents;
                SlotAction::Done
            },
            KeyCode::Tab => {
                self.new_run.focus = NewRunPane::Task;
                SlotAction::Done
            },
            KeyCode::Up => {
                self.inputs.selected = self.inputs.selected.saturating_sub(1);
                SlotAction::Done
            },
            KeyCode::Down => {
                let next: usize = self.inputs.selected.saturating_add(1);
                self.inputs.selected = if next > last {
                    last
                } else {
                    next
                };
                SlotAction::Done
            },
            _ => {
                let index: usize = self.inputs.selected;
                if index >= self.inputs.slots.len() {
                    return SlotAction::Done;
                }
                let text_goes = self.inputs.slots[index].takes_text();
                let files_go = self.inputs.slots[index].takes_files();
                let chord = key.control && (key.code == KeyCode::Char('o') || key.code
                    == KeyCode::Char('O'));
                let press = key.code == KeyCode::Enter || key.code == KeyCode::Char(' ');
                if files_go && (chord || (!text_goes && press)) {
                    self.inputs.picker = Some(index);
                    return SlotAction::OpenPicker(index);
                }
                if text_goes {
                    SlotAction::EditSlot(index)
                } else {
                    SlotAction::Done
                }
            },
        }
    }

    /// A key went to a slot's text field: the field holds `value` now, and a
    /// commit moves on to the next slot, or to the task from the last.
    pub fn finish_slot_edit(&mut self, index: usize, value: String, outcome: EditOutcome)
        requires
            index < old(self).inputs.slots@.len(),
            old(self).inputs.selected == index,
        ensures
            *final(self) == (Dashboard {
                inputs: Inputs {
                    slots: final(self).inputs.slots,
                    selected: if outcome == EditOutcome::Commit && index
                        < old(self).inputs.slots@.len() - 1 {
                        (index + 1) as usize
                    } else {
                        index
                    },
                    ..old(self).inputs
                },
                new_run: NewRun {
                    focus: if outcome == EditOutcome::Commit && index
                        >= old(self).inputs.slots@.len() - 1 {
                        NewRunPane::Task
                    } else {
                        old(self).new_run.focus
                    },
                    ..old(self).new_run
                },
                ..*old(self)
            }),
            views(final(self).inputs.slots@) == views(old(self).inputs.slots@).update(
                index as int,
                InputView { value: value@, ..old(self).inputs.slots@[index as int]@ },
            ),
    {
        let last: usize = self.inputs.slots.len() - 1;
        write_slot(&mut self.inputs.slots, index, value);
        if outcome == EditOutcome::Commit {
            if index >= last {
                self.new_run.focus = NewRunPane::Task;
            } else {
                self.inputs.selected = index + 1;
            }
        }
    }

    /// A click on a slot: the pane takes the keys and the slot the cursor. One
    /// that is not there is ignored.
    pub fn click_new_run_input(&mut self, index: usize)
        ensures
            *final(self) == if index < old(self).inputs.slots@.len() {
                on_slot(focused_on(*old(self), NewRunPane::Inputs), index)
            } else {
                *old(self)
            },
    {
        if index < self.inputs.slots.len() {
            self.new_run.focus = NewRunPane::Inputs;
            self.inputs.selected = index;
        }
    }
}

/// Put a text into a slot's field.
fn write_slot(slots: &mut Vec<NewRunInput>, index: usize, value: String)
    requires
        index < old(slots)@.len(),
    ensures
        final(slots)@.len() == old(slots)@.len(),
        views(final(slots)@) == views(old(slots)@).update(
            index as int,
            InputView { value: value@, ..old(slots)@[index as int]@ },
        ),
{
    let slot = &mut slots[index];
    slot.edit.value = value;
    assert(views(slots@) =~= views(old(slots)@).update(
        index as int,
        InputView { value: value@, ..old(slots)@[index as int]@ },
    ));
}

// ── What a run starts with ───────────────────────────────────────────────────

/// A chosen file as it was read: what goes with the run and about how many tokens
/// it takes, or why it could not be read.
#[derive(Debug, PartialEq, Eq)]
pub struct FileReading {
    pub part: Result<InboundPart, String>,
    pub tokens: usize,
}

/// A slot's text as it was read: the text that seeds the region and about how
/// many tokens it takes, the files it names, and the `@path` tokens that name
/// none.
#[derive(Clone, Debug, PartialEq, Eq)]
pub struct RegionReading {
    pub text: String,
    pub tokens: usize,
    pub parts: Vec<InboundPart>,
    pub unresolved: Vec<String>,
}

/// Everything that was read for one slot.
#[derive(Debug, PartialEq, Eq)]
pub struct SlotReading {
    /// The chosen files, in order.
    pub files: Vec<FileReading>,
    /// The typed text, where there is any.
    pub typed: Option<Result<RegionReading, String>>,
}

/// What the slots resolve to when the run starts.
#[derive(Clone, Debug, PartialEq, Eq)]
pub struct ResolvedInputs {
    /// Text seeds by caller key, what `--<key> text` sends; no key twice.
    pub regions: Vec<(String, String)>,
    /// Files, each already naming its region.
    pub parts: Vec<InboundPart>,
    /// `@path` tokens that looked like files but named none.
    pub unresolved: Vec<String>,
}

/// What the slots resolve to when the run starts.
#[verifier::ext_equal]
pub struct ResolvedView {
    pub regions: Seq<(Seq<char>, Seq<char>)>,
    pub parts: Seq<InboundView>,
    pub unresolved: Seq<Seq<char>>,
}

impl View for ResolvedInputs {
    type V = ResolvedView;

    open spec fn view(&self) -> ResolvedView {
        ResolvedView {
            regions: views(self.regions@),
            parts: views(self.parts@),
            unresolved: views(self.unresolved@),
        }
    }
}

/// What a slot's text is read as, where there is any: a bare path that names a
/// file is that file, as it is with an `@` in front.
pub open spec fn slot_text(value: Seq<char>, names_file: bool) -> Option<Seq<char>> {
    let text = trimmed(value);
    if text.len() == 0 {
        None
    } else if !begins(text, "@"@) && names_file {
        Some("@"@ + text)
    } else {
        Some(text)
    }
}

impl NewRunInput {
    /// What the slot's text is read as, where there is any: `names_file` is
    /// whether the trimmed text names a file in the working directory.
    pub fn text_to_read(&self, names_file: bool) -> (text: Option<String>)
        ensures
            match text {
                Some(wanted) => slot_text(self@.value, names_file) == Some(wanted@),
                None => slot_text(self@.value, names_file) is None,
            },
    {
        let text = trim(self.edit.value.as_str());
        if text.as_str().is_empty() {
            None
        } else if !starts_with(text.as_str(), "@") && names_file {
            Some(cat2("@", text.as_str()))
        } else {
            Some(text)
        }
    }
}

/// A file for a region.
pub open spec fn for_region(part: InboundView, region: Seq<char>) -> InboundView {
    InboundView { region: Some(region), ..part }
}

/// Seeds with one more under its key, in the place of an earlier one.
pub open spec fn seeded(
    regions: Seq<(Seq<char>, Seq<char>)>,
    key: Seq<char>,
    text: Seq<char>,
    from: int,
) -> Seq<(Seq<char>, Seq<char>)>
    decreases regions.len() - from,
{
    if from < 0 || from >= regions.len() {
        regions.push((key, text))
    } else if regions[from].0 == key {
        regions.update(from, (key, text))
    } else {
        seeded(regions, key, text, from + 1)
    }
}

/// The tokens of the first `count` files of a slot.
pub open spec fn file_tokens(files: Seq<FileReading>, count: int) -> nat
    decreases count,
{
    if count <= 0 {
        0
    } else {
        file_tokens(files, count - 1) + files[count - 1].tokens as nat
    }
}

/// The tokens of everything that a slot puts in its region.
pub open spec fn slot_tokens(slot: InputView, reading: SlotReading) -> nat {
    file_tokens(reading.files@, reading.files@.len() as int) + match reading.typed {
        Some(Ok(read)) if trimmed(slot.value).len() > 0 && read.text@.len() > 0 => read.tokens as nat,
        _ => 0,
    }
}

/// The first of the files that could not be read, from `from` on.
pub open spec fn file_failure(files: Seq<FileReading>, from: int) -> Option<Seq<char>>
    decreases files.len() - from,
{
    if from < 0 || from >= files.len() {
        None
    } else {
        match files[from].part {
            Err(reason) => Some(reason@),
            Ok(_) => file_failure(files, from + 1),
        }
    }
}

/// Why a slot stops the start, if it does: a file or the text that could not be
/// read, or more than its region holds.
pub open spec fn slot_failure(slot: InputView, reading: SlotReading) -> Option<Seq<char>> {
    match file_failure(reading.files@, 0) {
        Some(reason) => Some(slot.key + ": "@ + reason),
        None => match reading.typed {
            Some(Err(reason)) if trimmed(slot.value).len() > 0 => Some(slot.key + ": "@ + reason@),
            _ => if slot.max_tokens > 0 && slot_tokens(slot, reading) > slot.max_tokens {
                Some(
                    slot.key + ": what you chose needs about "@ + decimal(
                        slot_tokens(slot, reading),
                    ) + " tokens, but region '"@ + slot.region + "' holds "@ + decimal(
                        slot.max_tokens as nat,
                    ) + ". Remove a file or choose a smaller one."@,
                )
            } else {
                None
            },
        },
    }
}

/// The parts of the first `count` files of a slot.
pub open spec fn file_parts(files: Seq<FileReading>, region: Seq<char>, count: int) -> Seq<
    InboundView,
>
    decreases count,
{
    if count <= 0 {
        Seq::empty()
    } else {
        let before = file_parts(files, region, count - 1);
        match files[count - 1].part {
            Ok(part) => before.push(for_region(part@, region)),
            Err(_) => before,
        }
    }
}

/// What one more slot adds to what the run starts with.
pub open spec fn slot_added(so_far: ResolvedView, slot: InputView, reading: SlotReading) -> ResolvedView {
    let parts = so_far.parts + file_parts(
        reading.files@,
        slot.region,
        reading.files@.len() as int,
    );
    match reading.typed {
        Some(Ok(read)) if trimmed(slot.value).len() > 0 => ResolvedView {
            regions: if read.text@.len() > 0 {
                seeded(so_far.regions, slot.key, read.text@, 0)
            } else {
                so_far.regions
            },
            parts: parts + views(read.parts@),
            unresolved: so_far.unresolved + views(read.unresolved@),
        },
        _ => ResolvedView { parts, ..so_far },
    }
}

/// What the first `count` slots come to, or why one of them stops the start.
pub open spec fn resolved(slots: Seq<InputView>, readings: Seq<SlotReading>, count: int) -> Result<
    ResolvedView,
    Seq<char>,
>
    decreases count,
{
    if count <= 0 {
        Ok(
            ResolvedView {
                regions: Seq::empty(),
                parts: Seq::empty(),
                unresolved: Seq::empty(),
            },
        )
    } else {
        match resolved(slots, readings, count - 1) {
            Err(reason) => Err(reason),
            Ok(so_far) => match slot_failure(slots[count - 1], readings[count - 1]) {
                Some(reason) => Err(reason),
                None => Ok(slot_added(so_far, slots[count - 1], readings[count - 1])),
            },
        }
    }
}

/// Whether no key stands twice among the seeds.
pub open spec fn keys_are_distinct(regions: Seq<(Seq<char>, Seq<char>)>) -> bool {
    forall|i: int, j: int|
        0 <= i < j < regions.len() ==> (#[trigger] regions[i]).0 != (#[trigger] regions[j]).0
}

/// A seed under its key leaves no key twice.
proof fn seeding_keeps_keys_distinct(
    regions: Seq<(Seq<char>, Seq<char>)>,
    key: Seq<char>,
    text: Seq<char>,
    from: int,
)
    requires
        0 <= from <= regions.len(),
        keys_are_distinct(regions),
        forall|i: int| 0 <= i < from ==> (#[trigger] regions[i]).0 != key,
    ensures
        keys_are_distinct(seeded(regions, key, text, from)),
    decreases regions.len() - from,
{
    if from < regions.len() {
        if regions[from].0 != key {
            seeding_keeps_keys_distinct(regions, key, text, from + 1);
        } else {
            let after = regions.update(from, (key, text));
            assert forall|i: int, j: int| 0 <= i < j < after.len() implies (#[trigger] after[i]).0
                != (#[trigger] after[j]).0 by {
                assert(after[i].0 == regions[i].0);
                assert(after[j].0 == regions[j].0);
            }
        }
    }
}

/// However many slots share a key, what they come to has each key once.
pub proof fn every_key_is_sent_once(slots: Seq<InputView>, readings: Seq<SlotReading>, count: int)
    ensures
        match resolved(slots, readings, count) {
            Ok(inputs) => keys_are_distinct(inputs.regions),
            Err(_) => true,
        },
    decreases count,
{
    if count > 0 {
        every_key_is_sent_once(slots, readings, count - 1);
        match resolved(slots, readings, count - 1) {
            Ok(so_far) => match readings[count - 1].typed {
                Some(Ok(read)) => {
                    seeding_keeps_keys_distinct(
                        so_far.regions,
                        slots[count - 1].key,
                        read.text@,
                        0,
                    );
                },
                _ => {},
            },
            Err(_) => {},
        }
    }
}

/// What was or was not resolved, through its view.
pub open spec fn outcome_view(outcome: Result<ResolvedInputs, String>) -> Result<
    ResolvedView,
    Seq<char>,
> {
    match outcome {
        Ok(inputs) => Ok(inputs@),
        Err(reason) => Err(reason@),
    }
}

/// A copy of a file.
fn copy_part(part: &InboundPart) -> (copy: InboundPart)
    ensures
        copy@ == part@,
{
    InboundPart {
        name: copy_of(part.name.as_str()),
        region: crate::text::copy_opt(&part.region),
        bytes: copy_bytes(&part.bytes),
    }
}

/// A copy of bytes.
fn copy_bytes(bytes: &Vec<u8>) -> (copy: Vec<u8>)
    ensures
        copy@ == bytes@,
{
    let mut copy: Vec<u8> = Vec::new();
    let mut i: usize = 0;
    while i < bytes.len()
        invariant
            i <= bytes@.len(),
            copy@ == bytes@.take(i as int),
        decreases bytes.len() - i,
    {
        copy.push(bytes[i]);
        assert(bytes@.take(i + 1) =~= bytes@.take(i as int).push(bytes@[i as int]));
        i = i + 1;
    }
    assert(bytes@.take(i as int) =~= bytes@);
    copy
}

/// Put a seed under its key, in the place of an earlier one.
fn put_seed(regions: &mut Vec<(String, String)>, key: &str, text: &str)
    ensures
        views(final(regions)@) == seeded(views(old(regions)@), key@, text@, 0),
{
    let mut i: usize = 0;
    while i < regions.len()
        invariant
            i <= regions@.len(),
            regions@ == old(regions)@,
            seeded(views(regions@), key@, text@, 0) == seeded(
                views(regions@),
                key@,
                text@,
                i as int,
            ),
        decreases regions.len() - i,
    {
        assert(views(regions@)[i as int] == regions@[i as int]@);
        if same(regions[i].0.as_str(), key) {
            regions.set(i, (copy_of(key), copy_of(text)));
            assert(views(regions@) =~= views(old(regions)@).update(i as int, (key@, text@)));
            return;
        }
        i = i + 1;
    }
    regions.push((copy_of(key), copy_of(text)));
}

/// Add one slot to what the run starts with, or say why it stops the start.
fn add_slot(out: &mut ResolvedInputs, slot: &NewRunInput, reading: &SlotReading) -> (failure: Option<
    String,
>)
    requires
        slot_tokens(slot@, *reading) <= usize::MAX,
        trimmed(slot@.value).len() > 0 ==> reading.typed is Some,
    ensures
        match failure {
            Some(reason) => slot_failure(slot@, *reading) == Some(reason@),
            None => slot_failure(slot@, *reading) is None && final(out)@ == slot_added(
                old(out)@,
                slot@,
                *reading,
            ),
        },
{
    let ghost before = out@;
    let ghost files = reading.files@;
    let mut tokens: usize = 0;
    let mut i: usize = 0;
    while i < reading.files.len()
        invariant
            i <= reading.files@.len(),
            files == reading.files@,
            before == old(out)@,
            slot_tokens(slot@, *reading) <= usize::MAX,
            tokens == file_tokens(files, i as int),
            file_failure(files, 0) == file_failure(files, i as int),
            out@.regions == before.regions,
            out@.unresolved == before.unresolved,
            out@.parts == before.parts + file_parts(files, slot@.region, i as int),
        decreases reading.files.len() - i,
    {
        match &reading.files[i].part {
            Ok(part) => {
                let mut copy = copy_part(part);
                copy.region = Some(copy_of(slot.region.as_str()));
                assert(copy@ =~= for_region(part@, slot@.region));
                let ghost parts = out@.parts;
                out.parts.push(copy);
                assert(out@.parts =~= parts.push(copy@));
            },
            Err(reason) => {
                return Some(cat3(slot.key.as_str(), ": ", reason.as_str()));
            },
        }
        proof {
            file_tokens_grow(files, i as int + 1);
        }
        tokens = tokens + reading.files[i].tokens;
        i = i + 1;
    }
    let blank = trim(slot.edit.value.as_str()).as_str().is_empty();
    if !blank {
        match &reading.typed {
            Some(Ok(read)) => {
                if !read.text.as_str().is_empty() {
                    tokens = tokens + read.tokens;
                    put_seed(&mut out.regions, slot.key.as_str(), read.text.as_str());
                }
                let ghost parts = out@.parts;
                let ghost unresolved = out@.unresolved;
                let mut k: usize = 0;
                while k < read.parts.len()
                    invariant
                        k <= read.parts@.len(),
                        views(out.parts@) == parts + views(read.parts@).take(k as int),
                        views(out.unresolved@) == unresolved,
                        views(out.regions@) == if read.text@.len() > 0 {
                            seeded(before.regions, slot@.key, read.text@, 0)
                        } else {
                            before.regions
                        },
                    decreases read.parts.len() - k,
                {
                    out.parts.push(copy_part(&read.parts[k]));
                    assert(views(read.parts@).take(k + 1) =~= views(read.parts@).take(
                        k as int,
                    ).push(views(read.parts@)[k as int]));
                    k = k + 1;
                }
                assert(views(read.parts@).take(k as int) =~= views(read.parts@));
                let mut more = copy_all(&read.unresolved);
                out.unresolved.append(&mut more);
            },
            Some(Err(reason)) => {
                return Some(cat3(slot.key.as_str(), ": ", reason.as_str()));
            },
            None => {},
        }
    }
    assert(tokens == slot_tokens(slot@, *reading));
    if slot.max_tokens > 0 && tokens > slot.max_tokens {
        let needed = count_text(tokens);
        let holds = count_text(slot.max_tokens);
        let mut reason = cat5(
            slot.key.as_str(),
            ": what you chose needs about ",
            needed.as_str(),
            " tokens, but region '",
            slot.region.as_str(),
        );
        reason.append("' holds ");
        reason.append(holds.as_str());
        reason.append(". Remove a file or choose a smaller one.");
        return Some(reason);
    }
    assert(out@ =~= slot_added(before, slot@, *reading));
    None
}

/// The tokens of a slot's files add up to no less with more of them.
proof fn file_tokens_grow(files: Seq<FileReading>, count: int)
    requires
        0 <= count <= files.len(),
    ensures
        file_tokens(files, count) <= file_tokens(files, files.len() as int),
    decreases files.len() - count,
{
    if count < files.len() {
        file_tokens_grow(files, count + 1);
    }
}

impl Dashboard {
    /// Resolve every filled slot into what the spawn sends, from what was read for
    /// each. One that could not be read, or that does not fit its region, is an
    /// error naming it.
    pub fn new_run_input_values(&self, readings: &Vec<SlotReading>) -> (outcome: Result<
        ResolvedInputs,
        String,
    >)
        requires
            readings@.len() == self.inputs.slots@.len(),
            forall|i: int|
                0 <= i < readings@.len() ==> slot_tokens(
                    self.inputs.slots@[i]@,
                    #[trigger] readings@[i],
                ) <= usize::MAX,
            forall|i: int|
                0 <= i < readings@.len() && trimmed(self.inputs.slots@[i]@.value).len() > 0 ==> (
                #[trigger] readings@[i]).typed is Some,
        ensures
            outcome_view(outcome) == resolved(
                views(self.inputs.slots@),
                readings@,
                readings@.len() as int,
            ),
    {
        let ghost slots = views(self.inputs.slots@);
        let mut out = ResolvedInputs {
            regions: Vec::new(),
            parts: Vec::new(),
            unresolved: Vec::new(),
        };
        assert(out@ =~= ResolvedView {
            regions: Seq::empty(),
            parts: Seq::empty(),
            unresolved: Seq::empty(),
        });
        let mut i: usize = 0;
        while i < self.inputs.slots.len()
            invariant
                i <= self.inputs.slots@.len(),
                slots == views(self.inputs.slots@),
                readings@.len() == self.inputs.slots@.len(),
                forall|j: int|
                    0 <= j < readings@.len() ==> slot_tokens(
                        self.inputs.slots@[j]@,
                        #[trigger] readings@[j],
                    ) <= usize::MAX,
                forall|j: int|
                    0 <= j < readings@.len() && trimmed(self.inputs.slots@[j]@.value).len() > 0
                        ==> (#[trigger] readings@[j]).typed is Some,
                resolved(slots, readings@, i as int) == Ok::<ResolvedView, Seq<char>>(out@),
            decreases self.inputs.slots.len() - i,
        {
            assert(slots[i as int] == self.inputs.slots@[i as int]@);
            let failure = add_slot(&mut out, &self.inputs.slots[i], &readings[i]);
            if let Some(reason) = failure {
                proof {
                    resolving_stops(slots, readings@, i as int + 1, readings@.len() as int);
                }
                return Err(reason);
            }
            i = i + 1;
        }
        Ok(out)
    }
}

/// A slot that stops the start stops it whatever follows.
pub proof fn resolving_stops(
    slots: Seq<InputView>,
    readings: Seq<SlotReading>,
    count: int,
    longer: int,
)
    requires
        0 <= count <= longer,
        resolved(slots, readings, count) is Err,
    ensures
        resolved(slots, readings, longer) == resolved(slots, readings, count),
    decreases longer - count,
{
    if count < longer {
        resolving_stops(slots, readings, count + 1, longer);
    }
}

// ── The pane ─────────────────────────────────────────────────────────────────

/// The rows the pane takes: a border and one row per slot. Slots are counted in
/// sixteen bits.
pub open spec fn pane_height(slots: nat) -> u16 {
    if slots == 0 {
        0
    } else {
        plus((slots % 65_536) as u16, 2)
    }
}

/// How long the longest label of the first `count` slots is.
pub open spec fn longest_label(slots: Seq<InputView>, count: int) -> nat
    decreases count,
{
    if count <= 0 {
        0
    } else {
        let before = longest_label(slots, count - 1);
        let here = slots[count - 1].key.len() + slots[count - 1].aside().len();
        if here > before {
            here
        } else {
            before
        }
    }
}

/// The columns of the labels: the longest, as far as the pane leaves room for a
/// value, and a gap.
pub open spec fn label_columns(slots: Seq<InputView>, width: u16) -> nat {
    let longest = longest_label(slots, slots.len() as int);
    let room = minus(width, 12) as nat;
    2 + if longest < room {
        longest
    } else {
        room
    }
}

/// One slot's row.
pub open spec fn slot_line(
    slot: InputView,
    on: bool,
    label_w: nat,
    field: Seq<SpanView>,
    names: Seq<Seq<char>>,
) -> Seq<SpanView> {
    seq![
        sp(
            if on {
                "› "@
            } else {
                "  "@
            },
            ink(Color::Accent),
        ),
        sp(
            padded_right(fitted(slot.key + slot.aside(), (label_w - 2) as nat), label_w),
            if on {
                bold_ink(Color::Active)
            } else {
                ink(Color::Muted)
            },
        ),
    ] + slot.value_shown(on, field, names)
}

/// Whether this is one slot's row, by the names that its files have.
pub open spec fn is_slot_line(
    line: Seq<SpanView>,
    slot: InputView,
    on: bool,
    label_w: nat,
    field: Seq<SpanView>,
) -> bool {
    exists|names: Seq<Seq<char>>| #[trigger]
        are_names(names, slot.files) && line == slot_line(slot, on, label_w, field, names)
}

/// Where a slot's row can be clicked.
pub open spec fn slot_row(inner: Rect, i: int) -> Rect {
    Rect { x: inner.x, y: plus(inner.y, (i % 65_536) as u16), width: inner.width, height: 1 }
}

/// The targets of the first `count` slots' rows.
pub open spec fn slot_targets(inner: Rect, count: int) -> Seq<(Rect, ClickTarget)> {
    Seq::new(count as nat, |i: int| (slot_row(inner, i), ClickTarget::NewRunInput(i as usize)))
}

/// A pane of the height that its slots ask for holds every slot's row.
pub proof fn every_slot_has_its_row(area: Rect, slots: nat, at: int)
    requires
        0 <= at < slots <= 65_533,
        area.height == pane_height(slots),
        area.y + area.height <= u16::MAX,
    ensures
        ({
            let inner = area.framed();
            let row = slot_targets(inner, slots as int)[at].0;
            &&& row.x == inner.x && row.width == inner.width
            &&& inner.y <= row.y && row.y + row.height <= inner.y + inner.height
        }),
{
}

/// The Inputs pane: its title, the colour of its border and title, and a line per
/// slot.
#[derive(Debug)]
pub struct InputsPane {
    pub inner: Rect,
    pub title: String,
    pub color: Color,
    pub lines: Vec<Line>,
}

/// One slot's row; `names` are the names of its files.
fn show_slot(
    slot: &NewRunInput,
    on: bool,
    label_w: usize,
    field: &Line,
    names: &Vec<String>,
) -> (line: Line)
    requires
        label_w >= 2,
    ensures
        line@ == slot_line(slot@, on, label_w as nat, field@, views(names@)),
{
    let note = slot.note();
    let whole = cat2(slot.key.as_str(), note.as_str());
    let label = fit(whole.as_str(), label_w - 2);
    let padded = pad_right(label.as_str(), label_w);
    let marker: &str = if on {
        "› "
    } else {
        "  "
    };
    let style = if on {
        Style::bold_ink(Color::Active)
    } else {
        Style::ink(Color::Muted)
    };
    let mut spans: Vec<Span> = Vec::new();
    spans.push(span(marker, Style::ink(Color::Accent)));
    spans.push(styled(padded, style));
    let mut value = slot.value_spans(on, field, names);
    spans.append(&mut value);
    let line = Line { spans };
    assert(line@ =~= slot_line(slot@, on, label_w as nat, field@, views(names@)));
    line
}

impl Dashboard {
    /// The rows the pane takes when it is drawn.
    pub fn new_run_inputs_height(&self) -> (height: u16)
        ensures
            height == pane_height(self.inputs.slots@.len()),
    {
        if self.inputs.slots.len() == 0 {
            return 0;
        }
        let rows: u16 = (self.inputs.slots.len() % 65_536) as u16;
        rows.saturating_add(2)
    }

    /// The columns of the labels on a pane `width` wide.
    fn new_run_label_width(&self, width: u16) -> (columns: usize)
        ensures
            columns == label_columns(views(self.inputs.slots@), width),
    {
        let mut longest: usize = 0;
        let mut i: usize = 0;
        while i < self.inputs.slots.len()
            invariant
                i <= self.inputs.slots@.len(),
                longest == if longest_label(views(self.inputs.slots@), i as int) > usize::MAX {
                    usize::MAX as nat
                } else {
                    longest_label(views(self.inputs.slots@), i as int)
                },
            decreases self.inputs.slots.len() - i,
        {
            let slot = &self.inputs.slots[i];
            assert(views(self.inputs.slots@)[i as int] == slot@);
            let note = slot.note();
            let here: usize = length_of(slot.key.as_str()).saturating_add(length_of(note.as_str()));
            if here > longest {
                longest = here;
            }
            i = i + 1;
        }
        let room: usize = width.saturating_sub(12) as usize;
        if longest < room {
            longest + 2
        } else {
            room + 2
        }
    }

    /// The slots in `area`, each row a target of the mouse. `fields` are the
    /// slots' text fields as they show themselves.
    pub fn draw_new_run_inputs(&mut self, area: Rect, fields: &Vec<Line>) -> (pane: InputsPane)
        requires
            fields@.len() == old(self).inputs.slots@.len(),
        ensures
            *final(self) == (Dashboard {
                mouse: Mouse { click_targets: final(self).mouse.click_targets, ..old(self).mouse },
                ..*old(self)
            }),
            final(self).mouse.click_targets@ == old(self).mouse.click_targets@ + slot_targets(
                area.framed(),
                old(self).inputs.slots@.len() as int,
            ),
            pane.inner == area.framed(),
            pane.title@ == " Inputs for "@ + old(self).chosen_name() + " "@,
            pane.color == focus_ink(old(self).new_run.focus == NewRunPane::Inputs),
            pane.lines@.len() == old(self).inputs.slots@.len(),
            forall|i: int|
                0 <= i < pane.lines@.len() ==> is_slot_line(
                    (#[trigger] pane.lines@[i])@,
                    old(self).inputs.slots@[i]@,
                    old(self).new_run.focus == NewRunPane::Inputs && i == old(self).inputs.selected,
                    label_columns(views(old(self).inputs.slots@), area.framed().width),
                    fields@[i]@,
                ),
    {
        let focused = self.new_run.focus == NewRunPane::Inputs;
        let title = match self.new_run_selected_agent() {
            Some(agent) => cat3(" Inputs for ", agent.name.as_str(), " "),
            None => cat3(" Inputs for ", "", " "),
        };
        proof {
            reveal_strlit("");
        }
        let inner = area.inner();
        let label_w: usize = self.new_run_label_width(inner.width);
        let mut lines: Vec<Line> = Vec::new();
        let mut i: usize = 0;
        assert(slot_targets(inner, 0) =~= Seq::empty());
        while i < self.inputs.slots.len()
            invariant
                i <= self.inputs.slots@.len(),
                fields@.len() == self.inputs.slots@.len(),
                *self == (Dashboard {
                    mouse: Mouse { click_targets: self.mouse.click_targets, ..old(self).mouse },
                    ..*old(self)
                }),
                self.mouse.click_targets@ == old(self).mouse.click_targets@ + slot_targets(
                    inner,
                    i as int,
                ),
                focused == (self.new_run.focus == NewRunPane::Inputs),
                label_w >= 2,
                lines@.len() == i,
                forall|j: int|
                    0 <= j < i ==> is_slot_line(
                        (#[trigger] lines@[j])@,
                        self.inputs.slots@[j]@,
                        focused && j == self.inputs.selected,
                        label_w as nat,
                        fields@[j]@,
                    ),
            decreases self.inputs.slots.len() - i,
        {
            let on = focused && i == self.inputs.selected;
            let names = self.inputs.slots[i].file_names();
            let line = show_slot(&self.inputs.slots[i], on, label_w, &fields[i], &names);
            lines.push(line);
            let down: u16 = (i % 65_536) as u16;
            let row = Rect {
                x: inner.x,
                y: inner.y.saturating_add(down),
                width: inner.width,
                height: 1,
            };
            self.register_click(row, ClickTarget::NewRunInput(i));
            assert(slot_targets(inner, i + 1) =~= slot_targets(inner, i as int).push(
                (slot_row(inner, i as int), ClickTarget::NewRunInput(i)),
            ));
            i = i + 1;
        }
        InputsPane { inner, title, color: focus_colour(focused), lines }
    }
}

} // verus!
