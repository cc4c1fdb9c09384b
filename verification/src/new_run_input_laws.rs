//! What the slots of the Inputs pane come to: what starts with the run, what stops it, and
//! what the pane's keys do.

use crate::new_run_inputs::{
    after_inputs_key, entry_window, file_failure, file_parts, file_tokens, follows, in_short,
    label_columns, longest_label, opens_picker, pane_height, resolved, seeded, slot_failure,
    slot_line, slot_targets, slot_text, slot_tokens, slots_for, stage_from, window_known,
    window_set, FileReading, InputView, InputsStep, RegionDecl, SlotAction, SlotReading, StageModel,
    DEFAULT_WINDOW,
};
use crate::outside::white_space;
use crate::state::Dashboard;
use crate::style::{Rect, SpanView};
use crate::text::{a_fitted_text_fills_its_room, a_trimmed_text_loses_only_blanks, trimmed};
use crate::types::{ClickTarget, InboundView, KeyCode, KeyEvent, NewRunPane};
use crate::views::{group_views, views};
use vstd::prelude::*;

verus! {

broadcast use group_views;

// ── What a slot takes of its region's room ───────────────────────────────────

/// The tokens of some files, added up.
pub open spec fn added_up(files: Seq<FileReading>) -> int {
    files.fold_left(0int, |sum: int, file: FileReading| sum + file.tokens)
}

/// The tokens of the text that a slot seeds: none where there is no text.
pub open spec fn seed_tokens(slot: InputView, reading: SlotReading) -> int {
    match seeds(slot, reading) {
        Some(_) => match reading.typed {
            Some(Ok(read)) => read.tokens as int,
            _ => 0,
        },
        None => 0,
    }
}

/// Whether there is anything but blanks in a text.
pub open spec fn says_something(text: Seq<char>) -> bool {
    exists|i: int| 0 <= i < text.len() && !white_space(#[trigger] text[i])
}

/// The text that a slot seeds its region with, where it does.
pub open spec fn seeds(slot: InputView, reading: SlotReading) -> Option<Seq<char>> {
    match reading.typed {
        Some(Ok(read)) if says_something(slot.value) && read.text@.len() > 0 => Some(read.text@),
        _ => None,
    }
}

/// A text is more than blanks where something is left of it when it is trimmed.
pub proof fn what_says_something_is_left(text: Seq<char>)
    ensures
        says_something(text) <==> trimmed(text).len() > 0,
{
    let at = a_trimmed_text_loses_only_blanks(text);
    let kept = trimmed(text);
    if kept.len() > 0 {
        assert(text[at] == kept[0]);
    }
}

/// Files count together: with one more file, a slot counts that file's tokens more, so that
/// two files of some tokens each count both.
pub proof fn files_add_up(files: Seq<FileReading>, one: FileReading)
    ensures
        file_tokens(files, files.len() as int) == added_up(files),
        file_tokens(files.push(one), files.len() as int + 1) == file_tokens(
            files,
            files.len() as int,
        ) + one.tokens,
        added_up(files.push(one)) == added_up(files) + one.tokens,
        added_up(Seq::<FileReading>::empty()) == 0,
{
    tokens_are_added(files, files.len() as int);
    tokens_are_added(files.push(one), files.len() as int + 1);
    assert(files.take(files.len() as int) =~= files);
    assert(files.push(one).take(files.len() as int + 1) =~= files.push(one));
    assert(files.push(one).drop_last() =~= files);
    reveal_with_fuel(Seq::fold_left, 2);
}

/// Counting the first files is adding them up.
proof fn tokens_are_added(files: Seq<FileReading>, count: int)
    requires
        0 <= count <= files.len(),
    ensures
        file_tokens(files, count) == added_up(files.take(count)),
    decreases count,
{
    reveal_with_fuel(Seq::fold_left, 2);
    if count > 0 {
        tokens_are_added(files, count - 1);
        assert(files.take(count).drop_last() =~= files.take(count - 1));
        assert(files.take(count).last() == files[count - 1]);
    }
}

/// A slot counts its files added up and the text that it seeds.
proof fn a_slot_counts_all(slot: InputView, reading: SlotReading)
    ensures
        slot_tokens(slot, reading) == added_up(reading.files@) + seed_tokens(slot, reading),
{
    files_add_up(reading.files@, arbitrary());
    what_says_something_is_left(slot.value);
}

/// Whether a file or the text of a slot could not be read.
pub open spec fn is_unread(slot: InputView, reading: SlotReading) -> bool {
    ||| exists|i: int| 0 <= i < reading.files@.len() && (#[trigger] reading.files@[i]).part is Err
    ||| says_something(slot.value) && reading.typed is Some && reading.typed->0 is Err
}

/// Whether a slot puts more in its region than that holds.
pub open spec fn is_too_much(slot: InputView, reading: SlotReading) -> bool {
    slot.max_tokens > 0 && added_up(reading.files@) + seed_tokens(slot, reading) > slot.max_tokens
}

/// A file that could not be read is the first of that kind.
proof fn the_first_unread_file(files: Seq<FileReading>, from: int)
    requires
        0 <= from <= files.len(),
    ensures
        match file_failure(files, from) {
            Some(reason) => exists|i: int|
                from <= i < files.len() && (#[trigger] files[i]).part is Err
                    && files[i].part->Err_0@ == reason && forall|j: int|
                    from <= j < i ==> (#[trigger] files[j]).part is Ok,
            None => forall|j: int| from <= j < files.len() ==> (#[trigger] files[j]).part is Ok,
        },
    decreases files.len() - from,
{
    if from < files.len() {
        match files[from].part {
            Err(reason) => {
                assert(files[from].part->Err_0@ == reason@);
            },
            Ok(_) => {
                the_first_unread_file(files, from + 1);
                match file_failure(files, from + 1) {
                    Some(reason) => {
                        let i = choose|i: int|
                            from + 1 <= i < files.len() && (#[trigger] files[i]).part is Err
                                && files[i].part->Err_0@ == reason && forall|j: int|
                                from + 1 <= j < i ==> (#[trigger] files[j]).part is Ok;
                        assert(files[i].part is Err);
                    },
                    None => {},
                }
            },
        }
    }
}

/// A slot stops the start exactly where something of it could not be read or it is more than
/// its region holds, and what is then said begins with the slot's key.
pub proof fn what_stops_a_start(slot: InputView, reading: SlotReading)
    ensures
        slot_failure(slot, reading) is Some <==> is_unread(slot, reading) || is_too_much(
            slot,
            reading,
        ),
        slot_failure(slot, reading) is Some ==> (slot.key + ": "@).is_prefix_of(
            slot_failure(slot, reading)->0,
        ),
{
    a_slot_counts_all(slot, reading);
    the_first_unread_file(reading.files@, 0);
    what_says_something_is_left(slot.value);
    match slot_failure(slot, reading) {
        Some(reason) => {
            let head = slot.key + ": "@;
            reveal_strlit(": ");
            reveal_strlit(": what you chose needs about ");
            assert(reason.take(head.len() as int) =~= head);
        },
        None => {},
    }
}

/// When the slots resolve, each one fits: whatever region has a budget, the tokens of all the
/// files chosen for it and of the text that it is seeded with, added up, are within it. And a
/// start where one does not fit, or where one could not be read, is refused.
pub proof fn a_start_fits_every_budget(
    slots: Seq<InputView>,
    readings: Seq<SlotReading>,
    count: int,
)
    requires
        0 <= count <= slots.len(),
        slots.len() == readings.len(),
    ensures
        resolved(slots, readings, count) is Ok <==> forall|i: int|
            #![trigger slots[i]]
            0 <= i < count ==> !is_too_much(slots[i], readings[i]) && !is_unread(
                slots[i],
                readings[i],
            ),
        resolved(slots, readings, count) is Ok ==> forall|i: int|
            #![trigger slots[i]]
            0 <= i < count && slots[i].max_tokens > 0 ==> added_up(readings[i].files@)
                + seed_tokens(slots[i], readings[i]) <= slots[i].max_tokens,
    decreases count,
{
    if count > 0 {
        a_start_fits_every_budget(slots, readings, count - 1);
        what_stops_a_start(slots[count - 1], readings[count - 1]);
        assert(slots[count - 1] == slots[count - 1]);
    }
}

/// A start that is refused is refused for the first slot that stops it, under its key.
pub proof fn the_first_slot_that_stops_is_named(
    slots: Seq<InputView>,
    readings: Seq<SlotReading>,
    count: int,
) -> (at: int)
    requires
        0 <= count <= slots.len(),
        slots.len() == readings.len(),
        resolved(slots, readings, count) is Err,
    ensures
        0 <= at < count,
        is_unread(slots[at], readings[at]) || is_too_much(slots[at], readings[at]),
        forall|j: int|
            #![trigger slots[j]]
            0 <= j < at ==> !is_unread(slots[j], readings[j]) && !is_too_much(
                slots[j],
                readings[j],
            ),
        (slots[at].key + ": "@).is_prefix_of(resolved(slots, readings, count)->Err_0),
    decreases count,
{
    if resolved(slots, readings, count - 1) is Err {
        the_first_slot_that_stops_is_named(slots, readings, count - 1)
    } else {
        a_start_fits_every_budget(slots, readings, count - 1);
        what_stops_a_start(slots[count - 1], readings[count - 1]);
        count - 1
    }
}

// ── What a start takes along ─────────────────────────────────────────────────

/// Every file of a slot goes to the slot's region, in the order in which it was chosen, as it
/// was read.
proof fn files_go_to_their_region(files: Seq<FileReading>, region: Seq<char>, count: int)
    requires
        0 <= count <= files.len(),
        forall|i: int| 0 <= i < files.len() ==> (#[trigger] files[i]).part is Ok,
    ensures
        file_parts(files, region, count).len() == count,
        forall|i: int|
            #![trigger file_parts(files, region, count)[i]]
            0 <= i < count ==> is_sent_to(
                file_parts(files, region, count)[i],
                files[i].part->Ok_0@,
                region,
            ),
    decreases count,
{
    if count > 0 {
        files_go_to_their_region(files, region, count - 1);
        assert(files[count - 1].part is Ok);
    }
}

/// Whether a part is this file, for this region.
pub open spec fn is_sent_to(sent: InboundView, file: InboundView, region: Seq<char>) -> bool {
    sent.name == file.name && sent.bytes == file.bytes && sent.region == Some(region)
}

/// One more slot leaves what the slots before it send, and adds its files, each for its
/// region, and what its text names, behind.
pub proof fn a_slot_sends_its_files(
    slots: Seq<InputView>,
    readings: Seq<SlotReading>,
    count: int,
)
    requires
        0 < count <= slots.len(),
        slots.len() == readings.len(),
        resolved(slots, readings, count) is Ok,
    ensures
        ({
            let before = resolved(slots, readings, count - 1);
            let after = resolved(slots, readings, count)->Ok_0;
            let slot = slots[count - 1];
            let reading = readings[count - 1];
            let files = reading.files@;
            &&& before is Ok
            &&& before->Ok_0.parts.is_prefix_of(after.parts)
            &&& before->Ok_0.unresolved.is_prefix_of(after.unresolved)
            &&& after.parts.len() >= before->Ok_0.parts.len() + files.len()
            &&& forall|i: int|
                #![trigger files[i]]
                0 <= i < files.len() ==> is_sent_to(
                    after.parts[before->Ok_0.parts.len() + i],
                    files[i].part->Ok_0@,
                    slot.region,
                )
            &&& (reading.typed is Some && says_something(slot.value) ==> after.parts
                == before->Ok_0.parts + after.parts.subrange(
                before->Ok_0.parts.len() as int,
                (before->Ok_0.parts.len() + files.len()) as int,
            ) + views(reading.typed->0->Ok_0.parts@) && after.unresolved
                == before->Ok_0.unresolved + views(reading.typed->0->Ok_0.unresolved@))
            &&& (reading.typed is None || !says_something(slot.value) ==> after.parts.len()
                == before->Ok_0.parts.len() + files.len() && after.unresolved
                == before->Ok_0.unresolved)
        }),
{
    let before = resolved(slots, readings, count - 1)->Ok_0;
    let after = resolved(slots, readings, count)->Ok_0;
    let slot = slots[count - 1];
    let reading = readings[count - 1];
    let files = reading.files@;
    what_says_something_is_left(slot.value);
    the_first_unread_file(files, 0);
    files_go_to_their_region(files, slot.region, files.len() as int);
    let sent = file_parts(files, slot.region, files.len() as int);
    assert(after.parts.take(before.parts.len() as int) =~= before.parts);
    assert(after.unresolved.take(before.unresolved.len() as int) =~= before.unresolved);
    assert forall|i: int|
        #![trigger files[i]]
        0 <= i < files.len() implies is_sent_to(
        after.parts[before.parts.len() + i],
        files[i].part->Ok_0@,
        slot.region,
    ) by {
        assert(after.parts[before.parts.len() + i] == sent[i]);
    }
    assert(after.parts.subrange(
        before.parts.len() as int,
        (before.parts.len() + files.len()) as int,
    ) =~= sent);
}

/// What is seeded under a key is the text, and what is seeded under other keys stays.
proof fn a_seed_is_kept(
    regions: Seq<(Seq<char>, Seq<char>)>,
    key: Seq<char>,
    text: Seq<char>,
    from: int,
    other: (Seq<char>, Seq<char>),
)
    requires
        0 <= from <= regions.len(),
        forall|i: int| 0 <= i < from ==> (#[trigger] regions[i]).0 != key,
    ensures
        seeded(regions, key, text, from).contains((key, text)),
        other.0 != key ==> (regions.contains(other) <==> seeded(regions, key, text, from).contains(
            other,
        )),
    decreases regions.len() - from,
{
    let after = seeded(regions, key, text, from);
    if from < regions.len() && regions[from].0 != key {
        a_seed_is_kept(regions, key, text, from + 1, other);
    } else {
        if from >= regions.len() {
            assert(after.last() == (key, text));
        } else {
            assert(after[from] == (key, text));
        }
        if other.0 != key {
            if regions.contains(other) {
                let i = choose|i: int| 0 <= i < regions.len() && regions[i] == other;
                assert(after[i] == other);
            }
            if after.contains(other) {
                let i = choose|i: int| 0 <= i < after.len() && after[i] == other;
                assert(regions[i] == other);
            }
        }
    }
}

/// A slot that seeds its region puts its text under its own key, and nothing under another; one
/// that does not, seeds nothing.
pub proof fn a_slot_seeds_its_own_key(
    slots: Seq<InputView>,
    readings: Seq<SlotReading>,
    count: int,
    other: (Seq<char>, Seq<char>),
)
    requires
        0 < count <= slots.len(),
        slots.len() == readings.len(),
        resolved(slots, readings, count) is Ok,
    ensures
        ({
            let before = resolved(slots, readings, count - 1)->Ok_0.regions;
            let after = resolved(slots, readings, count)->Ok_0.regions;
            let slot = slots[count - 1];
            match seeds(slot, readings[count - 1]) {
                Some(text) => after.contains((slot.key, text)) && (other.0 != slot.key ==> (
                before.contains(other) <==> after.contains(other))),
                None => after == before,
            }
        }),
{
    let before = resolved(slots, readings, count - 1)->Ok_0.regions;
    let slot = slots[count - 1];
    what_says_something_is_left(slot.value);
    match seeds(slot, readings[count - 1]) {
        Some(text) => a_seed_is_kept(before, slot.key, text, 0, other),
        None => {},
    }
}

/// What a slot's text is read as: nothing where it is blank, and else what is typed without the
/// blanks around it, with one `@` in front where it names a file and has none.
pub proof fn a_path_is_read_as_its_file(value: Seq<char>, names_file: bool)
    ensures
        slot_text(value, names_file) is Some <==> says_something(value),
        slot_text(value, names_file) matches Some(text) ==> {
            let marked = trimmed(value)[0] == '@';
            if names_file && !marked {
                text[0] == '@' && text.skip(1) == trimmed(value)
            } else {
                text == trimmed(value)
            }
        },
{
    what_says_something_is_left(value);
    let text = trimmed(value);
    reveal_strlit("@");
    if text.len() > 0 {
        assert("@"@ =~= seq!['@']);
        assert(("@"@ + text).skip(1) =~= text);
        assert(text.subrange(0, 1) =~= seq![text[0]]);
        assert(seq![text[0]][0] == text[0] && "@"@[0] == '@');
    }
}

// ── The slots of a blueprint ─────────────────────────────────────────────────

/// Whether a region is one that its caller seeds, beside the task.
pub open spec fn is_asked_for(region: RegionDecl) -> bool {
    region.caller_key is Some && region.caller_key->0@ != "task"@
}

/// There is one slot for each region that the caller seeds, in the blueprint's order, and each
/// is empty and asks for what its region declares.
pub proof fn every_asked_region_has_a_slot(regions: Seq<RegionDecl>, count: int)
    requires
        0 <= count <= regions.len(),
    ensures
        ({
            let slots = slots_for(regions, count);
            let asked = regions.take(count).filter(|region: RegionDecl| is_asked_for(region));
            &&& slots.len() == asked.len()
            &&& forall|i: int|
                #![trigger slots[i]]
                0 <= i < slots.len() ==> {
                    &&& slots[i].key == asked[i].caller_key->0@
                    &&& slots[i].region == asked[i].name@
                    &&& slots[i].accepts == views(asked[i].accepts@)
                    &&& slots[i].required == asked[i].required
                    &&& slots[i].max_tokens == asked[i].max_tokens
                    &&& slots[i].value.len() == 0
                    &&& slots[i].files.len() == 0
                    &&& !slots[i].masked
                }
        }),
    decreases count,
{
    let asking = |region: RegionDecl| is_asked_for(region);
    if count > 0 {
        every_asked_region_has_a_slot(regions, count - 1);
        let fewer = regions.take(count - 1);
        assert(regions.take(count) =~= fewer.push(regions[count - 1]));
        Seq::filter_distributes_over_add(fewer, seq![regions[count - 1]], asking);
        assert(fewer + seq![regions[count - 1]] =~= fewer.push(regions[count - 1]));
        reveal_with_fuel(Seq::filter, 2);
        assert(seq![regions[count - 1]].drop_last() =~= Seq::<RegionDecl>::empty());
    } else {
        assert(regions.take(0) =~= Seq::<RegionDecl>::empty());
        reveal_with_fuel(Seq::filter, 1);
    }
}

// ── The entry stage's window ─────────────────────────────────────────────────

/// A window that is set for a model under `provider/model` wins over one under the bare name,
/// that over the catalog, and a stage that has no model, or whose model nothing knows, has the
/// default.
pub proof fn what_is_set_wins(
    stages: Seq<StageModel>,
    entry: Seq<char>,
    settings: Seq<(String, Option<usize>)>,
    catalog: Seq<(String, String, usize)>,
    at: int,
    set: int,
)
    requires
        0 <= at < stages.len(),
        stages[at].stage@ == entry,
        forall|i: int| 0 <= i < at ==> (#[trigger] stages[i]).stage@ != entry,
    ensures
        stages[at].model is None ==> entry_window(stages, entry, settings, catalog)
            == DEFAULT_WINDOW,
        stages[at].model matches Some(model) ==> {
            let full = model.0@ + "/"@ + model.1@;
            let window = entry_window(stages, entry, settings, catalog);
            &&& is_first_set(settings, full, set) ==> Some(window) == settings[set].1
            &&& names_nothing(settings, full) && is_first_set(settings, model.1@, set) ==> Some(
                window,
            ) == settings[set].1
            &&& names_nothing(settings, full) && names_nothing(settings, model.1@)
                && is_first_known(catalog, model.0@, model.1@, set) ==> window == catalog[set].2
            &&& names_nothing(settings, full) && names_nothing(settings, model.1@) && (forall|
                i: int,
            |
                0 <= i < catalog.len() ==> (#[trigger] catalog[i]).0@ != model.0@ || catalog[i].1@
                    != model.1@) ==> window == DEFAULT_WINDOW
        },
{
    first_stage(stages, entry, 0, at);
    match stages[at].model {
        Some(model) => {
            let full = model.0@ + "/"@ + model.1@;
            if is_first_set(settings, full, set) {
                first_window(settings, full, 0, set);
            }
            if is_first_set(settings, model.1@, set) {
                first_window(settings, model.1@, 0, set);
            }
            if names_nothing(settings, full) {
                no_window(settings, full, 0);
            }
            if names_nothing(settings, model.1@) {
                no_window(settings, model.1@, 0);
            }
            if is_first_known(catalog, model.0@, model.1@, set) {
                first_known(catalog, model.0@, model.1@, 0, set);
            }
            if forall|i: int|
                0 <= i < catalog.len() ==> (#[trigger] catalog[i]).0@ != model.0@ || catalog[i].1@
                    != model.1@ {
                none_known(catalog, model.0@, model.1@, 0);
            }
        },
        None => {},
    }
}

/// Whether this is the first setting under a key, and it sets a window.
pub open spec fn is_first_set(
    settings: Seq<(String, Option<usize>)>,
    key: Seq<char>,
    at: int,
) -> bool {
    &&& 0 <= at < settings.len()
    &&& settings[at].0@ == key
    &&& settings[at].1 is Some
    &&& forall|i: int| 0 <= i < at ==> (#[trigger] settings[i]).0@ != key
}

/// Whether nothing is set under a key.
pub open spec fn names_nothing(settings: Seq<(String, Option<usize>)>, key: Seq<char>) -> bool {
    forall|i: int| 0 <= i < settings.len() ==> (#[trigger] settings[i]).0@ != key
}

/// Whether this is the first that the catalog has of a model.
pub open spec fn is_first_known(
    catalog: Seq<(String, String, usize)>,
    provider: Seq<char>,
    model: Seq<char>,
    at: int,
) -> bool {
    &&& 0 <= at < catalog.len()
    &&& catalog[at].0@ == provider
    &&& catalog[at].1@ == model
    &&& forall|i: int|
        0 <= i < at ==> (#[trigger] catalog[i]).0@ != provider || catalog[i].1@ != model
}

proof fn first_stage(stages: Seq<StageModel>, name: Seq<char>, from: int, at: int)
    requires
        0 <= from <= at < stages.len(),
        stages[at].stage@ == name,
        forall|i: int| 0 <= i < at ==> (#[trigger] stages[i]).stage@ != name,
    ensures
        stage_from(stages, name, from) == Some(stages[at]),
    decreases at - from,
{
    if from < at {
        first_stage(stages, name, from + 1, at);
    }
}

proof fn first_window(
    settings: Seq<(String, Option<usize>)>,
    key: Seq<char>,
    from: int,
    at: int,
)
    requires
        0 <= from <= at,
        is_first_set(settings, key, at),
    ensures
        window_set(settings, key, from) == settings[at].1,
    decreases at - from,
{
    if from < at {
        first_window(settings, key, from + 1, at);
    }
}

proof fn no_window(settings: Seq<(String, Option<usize>)>, key: Seq<char>, from: int)
    requires
        0 <= from <= settings.len(),
        names_nothing(settings, key),
    ensures
        window_set(settings, key, from) is None,
    decreases settings.len() - from,
{
    if from < settings.len() {
        no_window(settings, key, from + 1);
    }
}

proof fn first_known(
    catalog: Seq<(String, String, usize)>,
    provider: Seq<char>,
    model: Seq<char>,
    from: int,
    at: int,
)
    requires
        0 <= from <= at,
        is_first_known(catalog, provider, model, at),
    ensures
        window_known(catalog, provider, model, from) == Some(catalog[at].2),
    decreases at - from,
{
    if from < at {
        first_known(catalog, provider, model, from + 1, at);
    }
}

proof fn none_known(
    catalog: Seq<(String, String, usize)>,
    provider: Seq<char>,
    model: Seq<char>,
    from: int,
)
    requires
        0 <= from <= catalog.len(),
        forall|i: int|
            0 <= i < catalog.len() ==> (#[trigger] catalog[i]).0@ != provider || catalog[i].1@
                != model,
    ensures
        window_known(catalog, provider, model, from) is None,
    decreases catalog.len() - from,
{
    if from < catalog.len() {
        none_known(catalog, provider, model, from + 1);
    }
}

// ── The pane ─────────────────────────────────────────────────────────────────

/// A key on the pane leaves the slots as they are, and the cursor on one of them: up and down
/// move it by one and no further than the ends, Tab and its reverse leave the pane, and the
/// file picker opens only on the slot under the cursor and only where that takes files.
pub proof fn a_key_keeps_to_the_slots(dash: Dashboard, key: KeyEvent)
    requires
        dash.inputs.selected < dash.inputs.slots@.len() <= usize::MAX,
    ensures
        ({
            let (after, action) = after_inputs_key(dash, key);
            let at = dash.inputs.selected as int;
            let count = dash.inputs.slots@.len();
            &&& after.inputs.slots == dash.inputs.slots
            &&& after.inputs.selected < count
            &&& (key.code == KeyCode::Up ==> after.inputs.selected == if at == 0 {
                0
            } else {
                at - 1
            })
            &&& (key.code == KeyCode::Down ==> after.inputs.selected == if at + 1 == count {
                at
            } else {
                at + 1
            })
            &&& (key.code != KeyCode::Up && key.code != KeyCode::Down ==> after.inputs.selected
                == at)
            &&& (key.code == KeyCode::Tab ==> after.new_run.focus == NewRunPane::Task)
            &&& (key.code == KeyCode::BackTab || key.code == KeyCode::Esc ==> after.new_run.focus
                == NewRunPane::Agents)
            &&& (after.inputs.picker != dash.inputs.picker ==> after.inputs.picker == Some(
                dash.inputs.selected,
            ) && dash.inputs.slots@[at]@.files_go() && action == SlotAction::OpenPicker(
                dash.inputs.selected,
            ))
            &&& (action is EditSlot ==> action->EditSlot_0 == at
                && dash.inputs.slots@[at]@.text_goes())
            &&& (key.code is Char && dash.inputs.slots@[at]@.text_goes()
                && !dash.inputs.slots@[at]@.files_go() ==> action == SlotAction::EditSlot(
                dash.inputs.selected,
            ))
        }),
{
}

/// The pane has a row for every slot and a border around them, and none where there is no
/// slot.
pub proof fn the_pane_has_a_row_for_each(slots: nat)
    requires
        slots + 2 <= u16::MAX,
    ensures
        pane_height(slots) == if slots == 0 {
            0
        } else {
            slots + 2
        },
{
}

/// A label is as wide as the column of labels at most, unless that is cut to leave its value
/// twelve columns less the gap.
pub proof fn labels_share_a_column(slots: Seq<InputView>, width: u16, at: int)
    requires
        0 <= at < slots.len(),
    ensures
        ({
            let wide = label_columns(slots, width);
            let label = slots[at].key.len() + slots[at].aside().len();
            &&& label + 2 <= wide || (width >= 12 && wide == width - 10) || (width < 12 && wide
                == 2)
            &&& width >= 12 ==> wide <= width - 10
        }),
{
    the_longest_label_is_longest(slots, slots.len() as int, at);
}

proof fn the_longest_label_is_longest(slots: Seq<InputView>, count: int, at: int)
    requires
        0 <= at < count <= slots.len(),
    ensures
        slots[at].key.len() + slots[at].aside().len() <= longest_label(slots, count),
    decreases count,
{
    if at < count - 1 {
        the_longest_label_is_longest(slots, count - 1, at);
    }
}

/// A click on a slot's row goes to that slot: the rows stand one below the other, as wide as
/// the pane.
pub proof fn a_click_goes_to_its_slot(inner: Rect, count: int, at: int)
    requires
        0 <= at < count,
        inner.y + count <= u16::MAX,
    ensures
        slot_targets(inner, count).len() == count,
        slot_targets(inner, count)[at].0.y == inner.y + at,
        slot_targets(inner, count)[at].0.x == inner.x,
        slot_targets(inner, count)[at].0.width == inner.width,
        slot_targets(inner, count)[at].0.height == 1,
        slot_targets(inner, count)[at].1 == ClickTarget::NewRunInput(at as usize),
{
}

// ── What a slot takes and shows ──────────────────────────────────────────────

/// A region that names no type takes text and files; one that names some takes text if and only if
/// one of them is text or anything, and files if and only if one is something else or anything.
pub proof fn a_slot_takes_what_its_region_names(slot: InputView)
    ensures
        slot.accepts.len() == 0 ==> slot.text_goes() && slot.files_go(),
        (exists|i: int| 0 <= i < slot.accepts.len() && (#[trigger] slot.accepts[i]) == "*/*"@)
            ==> slot.text_goes() && slot.files_go(),
        slot.accepts.len() > 0 && (forall|i: int|
            0 <= i < slot.accepts.len() ==> is_text_type(#[trigger] slot.accepts[i]))
            ==> slot.text_goes() && !slot.files_go(),
        slot.accepts.len() > 0 && (forall|i: int|
            0 <= i < slot.accepts.len() ==> !is_text_type(#[trigger] slot.accepts[i])
                && slot.accepts[i] != "*/*"@) ==> !slot.text_goes() && slot.files_go(),
        (exists|i: int| 0 <= i < slot.accepts.len() && is_text_type(#[trigger] slot.accepts[i]))
            ==> slot.text_goes(),
{
    assert forall|i: int| 0 <= i < slot.accepts.len() implies is_text_type(
        #[trigger] slot.accepts[i],
    ) == crate::text::begins(slot.accepts[i], "text/"@) by {
        crate::text::what_a_text_holds(slot.accepts[i], "text/"@);
    }
    reveal_strlit("text/");
    reveal_strlit("*/*");
    assert forall|i: int|
        0 <= i < slot.accepts.len() && is_text_type(
            #[trigger] slot.accepts[i],
        ) implies slot.accepts[i] != "*/*"@ by {
        let rest = choose|rest: Seq<char>| slot.accepts[i] == #[trigger] ("text/"@ + rest);
        assert(slot.accepts[i][0] == 't');
    }
    if slot.accepts.len() > 0 {
        assert(slot.accepts[0] == slot.accepts[0]);
    }
    if exists|i: int| 0 <= i < slot.accepts.len() && is_text_type(#[trigger] slot.accepts[i]) {
        let i = choose|i: int|
            0 <= i < slot.accepts.len() && is_text_type(#[trigger] slot.accepts[i]);
        assert(crate::text::begins(slot.accepts[i], "text/"@));
    }
}

/// Whether a type is one of text.
pub open spec fn is_text_type(pattern: Seq<char>) -> bool {
    exists|rest: Seq<char>| pattern == #[trigger] ("text/"@ + rest)
}

/// The picker opens with `^O` wherever a slot takes files, and with Enter or Space where it takes
/// nothing else; on a slot that takes no file nothing opens it.
pub proof fn the_picker_opens_where_files_go(slot: InputView, key: KeyEvent)
    ensures
        !slot.files_go() ==> !opens_picker(slot, key),
        slot.files_go() && key.control && (key.code == KeyCode::Char('o') || key.code
            == KeyCode::Char('O')) ==> opens_picker(slot, key),
        slot.files_go() && !slot.text_goes() && (key.code == KeyCode::Enter || key.code
            == KeyCode::Char(' ')) ==> opens_picker(slot, key),
        slot.text_goes() && !key.control ==> !opens_picker(slot, key),
{
}

/// The note beside a key says what the region takes, the room it has and whether it is required,
/// each where there is something to say.
pub proof fn a_note_says_what_there_is(slot: InputView)
    ensures
        slot.aside().len() == 0 <==> slot.accepts.len() == 0 && slot.max_tokens == 0
            && !slot.required,
        slot.required ==> slot.notes().last() == "required"@,
        slot.accepts.len() > 0 ==> slot.notes()[0] == crate::text::joined(slot.accepts, " "@),
        slot.max_tokens > 0 && !slot.required ==> slot.notes().last() == "≤"@
            + crate::numbers::compacted(slot.max_tokens as nat) + " tok"@,
        slot.notes().len() == (if slot.accepts.len() > 0 {
            1int
        } else {
            0
        }) + (if slot.max_tokens > 0 {
            1int
        } else {
            0
        }) + (if slot.required {
            1int
        } else {
            0
        }),
{
    reveal_strlit(" (");
}

/// Several files are named one behind the other, with how many there are where there is more than
/// one.
pub proof fn files_are_named_and_counted(names: Seq<Seq<char>>)
    ensures
        names.len() == 1 ==> in_short(names) == names[0],
        names.len() > 1 ==> in_short(names) == crate::text::joined(names, ", "@) + " ("@
            + crate::text::decimal(names.len()) + ")"@,
{
    if names.len() == 1 {
        crate::text::joining_goes_piece_by_piece(
            Seq::empty(),
            Seq::empty(),
            ", "@,
            names[0],
        );
        assert(names =~= seq![names[0]]);
    }
}

/// A slot for files alone shows its files, or how to choose them; one for text shows its text, and
/// the files chosen beside it behind.
pub proof fn a_slot_shows_what_was_put_in_it(
    slot: InputView,
    on: bool,
    field: Seq<SpanView>,
    names: Seq<Seq<char>>,
)
    ensures
        ({
            let shown = slot.value_shown(on, field, names);
            let only_files = slot.files_go() && !slot.text_goes();
            &&& (only_files && slot.files.len() > 0 ==> shown.len() == 1 && shown[0].content
                == in_short(names))
            &&& (only_files && slot.files.len() == 0 && on ==> shown.len() == 1 && shown[0].content
                == "Enter to choose files"@)
            &&& (only_files && slot.files.len() == 0 && !on ==> shown.len() == 1
                && shown[0].content == "no files chosen"@)
            &&& (!only_files && slot.value.len() > 0 && (slot.files.len() == 0 || !slot.files_go())
                ==> shown == field)
            &&& (!only_files && slot.value.len() > 0 && slot.files.len() > 0 && slot.files_go()
                ==> shown.drop_last() == field && shown.last().content == "  +"@ + in_short(names))
        }),
{
    assert(field.push(
        crate::style::sp("  +"@ + in_short(names), crate::style::ink(crate::style::Color::Accent)),
    ).drop_last() =~= field);
}

/// A slot's row begins with the mark of the cursor where that is on it, then its key and note, as
/// wide as the column of labels, then its value.
pub proof fn a_row_is_its_label_and_value(
    slot: InputView,
    on: bool,
    label_w: nat,
    field: Seq<SpanView>,
    names: Seq<Seq<char>>,
)
    ensures
        ({
            let line = slot_line(slot, on, label_w, field, names);
            let label = slot.key + slot.aside();
            &&& line.len() == 2 + slot.value_shown(on, field, names).len()
            &&& (line[0].content == "› "@ <==> on)
            &&& (line[1].style.bold <==> on)
            &&& line.skip(2) == slot.value_shown(on, field, names)
            &&& (label_w >= 2 && label.len() <= label_w - 2 ==> line[1].content.len() == label_w
                && label.is_prefix_of(line[1].content))
        }),
{
    let line = slot_line(slot, on, label_w, field, names);
    let label = slot.key + slot.aside();
    reveal_strlit("› ");
    reveal_strlit("  ");
    assert("› "@[0] != "  "@[0]);
    assert(line.skip(2) =~= slot.value_shown(on, field, names));
    if label_w >= 2 && label.len() <= label_w - 2 {
        a_fitted_text_fills_its_room(label, (label_w - 2) as nat);
        crate::text::padding_is_spaces(label, label_w);
        assert(line[1].content.take(label.len() as int) =~= label);
    }
}

/// The pane follows the chosen agent: it loads the regions of one it does not have, keeps those it
/// has, and is empty where no agent is chosen.
pub proof fn the_pane_follows_the_agent(dash: Dashboard, step: InputsStep)
    requires
        follows(dash, step),
    ensures
        dash.chosen_agent() is None <==> step is Cleared,
        dash.chosen_agent() matches Some(agent) ==> (dash.inputs.key@ == agent.path@ <==> step
            is Kept),
        step matches InputsStep::Load { path, bundled, name } ==> dash.chosen_agent() is Some
            && path@ == dash.chosen_agent()->0.path@ && name@ == dash.chosen_agent()->0.name@
            && (bundled <==> dash.chosen_agent()->0.source@ == "bundled"@),
{
}

} // verus!
