//! Unattended runs: the switch on the new-run screen, the warning before it, and
//! the profiles it steps through.

use crate::state::{notice, Dashboard, Notes, Unattended};
use crate::style::{raw, raw_line, Line};
use crate::text::{cat2, cat4, copy_of, opt_text, same};
use crate::types::{
    ActionView, Confirm, ConfirmAction, ConfirmView, ToastLevel, ToastView, YoloProfile,
};
use crate::run_actions::open_question;
use crate::views::{group_views, views};
use vstd::prelude::*;

verus! {

broadcast use group_views;

/// What is asked every time unattended is switched on: what it does, and what it
/// does not.
pub open spec fn warning() -> ConfirmView {
    ConfirmView {
        title: "Run unattended?"@,
        body: seq![
            raw_line(
                "Agent runs started from this screen will approve their own tool calls: editing files, running shell commands, fetching URLs, whatever the agent's permissions allow, without stopping to ask you."@,
            ),
            raw_line(""@),
            raw_line(
                "It does not skip checkpoints a blueprint asks a person for. Those still stop, and one nobody answers ends the run when the interaction timeout expires."@,
            ),
            raw_line(""@),
            raw_line(
                "Ctrl-Y again steps through the profiles in yolo.toml, each narrower than plain unattended, and then turns it off."@,
            ),
        ],
        accept: "Run unattended"@,
        decline: "Keep asking me"@,
        danger: true,
    }
}

/// What is asked every time unattended is switched on.
pub fn yolo_warning() -> (question: Confirm)
    ensures
        question@ == warning(),
{
    let mut body: Vec<Line> = Vec::new();
    body.push(
        raw(
            "Agent runs started from this screen will approve their own tool calls: editing files, running shell commands, fetching URLs, whatever the agent's permissions allow, without stopping to ask you.",
        ),
    );
    body.push(raw(""));
    body.push(
        raw(
            "It does not skip checkpoints a blueprint asks a person for. Those still stop, and one nobody answers ends the run when the interaction timeout expires.",
        ),
    );
    body.push(raw(""));
    body.push(
        raw(
            "Ctrl-Y again steps through the profiles in yolo.toml, each narrower than plain unattended, and then turns it off.",
        ),
    );
    assert(views(body@) =~= warning().body);
    Confirm {
        title: copy_of("Run unattended?"),
        body,
        accept: copy_of("Run unattended"),
        decline: copy_of("Keep asking me"),
        danger: true,
    }
}

/// Which profile comes after the one in use: the one after its place, or the
/// first. `from` is where the search for its place begins.
pub open spec fn next_profile(
    profiles: Seq<YoloProfile>,
    current: Option<Seq<char>>,
    from: int,
) -> int
    decreases profiles.len() - from,
{
    match current {
        None => 0,
        Some(name) => if from < 0 || from >= profiles.len() {
            0
        } else if profiles[from].name@ == name {
            from + 1
        } else {
            next_profile(profiles, current, from + 1)
        },
    }
}

/// What is said when a profile comes into use.
pub open spec fn profile_notice(profile: YoloProfile) -> ToastView {
    notice(
        "Unattended under '"@ + profile.name@ + "': "@ + (if profile.holds@.len() > 0 {
            "keeps for you: "@ + profile.holds@[0]@
        } else {
            "keeps nothing for you"@
        }),
        ToastLevel::Warning,
    )
}

/// What the switch does: from off it asks; from on it steps to the next profile,
/// and from the last one to off.
pub open spec fn toggled(before: Dashboard, after: Dashboard) -> bool {
    if !before.unattended.on {
        &&& after == (Dashboard {
            notes: Notes { pending_confirm: after.notes.pending_confirm, ..before.notes },
            ..before
        })
        &&& open_question(after) == Some((ActionView::EnableYolo, warning()))
    } else {
        let profiles = before.unattended.profiles@;
        let next = next_profile(profiles, opt_text(before.unattended.profile), 0);
        &&& after == (Dashboard {
            notes: Notes { toasts: after.notes.toasts, ..before.notes },
            unattended: Unattended {
                on: next < profiles.len(),
                profile: after.unattended.profile,
                ..before.unattended
            },
            ..before
        })
        &&& opt_text(after.unattended.profile) == if next < profiles.len() {
            Some(profiles[next].name@)
        } else {
            None
        }
        &&& views(after.notes.toasts@) == views(before.notes.toasts@).push(
            if next < profiles.len() {
                profile_notice(profiles[next])
            } else {
                notice(
                    "Unattended OFF: runs will ask you before each tool call"@,
                    ToastLevel::Info,
                )
            },
        )
    }
}

impl Dashboard {
    /// Turn unattended runs on or off for this screen. Turning them on asks first,
    /// every time; each later step is one toward being asked more, so none of
    /// those asks.
    pub fn toggle_new_run_yolo(&mut self)
        ensures
            toggled(*old(self), *final(self)),
    {
        if !self.unattended.on {
            self.notes.pending_confirm = Some((ConfirmAction::EnableYolo, yolo_warning()));
            return;
        }
        let next: usize = find_next(&self.unattended.profiles, &self.unattended.profile);
        if next < self.unattended.profiles.len() {
            let name = copy_of(self.unattended.profiles[next].name.as_str());
            let keeps = if self.unattended.profiles[next].holds.len() > 0 {
                cat2("keeps for you: ", self.unattended.profiles[next].holds[0].as_str())
            } else {
                copy_of("keeps nothing for you")
            };
            let message = cat4("Unattended under '", name.as_str(), "': ", keeps.as_str());
            self.unattended.profile = Some(name);
            self.toast(message, ToastLevel::Warning);
        } else {
            self.unattended.on = false;
            self.unattended.profile = None;
            self.toast(
                copy_of("Unattended OFF: runs will ask you before each tool call"),
                ToastLevel::Info,
            );
        }
    }

    /// Apply a yes to the warning.
    pub fn accept_yolo_warning(&mut self)
        ensures
            *final(self) == (Dashboard {
                notes: Notes { toasts: final(self).notes.toasts, ..old(self).notes },
                unattended: Unattended { on: true, ..old(self).unattended },
                ..*old(self)
            }),
            views(final(self).notes.toasts@) == views(old(self).notes.toasts@).push(
                notice("Unattended ON: runs approve their own tool calls"@, ToastLevel::Warning),
            ),
    {
        self.unattended.on = true;
        self.toast(
            copy_of("Unattended ON: runs approve their own tool calls"),
            ToastLevel::Warning,
        );
    }
}

/// Which profile comes after the one in use.
fn find_next(profiles: &Vec<YoloProfile>, current: &Option<String>) -> (next: usize)
    ensures
        next == next_profile(profiles@, opt_text(*current), 0),
{
    match current {
        None => 0,
        Some(name) => {
            let mut i: usize = 0;
            while i < profiles.len()
                invariant
                    i <= profiles@.len(),
                    opt_text(*current) == Some(name@),
                    next_profile(profiles@, Some(name@), 0) == next_profile(
                        profiles@,
                        Some(name@),
                        i as int,
                    ),
                decreases profiles.len() - i,
            {
                if same(profiles[i].name.as_str(), name.as_str()) {
                    return i + 1;
                }
                i = i + 1;
            }
            0
        },
    }
}

/// The profile in use after as many presses from plain unattended.
pub open spec fn pressed(profiles: Seq<YoloProfile>, presses: int) -> Option<Seq<char>>
    decreases presses,
{
    if presses <= 0 {
        None
    } else {
        let next = next_profile(profiles, pressed(profiles, presses - 1), 0);
        if 0 <= next < profiles.len() {
            Some(profiles[next].name@)
        } else {
            None
        }
    }
}

/// A profile's place is found by its name, where no earlier one has it.
proof fn found_by_name(profiles: Seq<YoloProfile>, at: int, from: int)
    requires
        0 <= from <= at < profiles.len(),
        forall|i: int| 0 <= i < at ==> (#[trigger] profiles[i]).name@ != profiles[at].name@,
    ensures
        next_profile(profiles, Some(profiles[at].name@), from) == at + 1,
    decreases at - from,
{
    if from < at {
        found_by_name(profiles, at, from + 1);
    }
}

/// The switch steps from plain unattended through every profile in its order, and
/// the press after the last turns unattended off: off, on, the profiles, off.
/// Profiles have names of their own.
pub proof fn the_switch_steps_through_every_profile(profiles: Seq<YoloProfile>, presses: int)
    requires
        forall|i: int, j: int|
            0 <= i < j < profiles.len() ==> (#[trigger] profiles[i]).name@ != (
            #[trigger] profiles[j]).name@,
        0 <= presses <= profiles.len(),
    ensures
        pressed(profiles, presses) == if presses == 0 {
            None
        } else {
            Some(profiles[presses - 1].name@)
        },
        next_profile(profiles, pressed(profiles, presses), 0) == presses,
    decreases presses,
{
    if presses > 0 {
        the_switch_steps_through_every_profile(profiles, presses - 1);
        found_by_name(profiles, presses - 1, 0);
    }
}

} // verus!
