//! A change to a mod that is carried out on disk action by action: enabling
//! it, disabling it, removing it, or putting it in place by hand. The engine
//! hands out one action at a time and takes in what came of it. The first
//! action that fails ends the change, and only a change that went through
//! to its end is noted in the catalog.

use crate::catalog::{with_enabled, with_flags, with_installed};
use crate::error::{EngineError, EngineErrorView};
use crate::inspect::Presence;
use crate::install::error_view;
use crate::lifecycle::{
    action_views, after_disable, after_enable, disable_plan, enable_plan, failure_of,
    lemma_plans_effect, plan_disable, plan_enable, plan_uninstall, uninstall_plan, Action,
    ActionView,
};
use crate::manual::manual_record;
use crate::mod_links::local::ManifestView;
use vstd::prelude::*;
use vstd::string::*;

verus! {

/// What a change does to a mod.
#[derive(Clone, Copy, Debug, PartialEq, Eq, Structural)]
pub enum ChangeKind {
    Enable,
    Disable,
    Uninstall,
    /// The mod is put in place from a file that the user picked.
    InstallByHand,
}

/// The catalog once a change of that kind to the mod of that name went
/// through: enabling and disabling set the flag `enabled` in its records,
/// removing clears both flags and keeps the records, and putting a mod in
/// place by hand notes it as installed.
pub open spec fn catalog_changed(cat: Seq<ManifestView>, kind: ChangeKind, name: Seq<char>) -> Seq<
    ManifestView,
> {
    match kind {
        ChangeKind::Enable => with_enabled(cat, name, true),
        ChangeKind::Disable => with_enabled(cat, name, false),
        ChangeKind::Uninstall => with_flags(cat, name, false, false),
        ChangeKind::InstallByHand => with_installed(cat, manual_record(name)),
    }
}

/// A change in progress.
#[derive(Debug, PartialEq)]
pub struct ModChange {
    kind: ChangeKind,
    name: String,
    plan: Vec<Action>,
    done: usize,
    start: Presence,
    error: Option<EngineError>,
}

/// A `ModChange` as a value of the contracts.
pub struct ModChangeView {
    pub kind: ChangeKind,
    /// The name of the mod.
    pub name: Seq<char>,
    /// The actions that the change takes, in their order.
    pub plan: Seq<ActionView>,
    /// How many of the actions were carried out with success.
    pub done: nat,
    /// What the disk showed for the mod before the change.
    pub start: Presence,
    /// Why the change failed.
    pub error: Option<EngineErrorView>,
}

impl ModChangeView {
    /// The change went through: every action was carried out.
    pub open spec fn complete(self) -> bool {
        self.error is None && self.done >= self.plan.len()
    }

    /// The change is over: it went through, or an action failed.
    pub open spec fn over(self) -> bool {
        self.error is Some || self.done >= self.plan.len()
    }

    /// The action that is to be carried out now; `Halt` once the change is
    /// over.
    pub open spec fn current(self) -> ActionView {
        if self.over() {
            ActionView::Halt
        } else {
            self.plan[self.done as int]
        }
    }

    /// The change after the outcome of the action that was to be carried
    /// out, and the action that is next. After a success the next action of
    /// the plan follows. A failure ends the change, with the failure of
    /// that action as its error. A change that is over stays as it is.
    pub open spec fn next(self, ok: bool) -> (ModChangeView, ActionView) {
        if self.over() {
            (self, ActionView::Halt)
        } else if ok {
            let then = ModChangeView { done: self.done + 1, ..self };
            (then, then.current())
        } else {
            (
                ModChangeView {
                    error: Some(failure_of(self.plan[self.done as int], self.name)),
                    ..self
                },
                ActionView::Halt,
            )
        }
    }

    /// How many actions of the plan count as carried out.
    pub open spec fn carried_out(self) -> int {
        if self.done <= self.plan.len() {
            self.done as int
        } else {
            self.plan.len() as int
        }
    }

    /// What the disk shows for the mod by now: what it showed before the
    /// change, after the actions that were carried out.
    pub open spec fn seen(self) -> Presence {
        self.start.after_all(self.plan.take(self.carried_out()))
    }

    /// What holds of a change at every step: no more actions were carried
    /// out than the plan has, and a change that failed did so at an action
    /// of the plan.
    pub open spec fn inv(self) -> bool {
        &&& self.done <= self.plan.len()
        &&& self.error is Some ==> self.done < self.plan.len()
    }
}

/// A change as it starts: nothing was carried out, nothing failed.
pub open spec fn change_start(
    kind: ChangeKind,
    name: Seq<char>,
    plan: Seq<ActionView>,
    start: Presence,
) -> ModChangeView {
    ModChangeView { kind, name, plan, done: 0, start, error: None }
}

/// The catalog after a step of a change: with the step that takes the
/// change through to its end, the change is noted; before that step, after
/// it, and when the change fails, the catalog stays as it is.
pub open spec fn catalog_after_change(
    cat: Seq<ManifestView>,
    was_complete: bool,
    after: ModChangeView,
) -> Seq<ManifestView> {
    if after.complete() && !was_complete {
        catalog_changed(cat, after.kind, after.name)
    } else {
        cat
    }
}

/// What holds of a change at every step holds at its start, and every
/// outcome keeps it. A failure leaves the disk as the last success left it,
/// and a change that fails never counts as complete.
pub proof fn lemma_change_inv(j: ModChangeView, ok: bool)
    ensures
        change_start(j.kind, j.name, j.plan, j.start).inv(),
        j.inv() ==> j.next(ok).0.inv(),
        j.next(ok).0.kind == j.kind && j.next(ok).0.name == j.name && j.next(ok).0.plan
            == j.plan && j.next(ok).0.start == j.start,
        !ok ==> j.next(ok).0.seen() == j.seen() && (j.next(ok).0.complete() ==> j.complete()),
        j.over() ==> j.next(ok) == (j, ActionView::Halt),
{
}

/// A change that went through leaves the disk as its plan says.
pub proof fn lemma_change_complete(j: ModChangeView)
    requires
        j.inv(),
        j.complete(),
    ensures
        j.seen() == j.start.after_all(j.plan),
{
    assert(j.plan.take(j.plan.len() as int) =~= j.plan);
}

/// Once a mod was removed with success, the disk shows it in neither place,
/// wherever it lay before. Once it was enabled with success it is enabled
/// wherever it lay under `Disabled` before; once it was disabled with
/// success it is not enabled.
pub proof fn lemma_change_outcome(j: ModChangeView, root: Seq<char>)
    requires
        j.inv(),
        j.complete(),
    ensures
        j.plan == uninstall_plan(root, j.name, j.start) ==> !j.seen().installed(),
        j.plan == enable_plan(root, j.name, j.start) ==> j.seen() == after_enable(
            root,
            j.name,
            j.start,
        ) && (j.start.in_disabled ==> j.seen().enabled()),
        j.plan == disable_plan(root, j.name, j.start) ==> j.seen() == after_disable(
            root,
            j.name,
            j.start,
        ) && !j.seen().enabled(),
{
    lemma_change_complete(j);
    lemma_plans_effect(root, j.name, j.start);
}

impl ModChange {
    /// The change as a value of the contracts.
    pub closed spec fn view(&self) -> ModChangeView {
        ModChangeView {
            kind: self.kind,
            name: self.name@,
            plan: action_views(self.plan@),
            done: self.done as nat,
            start: self.start,
            error: error_view(self.error),
        }
    }

    fn current_action(&self) -> (a: Action)
        ensures
            a@ == self@.current(),
    {
        if self.error.is_none() && self.done < self.plan.len() {
            self.plan[self.done].clone()
        } else {
            Action::Halt
        }
    }

    /// A change of that kind to the mod `name` that takes the actions of
    /// `plan`, with `start` as what the disk shows for the mod. Returns the
    /// change and the first action to carry out, which is `Halt` where the
    /// plan is empty: the change is complete then.
    pub fn begin(kind: ChangeKind, name: &str, plan: Vec<Action>, start: Presence) -> (r: (
        ModChange,
        Action,
    ))
        ensures
            r.0@ == change_start(kind, name@, action_views(plan@), start),
            r.0@.inv(),
            r.1@ == r.0@.current(),
    {
        let change = ModChange { kind, name: name.to_owned(), plan, done: 0, start, error: None };
        let first = change.current_action();
        (change, first)
    }

    /// Enabling the mod `name` under the mods root `root`.
    pub fn enable(root: &str, name: &str, seen: Presence) -> (r: (ModChange, Action))
        ensures
            r.0@ == change_start(ChangeKind::Enable, name@, enable_plan(root@, name@, seen), seen),
            r.0@.inv(),
            r.1@ == r.0@.current(),
    {
        ModChange::begin(ChangeKind::Enable, name, plan_enable(root, name, seen), seen)
    }

    /// Disabling the mod `name` under the mods root `root`.
    pub fn disable(root: &str, name: &str, seen: Presence) -> (r: (ModChange, Action))
        ensures
            r.0@ == change_start(
                ChangeKind::Disable,
                name@,
                disable_plan(root@, name@, seen),
                seen,
            ),
            r.0@.inv(),
            r.1@ == r.0@.current(),
    {
        ModChange::begin(ChangeKind::Disable, name, plan_disable(root, name, seen), seen)
    }

    /// Removing the mod `name` under the mods root `root`.
    pub fn uninstall(root: &str, name: &str, seen: Presence) -> (r: (ModChange, Action))
        ensures
            r.0@ == change_start(
                ChangeKind::Uninstall,
                name@,
                uninstall_plan(root@, name@, seen),
                seen,
            ),
            r.0@.inv(),
            r.1@ == r.0@.current(),
    {
        ModChange::begin(ChangeKind::Uninstall, name, plan_uninstall(root, name, seen), seen)
    }

    /// Takes in whether the action that was to be carried out succeeded,
    /// and returns the action that is next; `Halt` when the change is over.
    pub fn report(&mut self, ok: bool) -> (a: Action)
        ensures
            (final(self)@, a@) == old(self)@.next(ok),
            old(self)@.inv() ==> final(self)@.inv(),
    {
        if self.error.is_some() || self.done >= self.plan.len() {
            Action::Halt
        } else if ok {
            self.done = self.done + 1;
            self.current_action()
        } else {
            self.error = Some(self.plan[self.done].failure(self.name.as_str()));
            Action::Halt
        }
    }

    /// What the change does to the mod.
    pub fn kind(&self) -> (r: ChangeKind)
        ensures
            r == self@.kind,
    {
        self.kind
    }

    /// The name of the mod.
    pub fn name(&self) -> (r: &str)
        ensures
            r@ == self@.name,
    {
        self.name.as_str()
    }

    /// Whether the change went through.
    pub fn is_complete(&self) -> (r: bool)
        ensures
            r == self@.complete(),
    {
        self.error.is_none() && self.done >= self.plan.len()
    }

    /// Whether the change is over.
    pub fn is_over(&self) -> (r: bool)
        ensures
            r == self@.over(),
    {
        self.error.is_some() || self.done >= self.plan.len()
    }

    /// Why the change failed, if it did.
    pub fn error(&self) -> (r: Option<EngineError>)
        ensures
            error_view(r) == self@.error,
    {
        match &self.error {
            Some(e) => Some(e.clone()),
            None => None,
        }
    }

    /// What the disk shows for the mod by now.
    pub fn seen(&self) -> (r: Presence)
        ensures
            r == self@.seen(),
    {
        let ghost all = action_views(self.plan@);
        let mut p = self.start;
        let mut i: usize = 0;
        while i < self.done && i < self.plan.len()
            invariant
                i <= self.done,
                i <= self.plan.len(),
                all == action_views(self.plan@),
                p == self.start.after_all(all.take(i as int)),
            decreases self.plan.len() - i,
        {
            assert(all.take(i + 1).drop_last() =~= all.take(i as int));
            assert(all.take(i + 1).last() == self.plan@[i as int]@);
            p = p.apply(&self.plan[i]);
            i = i + 1;
        }
        p
    }
}

} // verus!
