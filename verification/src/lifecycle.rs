//! What has to be done on disk to enable, disable or remove a mod, and what
//! the disk shows once it has been done.

use crate::error::{EngineError, EngineErrorView, ErrorKind};
use crate::inspect::{
    disabled_dir, disabled_dir_of, disabled_mod_dir, disabled_mod_dir_of, mod_dir, mod_dir_of,
    Presence,
};
use vstd::prelude::*;
use vstd::string::*;

verus! {

/// One thing that the engine asks to have done outside: on disk or over the
/// network. The engine decides; whoever runs it carries the action out and
/// reports what came of it.
#[derive(Debug, PartialEq)]
pub enum Action {
    /// Nothing is to be done.
    Halt,
    /// Look at the disk: does the mods root exist, and where does the folder
    /// of the mod lie?
    Probe,
    /// Create the folder of the mod under the mods root, unless it exists.
    CreateModDir { path: String },
    /// Create the `Disabled` folder, unless it exists.
    CreateDisabledDir { path: String },
    /// Move the folder of the mod out of `Disabled`, to the mods root.
    MoveToMods { from: String, to: String },
    /// Move the folder of the mod from the mods root into `Disabled`.
    MoveToDisabled { from: String, to: String },
    /// Remove the folder of the mod under the mods root, with all it holds.
    RemoveFromMods { path: String },
    /// Remove the folder of the mod under `Disabled`, with all it holds.
    RemoveFromDisabled { path: String },
    /// Open the address and write what comes to `dest`.
    Fetch { url: String, dest: String },
    /// Go on receiving: hand in the next chunk, or the end of the stream.
    Receive,
    /// Compute the SHA-256 digest of the file.
    Digest { path: String },
    /// Unpack the archive into the folder.
    Extract { archive: String, into: String },
    /// Remove the downloaded archive.
    Discard { path: String },
    /// Copy a file.
    CopyFile { from: String, to: String },
    /// Give a file another name.
    Rename { from: String, to: String },
}

/// An `Action` as a value of the contracts.
pub enum ActionView {
    Halt,
    Probe,
    CreateModDir { path: Seq<char> },
    CreateDisabledDir { path: Seq<char> },
    MoveToMods { from: Seq<char>, to: Seq<char> },
    MoveToDisabled { from: Seq<char>, to: Seq<char> },
    RemoveFromMods { path: Seq<char> },
    RemoveFromDisabled { path: Seq<char> },
    Fetch { url: Seq<char>, dest: Seq<char> },
    Receive,
    Digest { path: Seq<char> },
    Extract { archive: Seq<char>, into: Seq<char> },
    Discard { path: Seq<char> },
    CopyFile { from: Seq<char>, to: Seq<char> },
    Rename { from: Seq<char>, to: Seq<char> },
}

impl View for Action {
    type V = ActionView;

    open spec fn view(&self) -> ActionView {
        match self {
            Action::Halt => ActionView::Halt,
            Action::Probe => ActionView::Probe,
            Action::CreateModDir { path } => ActionView::CreateModDir { path: path@ },
            Action::CreateDisabledDir { path } => ActionView::CreateDisabledDir { path: path@ },
            Action::MoveToMods { from, to } => ActionView::MoveToMods { from: from@, to: to@ },
            Action::MoveToDisabled { from, to } => ActionView::MoveToDisabled {
                from: from@,
                to: to@,
            },
            Action::RemoveFromMods { path } => ActionView::RemoveFromMods { path: path@ },
            Action::RemoveFromDisabled { path } => ActionView::RemoveFromDisabled { path: path@ },
            Action::Fetch { url, dest } => ActionView::Fetch { url: url@, dest: dest@ },
            Action::Receive => ActionView::Receive,
            Action::Digest { path } => ActionView::Digest { path: path@ },
            Action::Extract { archive, into } => ActionView::Extract {
                archive: archive@,
                into: into@,
            },
            Action::Discard { path } => ActionView::Discard { path: path@ },
            Action::CopyFile { from, to } => ActionView::CopyFile { from: from@, to: to@ },
            Action::Rename { from, to } => ActionView::Rename { from: from@, to: to@ },
        }
    }
}

impl Clone for Action {
    fn clone(&self) -> (r: Self)
        ensures
            r@ == self@,
    {
        match self {
            Action::Halt => Action::Halt,
            Action::Probe => Action::Probe,
            Action::CreateModDir { path } => Action::CreateModDir { path: path.clone() },
            Action::CreateDisabledDir { path } => Action::CreateDisabledDir { path: path.clone() },
            Action::MoveToMods { from, to } => Action::MoveToMods {
                from: from.clone(),
                to: to.clone(),
            },
            Action::MoveToDisabled { from, to } => Action::MoveToDisabled {
                from: from.clone(),
                to: to.clone(),
            },
            Action::RemoveFromMods { path } => Action::RemoveFromMods { path: path.clone() },
            Action::RemoveFromDisabled { path } => Action::RemoveFromDisabled {
                path: path.clone(),
            },
            Action::Fetch { url, dest } => Action::Fetch { url: url.clone(), dest: dest.clone() },
            Action::Receive => Action::Receive,
            Action::Digest { path } => Action::Digest { path: path.clone() },
            Action::Extract { archive, into } => Action::Extract {
                archive: archive.clone(),
                into: into.clone(),
            },
            Action::Discard { path } => Action::Discard { path: path.clone() },
            Action::CopyFile { from, to } => Action::CopyFile { from: from.clone(), to: to.clone() },
            Action::Rename { from, to } => Action::Rename { from: from.clone(), to: to.clone() },
        }
    }
}

/// A list of actions as values of the contracts.
pub open spec fn action_views(actions: Seq<Action>) -> Seq<ActionView> {
    Seq::new(actions.len(), |i: int| actions[i]@)
}

/// The path or address that a failure of the action is reported with: what
/// was to be created, moved, removed, read or opened.
pub open spec fn place_of(a: ActionView) -> Seq<char> {
    match a {
        ActionView::Halt => Seq::empty(),
        ActionView::Probe => Seq::empty(),
        ActionView::CreateModDir { path } => path,
        ActionView::CreateDisabledDir { path } => path,
        ActionView::MoveToMods { from, to } => from,
        ActionView::MoveToDisabled { from, to } => from,
        ActionView::RemoveFromMods { path } => path,
        ActionView::RemoveFromDisabled { path } => path,
        ActionView::Fetch { url, dest } => url,
        ActionView::Receive => Seq::empty(),
        ActionView::Digest { path } => path,
        ActionView::Extract { archive, into } => archive,
        ActionView::Discard { path } => path,
        ActionView::CopyFile { from, to } => from,
        ActionView::Rename { from, to } => from,
    }
}

/// The kind of failure that an action fails with: a download fails as a
/// network error, an unpacking as an extract error, anything else as a
/// filesystem error.
pub open spec fn failure_kind(a: ActionView) -> ErrorKind {
    match a {
        ActionView::Fetch { .. } => ErrorKind::Network,
        ActionView::Receive => ErrorKind::Network,
        ActionView::Extract { .. } => ErrorKind::Extract,
        _ => ErrorKind::Filesystem,
    }
}

/// The failure that is reported when the action fails in the course of an
/// operation on the mod `name`.
pub open spec fn failure_of(a: ActionView, name: Seq<char>) -> EngineErrorView {
    EngineErrorView { kind: failure_kind(a), name, place: place_of(a) }
}

impl Action {
    /// The failure that is reported when the action fails in the course of
    /// an operation on the mod `name`.
    pub fn failure(&self, name: &str) -> (r: EngineError)
        ensures
            r@ == failure_of(self@, name@),
    {
        let kind = match self {
            Action::Fetch { .. } => ErrorKind::Network,
            Action::Receive => ErrorKind::Network,
            Action::Extract { .. } => ErrorKind::Extract,
            _ => ErrorKind::Filesystem,
        };
        EngineError { kind, name: name.to_owned(), place: self.place() }
    }

    /// The path or address that a failure of the action is reported with.
    pub fn place(&self) -> (r: String)
        ensures
            r@ == place_of(self@),
    {
        match self {
            Action::Halt => String::new(),
            Action::Probe => String::new(),
            Action::CreateModDir { path } => path.clone(),
            Action::CreateDisabledDir { path } => path.clone(),
            Action::MoveToMods { from, to } => from.clone(),
            Action::MoveToDisabled { from, to } => from.clone(),
            Action::RemoveFromMods { path } => path.clone(),
            Action::RemoveFromDisabled { path } => path.clone(),
            Action::Fetch { url, dest } => url.clone(),
            Action::Receive => String::new(),
            Action::Digest { path } => path.clone(),
            Action::Extract { archive, into } => archive.clone(),
            Action::Discard { path } => path.clone(),
            Action::CopyFile { from, to } => from.clone(),
            Action::Rename { from, to } => from.clone(),
        }
    }
}

impl Presence {
    /// What the disk shows for the mod once the action was carried out with
    /// success. An action that failed leaves the disk as it was.
    pub open spec fn after(self, a: ActionView) -> Presence {
        match a {
            ActionView::CreateModDir { .. } => Presence { in_mods: true, ..self },
            ActionView::MoveToMods { .. } => Presence { in_mods: true, in_disabled: false },
            ActionView::MoveToDisabled { .. } => Presence { in_mods: false, in_disabled: true },
            ActionView::RemoveFromMods { .. } => Presence { in_mods: false, ..self },
            ActionView::RemoveFromDisabled { .. } => Presence { in_disabled: false, ..self },
            _ => self,
        }
    }

    /// What the disk shows for the mod once the actions were carried out
    /// with success, one after the other.
    pub open spec fn after_all(self, actions: Seq<ActionView>) -> Presence
        decreases actions.len(),
    {
        if actions.len() == 0 {
            self
        } else {
            self.after_all(actions.drop_last()).after(actions.last())
        }
    }

    /// What the disk shows once the action was carried out with success.
    pub fn apply(&self, a: &Action) -> (r: Presence)
        ensures
            r == self.after(a@),
    {
        match a {
            Action::CreateModDir { .. } => Presence { in_mods: true, in_disabled: self.in_disabled },
            Action::MoveToMods { .. } => Presence { in_mods: true, in_disabled: false },
            Action::MoveToDisabled { .. } => Presence { in_mods: false, in_disabled: true },
            Action::RemoveFromMods { .. } => Presence {
                in_mods: false,
                in_disabled: self.in_disabled,
            },
            Action::RemoveFromDisabled { .. } => Presence {
                in_mods: self.in_mods,
                in_disabled: false,
            },
            _ => *self,
        }
    }

    /// What the disk shows once the actions were carried out with success,
    /// one after the other.
    pub fn apply_all(&self, actions: &Vec<Action>) -> (r: Presence)
        ensures
            r == self.after_all(action_views(actions@)),
    {
        let ghost all = action_views(actions@);
        let mut p = *self;
        let mut i: usize = 0;
        while i < actions.len()
            invariant
                i <= actions.len(),
                all == action_views(actions@),
                p == self.after_all(all.take(i as int)),
            decreases actions.len() - i,
        {
            assert(all.take(i + 1).drop_last() =~= all.take(i as int));
            assert(all.take(i + 1).last() == actions@[i as int]@);
            p = p.apply(&actions[i]);
            i = i + 1;
        }
        assert(all.take(actions.len() as int) =~= all);
        p
    }
}

/// What enabling a mod takes: where its folder lies under `Disabled`, it is
/// moved to the mods root; where it does not, nothing is done.
pub open spec fn enable_plan(root: Seq<char>, name: Seq<char>, seen: Presence) -> Seq<
    ActionView,
> {
    if seen.in_disabled {
        seq![
            ActionView::MoveToMods {
                from: disabled_mod_dir_of(root, name),
                to: mod_dir_of(root, name),
            },
        ]
    } else {
        Seq::empty()
    }
}

/// What disabling a mod takes: the `Disabled` folder is created unless it
/// exists; then, where the folder of the mod lies under the mods root, it is
/// moved into `Disabled`.
pub open spec fn disable_plan(root: Seq<char>, name: Seq<char>, seen: Presence) -> Seq<
    ActionView,
> {
    let first = ActionView::CreateDisabledDir { path: disabled_dir_of(root) };
    if seen.in_mods {
        seq![
            first,
            ActionView::MoveToDisabled {
                from: mod_dir_of(root, name),
                to: disabled_mod_dir_of(root, name),
            },
        ]
    } else {
        seq![first]
    }
}

/// What removing a mod takes: each folder of the mod that exists is
/// removed, the one under the mods root first, then the one under
/// `Disabled`; where neither exists, nothing is done.
pub open spec fn uninstall_plan(root: Seq<char>, name: Seq<char>, seen: Presence) -> Seq<
    ActionView,
> {
    let from_mods = ActionView::RemoveFromMods { path: mod_dir_of(root, name) };
    let from_disabled = ActionView::RemoveFromDisabled { path: disabled_mod_dir_of(root, name) };
    if seen.in_mods && seen.in_disabled {
        seq![from_mods, from_disabled]
    } else if seen.in_mods {
        seq![from_mods]
    } else if seen.in_disabled {
        seq![from_disabled]
    } else {
        Seq::empty()
    }
}

/// What enabling a mod takes.
pub fn plan_enable(root: &str, name: &str, seen: Presence) -> (r: Vec<Action>)
    ensures
        action_views(r@) == enable_plan(root@, name@, seen),
{
    let mut plan: Vec<Action> = Vec::new();
    if seen.in_disabled {
        plan.push(
            Action::MoveToMods { from: disabled_mod_dir(root, name), to: mod_dir(root, name) },
        );
    }
    assert(action_views(plan@) =~= enable_plan(root@, name@, seen));
    plan
}

/// What disabling a mod takes.
pub fn plan_disable(root: &str, name: &str, seen: Presence) -> (r: Vec<Action>)
    ensures
        action_views(r@) == disable_plan(root@, name@, seen),
{
    let mut plan: Vec<Action> = Vec::new();
    plan.push(Action::CreateDisabledDir { path: disabled_dir(root) });
    if seen.in_mods {
        plan.push(
            Action::MoveToDisabled {
                from: mod_dir(root, name),
                to: disabled_mod_dir(root, name),
            },
        );
    }
    assert(action_views(plan@) =~= disable_plan(root@, name@, seen));
    plan
}

/// What removing a mod takes.
pub fn plan_uninstall(root: &str, name: &str, seen: Presence) -> (r: Vec<Action>)
    ensures
        action_views(r@) == uninstall_plan(root@, name@, seen),
{
    let mut plan: Vec<Action> = Vec::new();
    if seen.in_mods {
        plan.push(Action::RemoveFromMods { path: mod_dir(root, name) });
    }
    if seen.in_disabled {
        plan.push(Action::RemoveFromDisabled { path: disabled_mod_dir(root, name) });
    }
    assert(action_views(plan@) =~= uninstall_plan(root@, name@, seen));
    plan
}

/// What the disk shows once a mod was enabled.
pub open spec fn after_enable(root: Seq<char>, name: Seq<char>, seen: Presence) -> Presence {
    seen.after_all(enable_plan(root, name, seen))
}

/// What the disk shows once a mod was disabled.
pub open spec fn after_disable(root: Seq<char>, name: Seq<char>, seen: Presence) -> Presence {
    seen.after_all(disable_plan(root, name, seen))
}

/// What the disk shows once a mod was removed.
pub open spec fn after_uninstall(root: Seq<char>, name: Seq<char>, seen: Presence) -> Presence {
    seen.after_all(uninstall_plan(root, name, seen))
}

/// What each of the three operations leaves on disk, case by case.
pub proof fn lemma_plans_effect(root: Seq<char>, name: Seq<char>, seen: Presence)
    ensures
        after_enable(root, name, seen) == if seen.in_disabled {
            Presence { in_mods: true, in_disabled: false }
        } else {
            seen
        },
        after_disable(root, name, seen) == if seen.in_mods {
            Presence { in_mods: false, in_disabled: true }
        } else {
            seen
        },
        after_uninstall(root, name, seen) == (Presence { in_mods: false, in_disabled: false }),
{
    reveal_with_fuel(Presence::after_all, 3);
    let e = enable_plan(root, name, seen);
    let d = disable_plan(root, name, seen);
    let u = uninstall_plan(root, name, seen);
    if seen.in_disabled {
        assert(e.drop_last() =~= Seq::<ActionView>::empty());
    }
    if seen.in_mods {
        assert(d.drop_last() =~= seq![d[0]]);
        assert(d.drop_last().drop_last() =~= Seq::<ActionView>::empty());
    } else {
        assert(d.drop_last() =~= Seq::<ActionView>::empty());
    }
    if seen.in_mods && seen.in_disabled {
        assert(u.drop_last() =~= seq![u[0]]);
        assert(u.drop_last().drop_last() =~= Seq::<ActionView>::empty());
    } else if seen.in_mods || seen.in_disabled {
        assert(u.drop_last() =~= Seq::<ActionView>::empty());
    }
}

/// Disabling a mod and then enabling it leaves it enabled just when it was
/// enabled before, for every mod that did not lie under `Disabled` to begin
/// with. A mod that was not installed is in neither place before and after,
/// and neither operation moves anything for it.
pub proof fn lemma_disable_then_enable(root: Seq<char>, name: Seq<char>, seen: Presence)
    requires
        !seen.in_disabled,
    ensures
        after_enable(root, name, after_disable(root, name, seen)).enabled() == seen.enabled(),
        after_enable(root, name, after_disable(root, name, seen)) == seen,
        !seen.installed() ==> after_disable(root, name, seen) == seen && enable_plan(
            root,
            name,
            seen,
        ) == Seq::<ActionView>::empty() && disable_plan(root, name, seen) == seq![
            ActionView::CreateDisabledDir { path: disabled_dir_of(root) },
        ],
{
    lemma_plans_effect(root, name, seen);
    lemma_plans_effect(root, name, after_disable(root, name, seen));
}

/// Once a mod was removed it is not installed, wherever its folder lay
/// before, and removing it again does nothing.
pub proof fn lemma_uninstall_idempotent(root: Seq<char>, name: Seq<char>, seen: Presence)
    ensures
        !after_uninstall(root, name, seen).installed(),
        uninstall_plan(root, name, after_uninstall(root, name, seen)) == Seq::<
            ActionView,
        >::empty(),
        after_uninstall(root, name, after_uninstall(root, name, seen)) == after_uninstall(
            root,
            name,
            seen,
        ),
{
    lemma_plans_effect(root, name, seen);
    lemma_plans_effect(root, name, after_uninstall(root, name, seen));
}

/// Disabling a mod that is enabled leaves it installed and not enabled.
pub proof fn lemma_disable_enabled(root: Seq<char>, name: Seq<char>, seen: Presence)
    requires
        seen.enabled(),
    ensures
        after_disable(root, name, seen).installed(),
        !after_disable(root, name, seen).enabled(),
{
    lemma_plans_effect(root, name, seen);
}

/// Enabling a mod that lies under `Disabled` leaves it enabled.
pub proof fn lemma_enable_disabled(root: Seq<char>, name: Seq<char>, seen: Presence)
    requires
        seen.in_disabled,
    ensures
        after_enable(root, name, seen).enabled(),
{
    lemma_plans_effect(root, name, seen);
}

} // verus!
