use vstd::prelude::*;

verus! {

/// Which of the popup's hooks a state change calls for.
#[derive(Debug, Clone, Copy, PartialEq, Eq, Structural)]
pub enum Hook {
    /// The popup went from closed to open: the `on_open` hook fires.
    Open,
    /// The popup went from open to closed: the `on_close` hook fires.
    Close,
    /// The popup kept its state: no hook fires.
    Quiet,
}

/// The hook called for when a popup last seen as `previous` is now `opened`.
pub open spec fn hook_for(previous: bool, opened: bool) -> Hook {
    if previous == opened {
        Hook::Quiet
    } else if opened {
        Hook::Open
    } else {
        Hook::Close
    }
}

/// What the popup widget remembers between two updates: whether it was open
/// the last time it looked.
#[derive(Debug, Clone, Copy, PartialEq, Eq, Structural)]
pub struct PopupState {
    pub previous_opened: bool,
}

impl Default for PopupState {
    /// A fresh popup has not been seen open yet.
    fn default() -> (r: Self)
        ensures
            r.previous_opened == false,
    {
        PopupState { previous_opened: false }
    }
}

impl PopupState {
    /// Records that the popup is now `opened` and returns the hook that this
    /// change calls for: `Open` on a closed-to-open change, `Close` on an
    /// open-to-closed change, `Quiet` when nothing changed, whatever made
    /// the change.
    pub fn sync(&mut self, opened: bool) -> (r: Hook)
        ensures
            r == hook_for(old(self).previous_opened, opened),
            final(self).previous_opened == opened,
    {
        let r = if self.previous_opened == opened {
            Hook::Quiet
        } else if opened {
            Hook::Open
        } else {
            Hook::Close
        };
        self.previous_opened = opened;
        r
    }
}

/// The state the popup is last seen in after it has been seen as each of
/// `seen`, in order, starting from `start`.
pub open spec fn last_seen(start: bool, seen: Seq<bool>) -> bool {
    if seen.len() == 0 {
        start
    } else {
        seen.last()
    }
}

/// The hooks that a popup starting as `start` calls for when it is seen as
/// each of `seen`, in order, one hook per update.
pub open spec fn hooks_of_run(start: bool, seen: Seq<bool>) -> Seq<Hook>
    decreases seen.len(),
{
    if seen.len() == 0 {
        Seq::empty()
    } else {
        let before = seen.drop_last();
        hooks_of_run(start, before).push(hook_for(last_seen(start, before), seen.last()))
    }
}

/// How many times `h` occurs in `hooks`.
pub open spec fn count_hook(hooks: Seq<Hook>, h: Hook) -> int
    decreases hooks.len(),
{
    if hooks.len() == 0 {
        0
    } else {
        count_hook(hooks.drop_last(), h) + if hooks.last() == h {
            1int
        } else {
            0int
        }
    }
}

/// 1 for an open popup, 0 for a closed one.
pub open spec fn open_count(opened: bool) -> int {
    if opened {
        1
    } else {
        0
    }
}

/// Seeing a popup in the state it was last seen in fires no hook, so a
/// second update with an unchanged state is silent.
pub proof fn lemma_unchanged_state_is_quiet(opened: bool)
    ensures
        hook_for(opened, opened) == Hook::Quiet,
{
}

/// Over any run of updates, the open and close hooks balance: the number of
/// `Open` hooks minus the number of `Close` hooks is the change in the
/// popup's state from the start to the end of the run. In particular, from a
/// closed start the hooks alternate: every prefix of the run holds as many
/// `Close` as `Open` hooks, or one `Open` more.
pub proof fn lemma_hooks_balance(start: bool, seen: Seq<bool>)
    ensures
        hooks_of_run(start, seen).len() == seen.len(),
        count_hook(hooks_of_run(start, seen), Hook::Open) - count_hook(
            hooks_of_run(start, seen),
            Hook::Close,
        ) == open_count(last_seen(start, seen)) - open_count(start),
        !start ==> 0 <= count_hook(hooks_of_run(start, seen), Hook::Open) - count_hook(
            hooks_of_run(start, seen),
            Hook::Close,
        ) <= 1,
    decreases seen.len(),
{
    if seen.len() > 0 {
        let before = seen.drop_last();
        lemma_hooks_balance(start, before);
        let hs = hooks_of_run(start, seen);
        assert(hs.drop_last() =~= hooks_of_run(start, before));
    }
}

} // verus!
