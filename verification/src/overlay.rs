//! The overlay window and the hotkey that shows and hides it.
use vstd::prelude::*;
use vstd::string::*;

verus! {

/// The hotkey before any other is chosen.
pub const DEFAULT_HOTKEY: &'static str = "Shift+Tab";

/// What to do about a hotkey that was chosen.
#[derive(Clone, Copy)]
pub enum HotkeyPlan {
    /// It could not be read: nothing changes.
    Refuse,
    /// It is the current one already: nothing changes.
    Keep,
    /// Register it; `release_previous` says whether there is one to be released thereafter.
    Register { release_previous: bool },
}

/// What to do about a hotkey that was chosen: whether it could be read, whether there is a
/// current one, and whether it is the same.
pub open spec fn hotkey_plan(parsed: bool, any_current: bool, same: bool) -> HotkeyPlan {
    if !parsed {
        HotkeyPlan::Refuse
    } else if any_current && same {
        HotkeyPlan::Keep
    } else {
        HotkeyPlan::Register { release_previous: any_current }
    }
}

/// What to do about a hotkey that was chosen: whether it could be read, whether there is a
/// current one, and whether it is the same.
pub fn plan_hotkey(parsed: bool, any_current: bool, same: bool) -> (r: HotkeyPlan)
    ensures
        r == hotkey_plan(parsed, any_current, same),
{
    if !parsed {
        HotkeyPlan::Refuse
    } else if any_current && same {
        HotkeyPlan::Keep
    } else {
        HotkeyPlan::Register { release_previous: any_current }
    }
}

/// What to do once registering a hotkey was tried.
#[derive(Clone, Copy)]
pub enum AfterRegister {
    /// It failed: the stored hotkey stays and nothing is released.
    KeepStored,
    /// Store the new hotkey, and release the one before it where there is one.
    StoreNew { release_previous: bool },
}

/// What to do once registering a hotkey was tried: whether it worked, and whether there is one
/// to be released.
pub open spec fn register_outcome(worked: bool, release_previous: bool) -> AfterRegister {
    if worked {
        AfterRegister::StoreNew { release_previous }
    } else {
        AfterRegister::KeepStored
    }
}

/// What to do once registering a hotkey was tried: whether it worked, and whether there is one
/// to be released.
pub fn after_register(worked: bool, release_previous: bool) -> (r: AfterRegister)
    ensures
        r == register_outcome(worked, release_previous),
{
    if worked {
        AfterRegister::StoreNew { release_previous }
    } else {
        AfterRegister::KeepStored
    }
}

/// How choosing a hotkey has ended.
pub enum HotkeyEnd {
    /// The hotkey could not be read, for this reason.
    Unreadable(String),
    /// The hotkey could not be registered, for this reason.
    NotRegistered(String),
    /// The hotkey is the current one.
    Current,
}

/// What is answered to the choice of a hotkey: the choice as it came, or why it failed.
pub fn hotkey_answer(accelerator: String, end: HotkeyEnd) -> (r: Result<String, String>)
    ensures
        match end {
            HotkeyEnd::Unreadable(reason) => r is Err && r->Err_0@ == "invalid hotkey: "@ + reason@,
            HotkeyEnd::NotRegistered(reason) => r == Err::<String, String>(reason),
            HotkeyEnd::Current => r == Ok::<String, String>(accelerator),
        },
{
    match end {
        HotkeyEnd::Unreadable(reason) => {
            let mut message = "invalid hotkey: ".to_owned();
            message.append(&reason);
            Err(message)
        },
        HotkeyEnd::NotRegistered(reason) => Err(reason),
        HotkeyEnd::Current => Ok(accelerator),
    }
}

/// A call to the system's table of hotkeys.
pub enum HotkeyCall<K> {
    Register(K),
    Release(K),
}

/// What becomes of the choice of a hotkey: whether it is answered well, which hotkey is stored
/// then, and which calls were made, in order.
pub struct HotkeyChange<K> {
    pub ok: bool,
    pub stored: Option<K>,
    pub calls: Seq<HotkeyCall<K>>,
}

/// What becomes of the choice of a hotkey when the plan is followed: `current` is stored,
/// `chosen` is what was read, and `works` says whether it can be registered.
pub open spec fn hotkey_change<K>(
    current: Option<K>,
    chosen: Option<K>,
    works: bool,
) -> HotkeyChange<K> {
    match hotkey_plan(chosen is Some, current is Some, current == chosen) {
        HotkeyPlan::Refuse => HotkeyChange { ok: false, stored: current, calls: seq![] },
        HotkeyPlan::Keep => HotkeyChange { ok: true, stored: current, calls: seq![] },
        HotkeyPlan::Register { release_previous } => {
            let tried = seq![HotkeyCall::Register(chosen->Some_0)];
            match register_outcome(works, release_previous) {
                AfterRegister::KeepStored => HotkeyChange {
                    ok: false,
                    stored: current,
                    calls: tried,
                },
                AfterRegister::StoreNew { release_previous: true } => HotkeyChange {
                    ok: true,
                    stored: chosen,
                    calls: tried.push(HotkeyCall::Release(current->Some_0)),
                },
                AfterRegister::StoreNew { release_previous: false } => HotkeyChange {
                    ok: true,
                    stored: chosen,
                    calls: tried,
                },
            }
        },
    }
}

/// Choosing a hotkey fails exactly if it cannot be read, or is not the current one and cannot
/// be registered; then the stored one stays and nothing is released. Otherwise the chosen one
/// is stored: without any call where it was the current one already, else after it was
/// registered, and only then is the one before it released.
pub proof fn hotkeys_change_safely<K>(current: Option<K>, chosen: Option<K>, works: bool)
    ensures
        ({
            let change = hotkey_change(current, chosen, works);
            &&& !change.ok <==> chosen is None || (chosen != current && !works)
            &&& change.stored == if change.ok {
                chosen
            } else {
                current
            }
            &&& forall|k: K|
                !change.ok ==> !#[trigger] change.calls.contains(HotkeyCall::Release(k))
            &&& change.ok && chosen == current ==> change.calls == Seq::<HotkeyCall<K>>::empty()
            &&& change.ok && chosen != current ==> change.calls == match current {
                Some(old_key) => seq![
                    HotkeyCall::Register(chosen->Some_0),
                    HotkeyCall::Release(old_key),
                ],
                None => seq![HotkeyCall::Register(chosen->Some_0)],
            }
        }),
{
    let change = hotkey_change(current, chosen, works);
    if change.ok && chosen != current && current is Some {
        assert(change.calls =~= seq![
            HotkeyCall::Register(chosen->Some_0),
            HotkeyCall::Release(current->Some_0),
        ]);
    }
}

/// What to do with the window.
#[derive(Clone, Copy)]
pub enum WindowStep {
    Nothing,
    Hide,
    /// Show it and give it the focus.
    Show,
}

/// What a hotkey does: only pressing it counts, not releasing it, and only where it is the
/// current one; it hides the window where it is visible and shows it where it is not.
pub open spec fn window_step(pressed: bool, is_current: bool, visible: bool) -> WindowStep {
    if !pressed || !is_current {
        WindowStep::Nothing
    } else if visible {
        WindowStep::Hide
    } else {
        WindowStep::Show
    }
}

/// What a hotkey does to the window.
pub fn on_hotkey(pressed: bool, is_current: bool, visible: bool) -> (r: WindowStep)
    ensures
        r == window_step(pressed, is_current, visible),
{
    if !pressed || !is_current {
        WindowStep::Nothing
    } else if visible {
        WindowStep::Hide
    } else {
        WindowStep::Show
    }
}

/// Whether the window is visible after a step.
pub open spec fn visible_after(step: WindowStep, visible: bool) -> bool {
    match step {
        WindowStep::Nothing => visible,
        WindowStep::Hide => false,
        WindowStep::Show => true,
    }
}

/// Pressing the hotkey toggles the window, so that pressing it twice changes nothing; any
/// other key event leaves the window as it is.
pub proof fn hotkey_toggles(pressed: bool, is_current: bool, visible: bool)
    ensures
        ({
            let once = visible_after(window_step(pressed, is_current, visible), visible);
            let twice = visible_after(window_step(pressed, is_current, once), once);
            &&& (once != visible) == (pressed && is_current)
            &&& twice == visible
        }),
{
}

} // verus!
