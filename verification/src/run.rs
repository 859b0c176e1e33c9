//! Decisions of the main loop: what each input calls for, and what a changed
//! configuration calls for.
use vstd::prelude::*;
use crate::config::{Config, CookieEntry, entries_view};
use crate::dispatch::BilibiliCmd;
use crate::common::effect::opt_view;
use crate::common::event::Event;

verus! {

/// What a reloaded configuration calls for.
pub enum ReloadAction {
    /// Cookies, room or mode changed: restart the bridge.
    Restart,
    /// Title or area changed: update the room.
    Update(BilibiliCmd),
    /// Nothing that matters changed.
    Keep,
}

/// Whether two cookie lists hold the same names and values in the same order.
pub fn same_cookies(a: &Vec<CookieEntry>, b: &Vec<CookieEntry>) -> (r: bool)
    ensures
        r == (entries_view(a@) == entries_view(b@)),
{
    if a.len() != b.len() {
        assert(entries_view(a@).len() != entries_view(b@).len());
        return false;
    }
    let mut i: usize = 0;
    while i < a.len()
        invariant
            a.len() == b.len(),
            0 <= i <= a.len(),
            forall|j: int| 0 <= j < i ==> entries_view(a@)[j] == entries_view(b@)[j],
        decreases a.len() - i,
    {
        if a[i].name != b[i].name || a[i].value != b[i].value {
            assert(entries_view(a@)[i as int] != entries_view(b@)[i as int]);
            return false;
        }
        i = i + 1;
    }
    assert(entries_view(a@) =~= entries_view(b@));
    true
}

/// The room update a changed title or area calls for: the new title (none
/// when empty) and the new area.
pub open spec fn room_update_of(cfg: Config) -> (u64, Option<Seq<char>>, Option<Seq<char>>) {
    (
        cfg.live.room_id,
        if cfg.live.title@.len() == 0 {
            None
        } else {
            Some(cfg.live.title@)
        },
        Some(cfg.live.area_v2@),
    )
}

/// Compares the configuration re-read after the web interface changed it with
/// the one running: a change of cookies, room or mode needs a restart; else a
/// change of title or area updates the room; else nothing.
pub fn reload_action(base: &Config, cfg: &Config) -> (r: ReloadAction)
    ensures
        ({
            let restart = entries_view(cfg.auth.cookies@) != entries_view(base.auth.cookies@)
                || cfg.live.room_id != base.live.room_id || cfg.live.live_mode != base.live.live_mode;
            let update = cfg.live.title@ != base.live.title@ || cfg.live.area_v2@ != base.live.area_v2@;
            &&& restart ==> r is Restart
            &&& !restart && update ==> (r matches ReloadAction::Update(
                BilibiliCmd::UpdateRoom { room_id, title, area },
            ) && (room_id, opt_view(title), opt_view(area)) == room_update_of(*cfg))
            &&& !restart && !update ==> r is Keep
        }),
{
    if !same_cookies(&cfg.auth.cookies, &base.auth.cookies) || cfg.live.room_id != base.live.room_id
        || cfg.live.live_mode != base.live.live_mode {
        return ReloadAction::Restart;
    }
    if cfg.live.title != base.live.title || cfg.live.area_v2 != base.live.area_v2 {
        let title = if cfg.live.title.as_str().is_empty() {
            None
        } else {
            Some(cfg.live.title.clone())
        };
        return ReloadAction::Update(
            BilibiliCmd::UpdateRoom {
                room_id: cfg.live.room_id,
                title,
                area: Some(cfg.live.area_v2.clone()),
            },
        );
    }
    ReloadAction::Keep
}

/// What wakes the main loop.
pub enum LoopInput {
    /// A reload signal (SIGHUP): the web interface toggled the DNS redirection.
    Reload,
    /// The next event, or `None` when every sender is gone.
    Next(Option<Event>),
    /// Ctrl+C.
    Interrupt,
    /// A termination signal (SIGTERM).
    Terminate,
}

/// What the main loop does next.
pub enum LoopAction {
    /// Toggle the DNS redirection, then go on.
    ToggleRedirect,
    /// Hand the event to the state machine and route its effects, then go on.
    Dispatch(Event),
    /// The event channel closed: stop without the shutdown sequence.
    Exit,
    /// Run the shutdown sequence (DNS cleanup, then the `Shutdown` event), then stop.
    Shutdown,
}

/// The main loop's decision for one input.
pub fn loop_step(input: LoopInput) -> (a: LoopAction)
    ensures
        input is Reload ==> a is ToggleRedirect,
        input matches LoopInput::Next(Some(e)) ==> a == LoopAction::Dispatch(e),
        input matches LoopInput::Next(None) ==> a is Exit,
        input is Interrupt || input is Terminate ==> a is Shutdown,
{
    match input {
        LoopInput::Reload => LoopAction::ToggleRedirect,
        LoopInput::Next(Some(e)) => LoopAction::Dispatch(e),
        LoopInput::Next(None) => LoopAction::Exit,
        LoopInput::Interrupt => LoopAction::Shutdown,
        LoopInput::Terminate => LoopAction::Shutdown,
    }
}

} // verus!
