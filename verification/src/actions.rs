//! What the event handler asks of its caller.
//!
//! The handler never touches hardware, the network, the window or the
//! platform client. Each of its functions returns the list of things to do,
//! in the order in which they are to be done.

use vstd::prelude::*;
use crate::bridge::{BridgeRequest, BridgeRequestView};
use crate::events::RunnerEvent;

verus! {

/// One thing to do.
#[derive(Clone, Debug)]
pub enum Action {
    /// Keep the handle of the source that was just opened, as the newest of
    /// the handles of `source_id`.
    StoreHandle { source_id: u32 },
    /// Close the newest handle of `source_id`, if there is one.
    ReleaseHandle { source_id: u32 },
    /// Carry out a request of the bridge.
    Bridge(BridgeRequest),
    /// Apply force feedback through the first gamepad handle of `source_id`.
    Rumble { source_id: u32, low_frequency: u16, high_frequency: u16, duration_ms: u32 },
    /// Open a URL of the platform client and report the outcome to
    /// `EventHandler::on_steam_url_opened`.
    OpenSteamUrl { url: String, activating: bool },
    /// Ask the window for a redraw.
    Redraw,
    /// Send an event to the window.
    Window(RunnerEvent),
    /// Tell the user that keyboard and mouse emulation is on, unless the
    /// notice is showing already.
    ShowKbmNotice,
    /// Switch continuous redraw after `delay_ms` milliseconds.
    SetContinuousRedraw { on: bool, delay_ms: u32 },
    /// Install the overlay notifier in the platform client after `delay_secs` seconds.
    InjectOverlayNotifier { delay_secs: u32 },
}

/// The contents of an [`Action`].
pub enum ActionView {
    StoreHandle { source_id: u32 },
    ReleaseHandle { source_id: u32 },
    Bridge(BridgeRequestView),
    Rumble { source_id: u32, low_frequency: u16, high_frequency: u16, duration_ms: u32 },
    OpenSteamUrl { url: Seq<char>, activating: bool },
    Redraw,
    Window(RunnerEvent),
    ShowKbmNotice,
    SetContinuousRedraw { on: bool, delay_ms: u32 },
    InjectOverlayNotifier { delay_secs: u32 },
}

impl View for Action {
    type V = ActionView;

    open spec fn view(&self) -> ActionView {
        match *self {
            Action::StoreHandle { source_id } => ActionView::StoreHandle { source_id },
            Action::ReleaseHandle { source_id } => ActionView::ReleaseHandle { source_id },
            Action::Bridge(r) => ActionView::Bridge(r@),
            Action::Rumble { source_id, low_frequency, high_frequency, duration_ms } => {
                ActionView::Rumble { source_id, low_frequency, high_frequency, duration_ms }
            },
            Action::OpenSteamUrl { url, activating } => ActionView::OpenSteamUrl {
                url: url@,
                activating,
            },
            Action::Redraw => ActionView::Redraw,
            Action::Window(e) => ActionView::Window(e),
            Action::ShowKbmNotice => ActionView::ShowKbmNotice,
            Action::SetContinuousRedraw { on, delay_ms } => ActionView::SetContinuousRedraw {
                on,
                delay_ms,
            },
            Action::InjectOverlayNotifier { delay_secs } => ActionView::InjectOverlayNotifier {
                delay_secs,
            },
        }
    }
}

/// The contents of each action, in order.
pub open spec fn action_views(actions: Seq<Action>) -> Seq<ActionView> {
    actions.map_values(|a: Action| a@)
}

/// Appends an action; the contents grow by its contents.
pub fn push_action(actions: &mut Vec<Action>, a: Action)
    ensures
        action_views(final(actions)@) == action_views(old(actions)@).push(a@),
{
    actions.push(a);
    assert(action_views(final(actions)@) =~= action_views(old(actions)@).push(a@));
}

/// An empty list of actions.
pub fn no_actions() -> (r: Vec<Action>)
    ensures
        action_views(r@) == Seq::<ActionView>::empty(),
{
    let r: Vec<Action> = Vec::new();
    assert(action_views(r@) =~= Seq::<ActionView>::empty());
    r
}

} // verus!
