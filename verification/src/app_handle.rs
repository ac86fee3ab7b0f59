//! The coordinator: the live windows, the pending timers, and the decisions
//! that each event calls for.

use crate::event::{
    forwarded, is_ignored, AppUpdateEvent, UpdateAction, UserEvent, WindowAction, WindowEvent,
};
use crate::queue::EventQueue;
use crate::timer::{
    due_tokens, fired_at, schedules, ControlFlow, Timer, TimerRegistry,
};
use crate::window::{
    attributes_for, closed, detached, is_open, live_ids, remodified, rescaled, window_attributes,
    Platform, Scalar, WindowEntry, WindowId, WindowRegistry,
};
use vstd::prelude::*;

verus! {

/// What an idle pass owes: the notifications to deliver, the oldest first,
/// and then the windows to run a post-update pass on.
#[derive(Debug, PartialEq, Eq)]
pub struct IdlePass<N> {
    pub notify: Vec<N>,
    pub process_update: Vec<WindowId>,
}

/// What a wake for timers owes: the timers whose actions are to be run, the
/// earliest deadline first, then the windows to run a post-update pass on,
/// then what to tell the event loop.
#[derive(Debug, PartialEq, Eq)]
pub struct TimerPass<A> {
    pub fired: Vec<Timer<A>>,
    pub process_update: Vec<WindowId>,
    pub control_flow: ControlFlow,
}

/// How the second step of a close ended.
#[derive(Debug, PartialEq, Eq)]
pub struct CloseOutcome<P, W> {
    /// The entry that left the registry, if the window was live.
    pub entry: Option<WindowEntry<P, W>>,
    /// Whether the event loop is to exit.
    pub exit: bool,
}

/// What is owed after an event from outside the platform.
#[derive(Debug, PartialEq, Eq)]
pub enum UserAction<V, A, N> {
    /// Apply these requests, in this order, one by one.
    Updates(Vec<AppUpdateEvent<V, A>>),
    /// Carry out this idle pass.
    Idle(IdlePass<N>),
    /// Have the event loop exit.
    Exit,
}

/// What is owed to the window `id` after `event`: nothing where `id` names no
/// live window, or one that has begun to close.
pub open spec fn window_action<P, W>(
    windows: Map<u64, WindowEntry<P, W>>,
    id: WindowId,
    event: WindowEvent,
) -> WindowAction {
    if is_open(windows, id) {
        forwarded(event, windows[id.0].scale)
    } else {
        WindowAction::Nothing
    }
}

/// The windows after `event` has been dispatched to `id`: as they were where
/// `id` names no live window, or one that has begun to close.
pub open spec fn windows_after<P, W>(
    windows: Map<u64, WindowEntry<P, W>>,
    id: WindowId,
    event: WindowEvent,
) -> Map<u64, WindowEntry<P, W>> {
    if is_open(windows, id) {
        match event {
            WindowEvent::CloseRequested | WindowEvent::Destroyed => detached(windows, id),
            WindowEvent::ModifiersChanged(modifiers) => remodified(windows, id, modifiers),
            WindowEvent::ScaleFactorChanged(scale) => rescaled(windows, id, scale),
            _ => windows,
        }
    } else {
        windows
    }
}

/// Whether the event loop is to exit once a close has left `remaining`
/// windows.
pub open spec fn exits_after_close(platform: Platform, remaining: nat) -> bool {
    platform == Platform::Windowed && remaining == 0
}

/// The live windows and the pending timers of one application.
pub struct ApplicationHandle<P, W, A> {
    pub windows: WindowRegistry<P, W>,
    pub timers: TimerRegistry<A>,
    pub platform: Platform,
}

impl<P, W, A> ApplicationHandle<P, W, A> {
    /// A coordinator without windows or timers.
    pub fn new(platform: Platform) -> (handle: Self)
        ensures
            handle.windows@ == Map::<u64, WindowEntry<P, W>>::empty(),
            handle.timers@ == Map::<u64, Timer<A>>::empty(),
            handle.platform == platform,
    {
        ApplicationHandle { windows: WindowRegistry::new(), timers: TimerRegistry::new(), platform }
    }

    /// Decides what an event from outside the platform calls for. Requests
    /// and notifications are taken from their queues in one step each, which
    /// leaves the queue empty for what arrives meanwhile.
    pub fn handle_user_event<V, N>(
        &self,
        event: UserEvent,
        updates: &mut EventQueue<AppUpdateEvent<V, A>>,
        notifications: &mut EventQueue<N>,
    ) -> (action: UserAction<V, A, N>)
        ensures
            match event {
                UserEvent::AppUpdate => {
                    &&& action matches UserAction::Updates(batch)
                    &&& batch@ == old(updates)@
                    &&& final(updates)@ == Seq::<AppUpdateEvent<V, A>>::empty()
                    &&& final(notifications)@ == old(notifications)@
                },
                UserEvent::Idle => {
                    &&& action matches UserAction::Idle(pass)
                    &&& pass.notify@ == old(notifications)@
                    &&& live_ids(self.windows@, pass.process_update@)
                    &&& final(notifications)@ == Seq::<N>::empty()
                    &&& final(updates)@ == old(updates)@
                },
                UserEvent::QuitApp => {
                    &&& action is Exit
                    &&& final(updates)@ == old(updates)@
                    &&& final(notifications)@ == old(notifications)@
                },
            },
    {
        match event {
            UserEvent::AppUpdate => UserAction::Updates(updates.take_all()),
            UserEvent::Idle => UserAction::Idle(self.idle(notifications)),
            UserEvent::QuitApp => UserAction::Exit,
        }
    }

    /// Applies one request to the application and says what is owed for it.
    pub fn handle_update_event<V>(&mut self, event: AppUpdateEvent<V, A>) -> (action: UpdateAction<
        V,
    >)
        ensures
            final(self).platform == old(self).platform,
            match event {
                AppUpdateEvent::NewWindow { view_fn, config } => {
                    &&& action == (UpdateAction::BuildWindow {
                        view_fn,
                        attributes: attributes_for(config, old(self).platform),
                    })
                    &&& final(self).windows@ == old(self).windows@
                    &&& final(self).timers@ == old(self).timers@
                },
                AppUpdateEvent::CloseWindow { window_id } => {
                    &&& action == if is_open(old(self).windows@, window_id) {
                        UpdateAction::<V>::Teardown(window_id)
                    } else {
                        UpdateAction::<V>::Nothing
                    }
                    &&& final(self).windows@ == detached(old(self).windows@, window_id)
                    &&& final(self).timers@ == old(self).timers@
                },
                AppUpdateEvent::RequestTimer { timer } => {
                    &&& action matches UpdateAction::SetControlFlow(flow)
                    &&& schedules(final(self).timers@, flow)
                    &&& final(self).timers@ == old(self).timers@.insert(timer.token.0, timer)
                    &&& final(self).windows@ == old(self).windows@
                },
                AppUpdateEvent::MenuAction { window_id, action_id } => {
                    &&& action == if is_open(old(self).windows@, window_id) {
                        (UpdateAction::<V>::MenuAction { window_id, action_id })
                    } else {
                        UpdateAction::<V>::Nothing
                    }
                    &&& final(self).windows@ == old(self).windows@
                    &&& final(self).timers@ == old(self).timers@
                },
            },
    {
        match event {
            AppUpdateEvent::NewWindow { view_fn, config } => {
                UpdateAction::BuildWindow {
                    view_fn,
                    attributes: window_attributes(config, self.platform),
                }
            },
            AppUpdateEvent::CloseWindow { window_id } => {
                if self.close_window(window_id) {
                    UpdateAction::Teardown(window_id)
                } else {
                    UpdateAction::Nothing
                }
            },
            AppUpdateEvent::RequestTimer { timer } => {
                UpdateAction::SetControlFlow(self.request_timer(timer))
            },
            AppUpdateEvent::MenuAction { window_id, action_id } => {
                if self.windows.is_open(window_id) {
                    UpdateAction::MenuAction { window_id, action_id }
                } else {
                    UpdateAction::Nothing
                }
            },
        }
    }

    /// Dispatches an event that the platform reports of the window
    /// `window_id`. Where that names no live window, or one that has begun to
    /// close, the event is dropped: nothing changes and nothing is owed.
    pub fn handle_window_event(&mut self, window_id: WindowId, event: WindowEvent) -> (action:
        WindowAction)
        ensures
            action == window_action(old(self).windows@, window_id, event),
            final(self).windows@ == windows_after(old(self).windows@, window_id, event),
            !is_open(old(self).windows@, window_id) ==> {
                &&& action == WindowAction::Nothing
                &&& final(self).windows@ == old(self).windows@
            },
            final(self).timers@ == old(self).timers@,
            final(self).platform == old(self).platform,
    {
        let scale = match self.windows.lookup(window_id) {
            Some(entry) => {
                if entry.window.is_none() {
                    return WindowAction::Nothing;
                }
                entry.scale
            },
            None => {
                return WindowAction::Nothing;
            },
        };
        match event {
            WindowEvent::ActivationTokenDone => WindowAction::Nothing,
            WindowEvent::Resized { width, height } => WindowAction::Size { width, height, scale },
            WindowEvent::Moved { x, y } => WindowAction::Position { x, y, scale },
            WindowEvent::CloseRequested => {
                self.close_window(window_id);
                WindowAction::Teardown
            },
            WindowEvent::Destroyed => {
                self.close_window(window_id);
                WindowAction::Teardown
            },
            WindowEvent::DroppedFile => WindowAction::Nothing,
            WindowEvent::HoveredFile => WindowAction::Nothing,
            WindowEvent::HoveredFileCancelled => WindowAction::Nothing,
            WindowEvent::Focused(focused) => WindowAction::Focused(focused),
            WindowEvent::KeyboardInput => WindowAction::KeyEvent,
            WindowEvent::ModifiersChanged(modifiers) => {
                self.windows.set_modifiers(window_id, modifiers);
                WindowAction::Nothing
            },
            WindowEvent::Ime => WindowAction::Ime,
            WindowEvent::CursorMoved { position } => WindowAction::PointerMove { position, scale },
            WindowEvent::CursorEntered => WindowAction::Nothing,
            WindowEvent::CursorLeft => WindowAction::PointerLeave,
            WindowEvent::MouseWheel => WindowAction::MouseWheel,
            WindowEvent::MouseInput => WindowAction::MouseInput,
            WindowEvent::TouchpadMagnify => WindowAction::Nothing,
            WindowEvent::SmartMagnify => WindowAction::Nothing,
            WindowEvent::TouchpadRotate => WindowAction::Nothing,
            WindowEvent::TouchpadPressure => WindowAction::Nothing,
            WindowEvent::AxisMotion => WindowAction::Nothing,
            WindowEvent::Touch => WindowAction::Nothing,
            WindowEvent::ScaleFactorChanged(new_scale) => {
                self.windows.set_scale(window_id, new_scale);
                WindowAction::Scale(new_scale)
            },
            WindowEvent::ThemeChanged => WindowAction::ThemeChanged,
            WindowEvent::Occluded => WindowAction::Nothing,
            WindowEvent::MenuAction(action_id) => WindowAction::MenuAction(action_id),
            WindowEvent::RedrawRequested => WindowAction::Paint,
        }
    }

    /// Takes in the outcome of asking the platform for a window: the new
    /// window's identifier and entry, or nothing where the platform built
    /// none. A failure is dropped in silence.
    pub fn new_window(&mut self, built: Option<(WindowId, WindowEntry<P, W>)>) -> (created: bool)
        ensures
            created == built is Some,
            final(self).windows@ == match built {
                Some((id, entry)) => old(self).windows@.insert(id.0, entry),
                None => old(self).windows@,
            },
            final(self).timers@ == old(self).timers@,
            final(self).platform == old(self).platform,
    {
        self.windows.create(built)
    }

    /// The first step of closing a window: its entry gives up the platform
    /// window and stays to be found while the window is torn down. Says
    /// whether the teardown is owed, which it is once for a window: where
    /// `window_id` names no live window, or one that has begun to close,
    /// nothing changes.
    pub fn close_window(&mut self, window_id: WindowId) -> (open: bool)
        ensures
            open == is_open(old(self).windows@, window_id),
            final(self).windows@ == detached(old(self).windows@, window_id),
            final(self).timers@ == old(self).timers@,
            final(self).platform == old(self).platform,
    {
        self.windows.detach(window_id)
    }

    /// The second step of closing a window, after its teardown: the entry
    /// leaves the registry. Where that was the last window, and the platform
    /// is one on which the application ends with its last window, the event loop
    /// is to exit. Where `window_id` names no live window, nothing changes and
    /// nothing is asked for.
    pub fn finish_close(&mut self, window_id: WindowId) -> (outcome: CloseOutcome<P, W>)
        ensures
            final(self).windows@ == closed(old(self).windows@, window_id),
            outcome.entry == if old(self).windows@.contains_key(window_id.0) {
                Some(old(self).windows@[window_id.0])
            } else {
                None::<WindowEntry<P, W>>
            },
            outcome.exit == (old(self).windows@.contains_key(window_id.0) && exits_after_close(
                old(self).platform,
                final(self).windows@.len(),
            )),
            final(self).timers@ == old(self).timers@,
            final(self).platform == old(self).platform,
    {
        let entry = self.windows.remove(window_id);
        let exit = match self.platform {
            Platform::Windowed => entry.is_some() && self.windows.is_empty(),
            Platform::Resident => false,
        };
        CloseOutcome { entry, exit }
    }

    /// An idle pass: every waiting notification is taken from its queue, the
    /// oldest first, and every live window is owed a post-update pass.
    pub fn idle<N>(&self, notifications: &mut EventQueue<N>) -> (pass: IdlePass<N>)
        ensures
            pass.notify@ == old(notifications)@,
            final(notifications)@ == Seq::<N>::empty(),
            live_ids(self.windows@, pass.process_update@),
    {
        let notify = notifications.take_all();
        let process_update = self.windows.ids();
        IdlePass { notify, process_update }
    }

    /// Registers a timer and says when the event loop must wake now.
    pub fn request_timer(&mut self, timer: Timer<A>) -> (flow: ControlFlow)
        ensures
            final(self).timers@ == old(self).timers@.insert(timer.token.0, timer),
            schedules(final(self).timers@, flow),
            final(self).windows@ == old(self).windows@,
            final(self).platform == old(self).platform,
    {
        self.timers.request(timer);
        self.fire_timer()
    }

    /// When the event loop must wake for the pending timers: at the earliest
    /// deadline, or for events alone where no timer is pending.
    pub fn fire_timer(&self) -> (flow: ControlFlow)
        ensures
            schedules(self.timers@, flow),
    {
        match self.timers.compute_next_wake() {
            Some(deadline) => ControlFlow::WaitUntil(deadline),
            None => ControlFlow::Wait,
        }
    }

    /// A wake for timers at the clock reading `now`: the timers that are due
    /// leave the registry for their actions to be run. Where any fired, every
    /// live window is owed a post-update pass. The event loop is told when to
    /// wake for the timers that remain.
    pub fn handle_timer(&mut self, now: u64) -> (pass: TimerPass<A>)
        ensures
            final(self).timers@ == old(self).timers@.remove_keys(
                due_tokens(old(self).timers@, now),
            ),
            fired_at(old(self).timers@, now, pass.fired@),
            pass.fired@.len() == due_tokens(old(self).timers@, now).len(),
            if pass.fired@.len() > 0 {
                live_ids(old(self).windows@, pass.process_update@)
            } else {
                pass.process_update@ == Seq::<WindowId>::empty()
            },
            schedules(final(self).timers@, pass.control_flow),
            final(self).windows@ == old(self).windows@,
            final(self).platform == old(self).platform,
    {
        let fired = self.timers.fire_due(now);
        let process_update = if fired.len() > 0 {
            self.windows.ids()
        } else {
            Vec::new()
        };
        let control_flow = self.fire_timer();
        TimerPass { fired, process_update, control_flow }
    }
}

/// An event for an identifier that names no live window is dropped: nothing
/// is owed, no window changes, and none comes to be.
pub proof fn lemma_unknown_window_is_dropped<P, W>(
    windows: Map<u64, WindowEntry<P, W>>,
    id: WindowId,
    event: WindowEvent,
)
    requires
        !windows.contains_key(id.0),
    ensures
        window_action(windows, id, event) == WindowAction::Nothing,
        windows_after(windows, id, event) == windows,
{
}

/// Once a window has begun to close, every event for it is dropped, a second
/// request to close it among them.
pub proof fn lemma_closing_window_gets_no_event<P, W>(
    windows: Map<u64, WindowEntry<P, W>>,
    id: WindowId,
    event: WindowEvent,
)
    ensures
        !is_open(detached(windows, id), id),
        window_action(detached(windows, id), id, event) == WindowAction::Nothing,
        windows_after(detached(windows, id), id, event) == detached(windows, id),
        detached(detached(windows, id), id) == detached(windows, id),
{
    assert(detached(detached(windows, id), id) =~= detached(windows, id));
}

/// An event that is ignored by design leaves every window as it is and owes
/// nothing, whether or not its window is live.
pub proof fn lemma_ignored_event_does_nothing<P, W>(
    windows: Map<u64, WindowEntry<P, W>>,
    id: WindowId,
    event: WindowEvent,
)
    requires
        is_ignored(event),
    ensures
        window_action(windows, id, event) == WindowAction::Nothing,
        windows_after(windows, id, event) == windows,
{
}

/// No event makes a window live or takes one out: dispatching only changes
/// what is kept of the window that the event names.
pub proof fn lemma_dispatch_keeps_the_windows<P, W>(
    windows: Map<u64, WindowEntry<P, W>>,
    id: WindowId,
    event: WindowEvent,
)
    ensures
        windows_after(windows, id, event).dom() == windows.dom(),
        forall|k: u64|
            k != id.0 && #[trigger] windows.contains_key(k) ==> windows_after(windows, id, event)[k]
                == windows[k],
{
    assert(windows_after(windows, id, event).dom() =~= windows.dom());
}

/// Of two close events in a row for one identifier, the second is dropped:
/// once the first close is finished the identifier names no live window, so
/// the second owes nothing and changes nothing, and finishing it again
/// changes nothing either.
pub proof fn lemma_second_close_is_dropped<P, W>(
    windows: Map<u64, WindowEntry<P, W>>,
    id: WindowId,
    first: WindowEvent,
    second: WindowEvent,
)
    requires
        first == WindowEvent::CloseRequested || first == WindowEvent::Destroyed,
        second == WindowEvent::CloseRequested || second == WindowEvent::Destroyed,
    ensures
        ({
            let once = closed(windows_after(windows, id, first), id);
            &&& once == windows.remove(id.0)
            &&& window_action(once, id, second) == WindowAction::Nothing
            &&& windows_after(once, id, second) == once
            &&& closed(windows_after(once, id, second), id) == once
        }),
{
    let once = closed(windows_after(windows, id, first), id);
    assert(once =~= windows.remove(id.0));
    assert(closed(once, id) =~= once);
}

/// A scale that the platform reports for a live window is the scale by which
/// that window's later sizes and positions are converted.
pub proof fn lemma_reported_scale_is_used<P, W>(
    windows: Map<u64, WindowEntry<P, W>>,
    id: WindowId,
    scale: Scalar,
    width: u32,
    height: u32,
)
    requires
        is_open(windows, id),
    ensures
        window_action(
            windows_after(windows, id, WindowEvent::ScaleFactorChanged(scale)),
            id,
            WindowEvent::Resized { width, height },
        ) == (WindowAction::Size { width, height, scale }),
{
}

} // verus!
