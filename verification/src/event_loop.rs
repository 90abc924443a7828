//! The decisions of the event loop: what an event of the window means for the
//! loop, and what one drain of the two queues does to the user interface.

use vstd::prelude::*;

verus! {

/// An event of the window toolkit, as far as the loop tells events apart.
#[derive(Debug, Clone, Copy, PartialEq, Eq)]
pub enum LoopEvent {
    /// The loop has started.
    Started,
    /// The user asked to close the window.
    CloseRequested,
    /// All pending events of this turn are handled.
    EventsCleared,
    /// Any other event.
    Other,
}

/// What the loop does on an event.
#[derive(Debug, Clone, Copy, PartialEq, Eq)]
pub enum Turn {
    /// Nothing; poll again.
    Idle,
    /// Drain both queues, then poll again.
    Drain,
    /// Leave the loop.
    Exit,
}

/// One thing done to the user interface.
#[derive(Debug, PartialEq, Eq)]
pub enum UiAction {
    /// Reload the user interface by running this script in it.
    Reload(String),
    /// Run a delivery script in the user interface.
    EvaluateScript(String),
    /// Ask the window to redraw.
    RequestRedraw,
}

/// A [`UiAction`] as a mathematical value.
pub enum UiActionView {
    Reload(Seq<char>),
    EvaluateScript(Seq<char>),
    RequestRedraw,
}

impl View for UiAction {
    type V = UiActionView;

    open spec fn view(&self) -> UiActionView {
        match *self {
            UiAction::Reload(script) => UiActionView::Reload(script@),
            UiAction::EvaluateScript(script) => UiActionView::EvaluateScript(script@),
            UiAction::RequestRedraw => UiActionView::RequestRedraw,
        }
    }
}

/// What the loop does on each event: a close request ends it, the end of a
/// turn's events drains the queues, and nothing else has an effect.
pub open spec fn turn_of(event: LoopEvent) -> Turn {
    match event {
        LoopEvent::CloseRequested => Turn::Exit,
        LoopEvent::EventsCleared => Turn::Drain,
        _ => Turn::Idle,
    }
}

/// The script that reloads the user interface.
pub open spec fn reload_script() -> Seq<char> {
    "import.meta.hot.invalidate()"@
}

/// The actions of one drain. Every reload signal and then every payload, in
/// the order of the queue, gives two actions: a reload with the reload
/// script, or the payload to run, and then a redraw.
pub open spec fn drain_plan(reload_signals: nat, payloads: Seq<Seq<char>>) -> Seq<UiActionView> {
    Seq::new(
        2 * (reload_signals + payloads.len()),
        |i: int|
            if i % 2 == 1 {
                UiActionView::RequestRedraw
            } else if i / 2 < reload_signals {
                UiActionView::Reload(reload_script())
            } else {
                UiActionView::EvaluateScript(payloads[i / 2 - reload_signals])
            },
    )
}

/// The actions as mathematical values.
pub open spec fn actions_view(actions: Seq<UiAction>) -> Seq<UiActionView> {
    actions.map_values(|a: UiAction| a@)
}

/// The payloads as texts.
pub open spec fn payload_texts(payloads: Seq<String>) -> Seq<Seq<char>> {
    payloads.map_values(|p: String| p@)
}

/// Decides what the loop does on an event.
pub fn turn(event: LoopEvent) -> (t: Turn)
    ensures
        t == turn_of(event),
{
    match event {
        LoopEvent::CloseRequested => Turn::Exit,
        LoopEvent::EventsCleared => Turn::Drain,
        _ => Turn::Idle,
    }
}

/// Plans one drain: `reload_signals` is the number of reload signals taken
/// from the notifier's queue, `payloads` the scripts taken from the outbound
/// queue, oldest first.
pub fn drain(reload_signals: usize, payloads: &[String]) -> (actions: Vec<UiAction>)
    ensures
        actions_view(actions@) == drain_plan(reload_signals as nat, payload_texts(payloads@)),
{
    let ghost plan = drain_plan(reload_signals as nat, payload_texts(payloads@));
    let mut actions: Vec<UiAction> = Vec::new();
    let mut i: usize = 0;
    while i < reload_signals
        invariant
            i <= reload_signals,
            plan == drain_plan(reload_signals as nat, payload_texts(payloads@)),
            actions.len() == 2 * i,
            forall|k: int| 0 <= k < actions.len() ==> (#[trigger] actions@[k])@ == plan[k],
        decreases reload_signals - i,
    {
        actions.push(UiAction::Reload(String::from_str("import.meta.hot.invalidate()")));
        actions.push(UiAction::RequestRedraw);
        i = i + 1;
    }
    let mut j: usize = 0;
    while j < payloads.len()
        invariant
            j <= payloads.len(),
            plan == drain_plan(reload_signals as nat, payload_texts(payloads@)),
            actions.len() == 2 * (reload_signals + j),
            forall|k: int| 0 <= k < actions.len() ==> (#[trigger] actions@[k])@ == plan[k],
        decreases payloads.len() - j,
    {
        actions.push(UiAction::EvaluateScript(payloads[j].clone()));
        actions.push(UiAction::RequestRedraw);
        j = j + 1;
    }
    assert(actions_view(actions@) =~= plan);
    actions
}

} // verus!
