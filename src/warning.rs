use vstd::prelude::*;

verus! {

/// Wait before the banner starts to appear, in milliseconds.
pub const INIT_DELAY_MS: u64 = 100;

/// Length of the fade-in, in milliseconds.
pub const FADE_IN_MS: u64 = 500;

/// How long the banner stays in full view, in milliseconds.
pub const HOLD_MS: u64 = 5000;

/// Length of the fade-out, in milliseconds.
pub const FADE_OUT_MS: u64 = 2000;

/// The phases of the warning banner, which are also the events its timers
/// deliver.
#[derive(Clone, Copy, Debug, PartialEq, Eq, Structural)]
pub enum Msg {
    Init,
    Wake,
    Live,
    Kill,
    Dead,
}

/// How the banner looks in a phase.
#[derive(Clone, Copy, Debug, PartialEq, Eq, Structural)]
pub enum Appearance {
    /// Not visible yet.
    Hidden,
    /// Fading in or fully visible.
    Shown,
    /// Fading out or gone.
    Fading,
}

/// A timer to start: after `delay_ms` milliseconds, deliver `then`.
#[derive(Clone, Copy, Debug, PartialEq, Eq, Structural)]
pub struct Schedule {
    pub delay_ms: u64,
    pub then: Msg,
}

/// What the banner asks of its surroundings after an event.
#[derive(Clone, Copy, Debug, PartialEq, Eq, Structural)]
pub struct Step {
    pub render: bool,
    /// The timer that replaces the pending one; `None` drops it.
    pub schedule: Option<Schedule>,
    /// The banner is done: tell the owner.
    pub dead: bool,
}

/// The banner's state, seen as values.
pub struct WarningView {
    pub state: Msg,
    pub message: Seq<char>,
}

/// The timer started on entering a phase: init, fade in, hold, fade out.
pub open spec fn next_schedule(msg: Msg) -> Option<Schedule> {
    match msg {
        Msg::Init => Some(Schedule { delay_ms: 0, then: Msg::Wake }),
        Msg::Wake => Some(Schedule { delay_ms: FADE_IN_MS, then: Msg::Live }),
        Msg::Live => Some(Schedule { delay_ms: HOLD_MS, then: Msg::Kill }),
        Msg::Kill => Some(Schedule { delay_ms: FADE_OUT_MS, then: Msg::Dead }),
        Msg::Dead => None,
    }
}

/// The state an event leads to.
pub open spec fn state_after(msg: Msg) -> Msg {
    match msg {
        Msg::Init => Msg::Wake,
        _ => msg,
    }
}

pub open spec fn spec_appearance(state: Msg) -> Appearance {
    match state {
        Msg::Init => Appearance::Hidden,
        Msg::Wake | Msg::Live => Appearance::Shown,
        Msg::Kill | Msg::Dead => Appearance::Fading,
    }
}

/// A transient warning banner: it appears, stays, fades out and reports
/// that it is done.
pub struct Warning {
    state: Msg,
    message: String,
}

impl View for Warning {
    type V = WarningView;

    closed spec fn view(&self) -> WarningView {
        WarningView { state: self.state, message: self.message@ }
    }
}

impl Warning {
    /// A banner for a message, with the timer that starts its cycle.
    pub fn create(message: String) -> (r: (Warning, Schedule))
        ensures
            r.0@ == (WarningView { state: Msg::Init, message: message@ }),
            r.1 == (Schedule { delay_ms: INIT_DELAY_MS, then: Msg::Init }),
    {
        (Warning { state: Msg::Init, message }, Schedule { delay_ms: INIT_DELAY_MS, then: Msg::Init })
    }

    pub fn message(&self) -> (r: &String)
        ensures
            r@ == self@.message,
    {
        &self.message
    }

    /// How the banner looks now.
    pub fn appearance(&self) -> (r: Appearance)
        ensures
            r == spec_appearance(self@.state),
    {
        match self.state {
            Msg::Init => Appearance::Hidden,
            Msg::Wake | Msg::Live => Appearance::Shown,
            Msg::Kill | Msg::Dead => Appearance::Fading,
        }
    }

    /// A timer delivered `msg`: the banner moves on to the matching phase and
    /// starts the next timer; at the end it clears its message and reports
    /// that it is done.
    pub fn update(&mut self, msg: Msg) -> (r: Step)
        ensures
            final(self)@.state == state_after(msg),
            final(self)@.message == (if msg == Msg::Dead {
                Seq::<char>::empty()
            } else {
                old(self)@.message
            }),
            r == (Step { render: true, schedule: next_schedule(msg), dead: msg == Msg::Dead }),
    {
        match msg {
            Msg::Init => {
                self.state = Msg::Wake;
                Step { render: true, schedule: Some(Schedule { delay_ms: 0, then: Msg::Wake }), dead: false }
            },
            Msg::Wake => {
                self.state = Msg::Wake;
                Step {
                    render: true,
                    schedule: Some(Schedule { delay_ms: FADE_IN_MS, then: Msg::Live }),
                    dead: false,
                }
            },
            Msg::Live => {
                self.state = Msg::Live;
                Step {
                    render: true,
                    schedule: Some(Schedule { delay_ms: HOLD_MS, then: Msg::Kill }),
                    dead: false,
                }
            },
            Msg::Kill => {
                self.state = Msg::Kill;
                Step {
                    render: true,
                    schedule: Some(Schedule { delay_ms: FADE_OUT_MS, then: Msg::Dead }),
                    dead: false,
                }
            },
            Msg::Dead => {
                self.state = Msg::Dead;
                self.message = String::new();
                Step { render: true, schedule: None, dead: true }
            },
        }
    }

    /// The owner handed new properties. Another message is shown at once,
    /// restarting the cycle from the fade-in; another style alone redraws a
    /// banner that is not done. `schedule` is the timer that replaces the
    /// pending one, when there is one.
    pub fn change(&mut self, class_changed: bool, message: String) -> (r: (bool, Option<Schedule>))
        ensures
            message@ != old(self)@.message ==> final(self)@.message == message@ && r == (true, Some(
                Schedule { delay_ms: 0, then: Msg::Wake },
            )),
            message@ == old(self)@.message ==> final(self)@.message == old(self)@.message && r == (
                class_changed && old(self)@.state != Msg::Dead,
                None::<Schedule>,
            ),
            final(self)@.state == old(self)@.state,
    {
        let render = class_changed && self.state != Msg::Dead;
        if self.message != message {
            self.message = message;
            (true, Some(Schedule { delay_ms: 0, then: Msg::Wake }))
        } else {
            (render, None)
        }
    }
}

} // verus!
