use vstd::prelude::*;
use crate::media_type::{kind_of, Kind, Type};
use crate::settings::Settings;

verus! {

/// What becomes of the viewer's autoplay timer.
#[derive(Clone, Copy, Debug, PartialEq, Eq, Structural)]
pub enum TimerAction {
    /// The pending timer, if any, runs on.
    Keep,
    /// The pending timer is dropped and never fires.
    Cancel,
    /// A timer of this many seconds replaces any pending one.
    Start(u64),
}

/// What the viewer asks of its surroundings after a change.
#[derive(Clone, Copy, Debug, PartialEq, Eq, Structural)]
pub struct Effects {
    /// Draw again.
    pub render: bool,
    /// Release the display resource held so far.
    pub release: bool,
    /// Create a display resource for the new file.
    pub create: bool,
    pub timer: TimerAction,
}

/// An event of the native media element.
#[derive(Clone, Copy, Debug, PartialEq, Eq, Structural)]
pub enum Msg {
    /// Playback reached its end.
    Ended,
    /// The user moved the playback position.
    Seeked,
}

/// The viewer's state, seen as values.
pub struct MediaView {
    pub kind: Kind,
    pub mime: Seq<char>,
    pub ended: bool,
    pub settings: Settings,
    /// The delay of the pending autoplay timer, in seconds.
    pub timer: Option<u64>,
}

/// The timer that a new file starts with: only an image plays on without an
/// end event of its own.
pub open spec fn initial_timer(kind: Kind, settings: Settings) -> Option<u64> {
    if kind == Kind::Image && settings.spec_autoplay(Kind::Image) {
        Some(settings.spec_delay(Kind::Image))
    } else {
        None
    }
}

impl MediaView {
    /// A timer is pending only where the kind plays on.
    pub open spec fn wf(self) -> bool {
        self.timer.is_some() ==> self.kind != Kind::Invalid && self.settings.spec_autoplay(self.kind)
    }

    /// A viewer just made for a file.
    pub open spec fn created(kind: Kind, mime: Seq<char>, settings: Settings) -> MediaView {
        MediaView { kind, mime, ended: false, settings, timer: initial_timer(kind, settings) }
    }

    /// Whether a change brings another file.
    pub open spec fn is_new_media(self, kind: Kind, mime: Seq<char>, new_file: bool) -> bool {
        new_file || kind != self.kind || mime != self.mime
    }

    /// Whether a change starts a timer.
    pub open spec fn change_starts_timer(
        self,
        kind: Kind,
        mime: Seq<char>,
        new_file: bool,
        new_callback: bool,
        settings: Settings,
    ) -> bool {
        let new_media = self.is_new_media(kind, mime, new_file);
        let ended = !new_media && self.ended;
        let changed = self.settings.spec_autoplay_changed(settings, kind);
        match kind {
            Kind::Image => settings.spec_autoplay(kind) && (new_media || new_callback || changed),
            Kind::Invalid => false,
            _ => changed && settings.spec_autoplay(kind) && ended,
        }
    }

    /// The viewer after it was handed a file (`new_file` when it is another
    /// one than before), a callback (`new_callback` when it is another one)
    /// and settings. Another file drops the pending timer; then an image
    /// starts its timer anew if it plays on, and audio or video that has ended
    /// starts it anew when its autoplay settings changed. A kind whose
    /// autoplay is off keeps no timer.
    pub open spec fn changed(
        self,
        kind: Kind,
        mime: Seq<char>,
        new_file: bool,
        new_callback: bool,
        settings: Settings,
    ) -> MediaView {
        let new_media = self.is_new_media(kind, mime, new_file);
        let ended = !new_media && self.ended;
        let kept = if new_media {
            None
        } else {
            self.timer
        };
        let changed = self.settings.spec_autoplay_changed(settings, kind);
        let timer = if self.change_starts_timer(kind, mime, new_file, new_callback, settings) {
            Some(settings.spec_delay(kind))
        } else if !settings.spec_autoplay(kind) || (kind != Kind::Image && changed) {
            None
        } else {
            kept
        };
        MediaView { kind, mime, ended, settings, timer }
    }

    /// What a change asks for: a new file releases the old resource and
    /// creates one; the timer follows `changed`.
    pub open spec fn change_effects(
        self,
        kind: Kind,
        mime: Seq<char>,
        new_file: bool,
        new_callback: bool,
        settings: Settings,
    ) -> Effects {
        let new_media = self.is_new_media(kind, mime, new_file);
        let after = self.changed(kind, mime, new_file, new_callback, settings);
        Effects {
            render: new_media || new_callback,
            release: new_media,
            create: new_media,
            timer: timer_action(
                self.timer,
                after.timer,
                self.change_starts_timer(kind, mime, new_file, new_callback, settings),
            ),
        }
    }

    /// After an event of the media element: at its end a kind that plays on
    /// starts its timer; a seek drops the timer.
    pub open spec fn after(self, msg: Msg) -> MediaView {
        match msg {
            Msg::Ended => MediaView {
                ended: true,
                timer: if self.kind != Kind::Invalid && self.settings.spec_autoplay(self.kind) {
                    Some(self.settings.spec_delay(self.kind))
                } else {
                    self.timer
                },
                ..self
            },
            Msg::Seeked => MediaView { ended: false, timer: None, ..self },
        }
    }

    /// After the pending timer fired, if one was pending.
    pub open spec fn elapsed(self) -> MediaView {
        MediaView { timer: None, ..self }
    }

    /// Whether the timer firing now signals that the file is finished.
    pub open spec fn fires(self) -> bool {
        self.timer.is_some()
    }
}

/// The action that takes the timer from `before` to `after`.
pub open spec fn timer_action(before: Option<u64>, after: Option<u64>, started: bool) -> TimerAction {
    if started {
        TimerAction::Start(after.unwrap())
    } else if before.is_some() && after.is_none() {
        TimerAction::Cancel
    } else {
        TimerAction::Keep
    }
}

/// How many display resources are live after a change's effects.
pub open spec fn live_after(live: nat, e: Effects) -> int {
    live - (if e.release { 1int } else { 0 }) + (if e.create { 1int } else { 0 })
}

/// The state of the media viewer: the type of the file on display, whether
/// its playback ended, the settings, and the pending autoplay timer.
pub struct Media {
    media_type: Type,
    ended: bool,
    settings: Settings,
    timer: Option<u64>,
}

impl View for Media {
    type V = MediaView;

    closed spec fn view(&self) -> MediaView {
        MediaView {
            kind: self.media_type.spec_kind(),
            mime: self.media_type.spec_mime()@,
            ended: self.ended,
            settings: self.settings,
            timer: self.timer,
        }
    }
}

fn action_for(before: Option<u64>, after: Option<u64>, started: bool) -> (r: TimerAction)
    requires
        started ==> after.is_some(),
    ensures
        r == timer_action(before, after, started),
{
    if started {
        match after {
            Some(d) => TimerAction::Start(d),
            None => TimerAction::Keep,
        }
    } else if before.is_some() && after.is_none() {
        TimerAction::Cancel
    } else {
        TimerAction::Keep
    }
}

impl Media {
    /// A viewer for a file of the given MIME type. The caller creates one
    /// display resource for it, and starts a timer if `timer` is pending.
    pub fn create(mime: String, settings: Settings) -> (r: Media)
        ensures
            r@ == MediaView::created(kind_of(mime@), mime@, settings),
            r@.wf(),
    {
        let media_type = Type::from(mime);
        let kind = media_type.kind();
        let timer = if kind == Kind::Image && settings.autoplay(Kind::Image) {
            Some(settings.delay(Kind::Image))
        } else {
            None
        };
        Media { media_type, ended: false, settings, timer }
    }

    /// The type of the file on display.
    pub fn media_type(&self) -> (r: &Type)
        ensures
            r.spec_kind() == self@.kind,
            r.spec_mime()@ == self@.mime,
    {
        &self.media_type
    }

    /// The delay of the pending timer, in seconds.
    pub fn timer(&self) -> (r: Option<u64>)
        ensures
            r == self@.timer,
    {
        self.timer
    }

    /// Whether playback has ended.
    pub fn has_ended(&self) -> (r: bool)
        ensures
            r == self@.ended,
    {
        self.ended
    }

    /// Hands the viewer a file, a callback and settings. Another file (or
    /// another type) releases the one display resource held and creates one
    /// for the new file, never more; the timer changes as `changed` says.
    pub fn change(&mut self, mime: String, new_file: bool, new_callback: bool, settings: Settings) -> (r:
        Effects)
        requires
            old(self)@.wf(),
        ensures
            final(self)@.wf(),
            final(self)@ == old(self)@.changed(kind_of(mime@), mime@, new_file, new_callback, settings),
            r == old(self)@.change_effects(kind_of(mime@), mime@, new_file, new_callback, settings),
            r.create == r.release,
            r.create == old(self)@.is_new_media(kind_of(mime@), mime@, new_file),
    {
        let ghost old_view = self@;
        let media_type = Type::from(mime);
        let kind = media_type.kind();
        let new_media = new_file || !self.media_type.same_as(&media_type);
        let before = self.timer;
        let mut kept = self.timer;
        if new_media {
            self.ended = false;
            self.media_type = media_type;
            kept = None;
        }
        let changed = self.settings.autoplay_changed(&settings, kind);
        let autoplay = settings.autoplay(kind);
        let started = match kind {
            Kind::Image => autoplay && (new_media || new_callback || changed),
            Kind::Invalid => false,
            _ => changed && autoplay && self.ended,
        };
        let timer = if started {
            Some(settings.delay(kind))
        } else if !autoplay || (kind != Kind::Image && changed) {
            None
        } else {
            kept
        };
        self.timer = timer;
        self.settings = settings;
        proof {
            assert(kind == kind_of(mime@));
        }
        Effects {
            render: new_media || new_callback,
            release: new_media,
            create: new_media,
            timer: action_for(before, timer, started),
        }
    }

    /// Handles an event of the media element.
    pub fn update(&mut self, msg: Msg) -> (r: TimerAction)
        requires
            old(self)@.wf(),
        ensures
            final(self)@.wf(),
            final(self)@ == old(self)@.after(msg),
            r == timer_action(
                old(self)@.timer,
                final(self)@.timer,
                msg == Msg::Ended && old(self)@.kind != Kind::Invalid && old(self)@.settings.spec_autoplay(
                    old(self)@.kind,
                ),
            ),
    {
        let before = self.timer;
        match msg {
            Msg::Ended => {
                self.ended = true;
                let kind = self.media_type.kind();
                let start = kind != Kind::Invalid && self.settings.autoplay(kind);
                if start {
                    self.timer = Some(self.settings.delay(kind));
                }
                action_for(before, self.timer, start)
            },
            Msg::Seeked => {
                self.ended = false;
                self.timer = None;
                action_for(before, None, false)
            },
        }
    }

    /// The pending timer fired: `true` when one was pending, and the file is
    /// then finished. The timer is spent either way.
    pub fn elapsed(&mut self) -> (r: bool)
        requires
            old(self)@.wf(),
        ensures
            final(self)@.wf(),
            final(self)@ == old(self)@.elapsed(),
            r == old(self)@.fires(),
    {
        let fired = self.timer.is_some();
        self.timer = None;
        fired
    }

    /// The viewer goes away: its display resource is released and any timer
    /// dropped.
    pub fn destroy(&mut self) -> (r: Effects)
        requires
            old(self)@.wf(),
        ensures
            final(self)@ == old(self)@.elapsed(),
            r == (Effects { render: false, release: true, create: false, timer: TimerAction::Cancel }),
    {
        self.timer = None;
        Effects { render: false, release: true, create: false, timer: TimerAction::Cancel }
    }
}

/// A new file never leaves the viewer with no display resource or with two:
/// from one live resource, any change leaves exactly one, and another file
/// both releases the old one and creates its own.
pub proof fn lemma_one_resource(
    m: MediaView,
    kind: Kind,
    mime: Seq<char>,
    new_file: bool,
    new_callback: bool,
    settings: Settings,
)
    ensures
        live_after(1, m.change_effects(kind, mime, new_file, new_callback, settings)) == 1,
        m.is_new_media(kind, mime, new_file) ==> m.change_effects(
            kind,
            mime,
            new_file,
            new_callback,
            settings,
        ).release && m.change_effects(kind, mime, new_file, new_callback, settings).create,
{
}

/// Turning autoplay off for the kind on display, while its timer is
/// pending, cancels the timer, and the finished signal does not come.
pub proof fn lemma_autoplay_off_cancels(m: MediaView, new_callback: bool, settings: Settings)
    requires
        m.wf(),
        m.timer.is_some(),
        settings == m.settings.autoplay_toggled(m.kind),
    ensures
        m.change_effects(m.kind, m.mime, false, new_callback, settings).timer == TimerAction::Cancel,
        m.changed(m.kind, m.mime, false, new_callback, settings).timer.is_none(),
        !m.changed(m.kind, m.mime, false, new_callback, settings).fires(),
{
}

/// While autoplay is off for the kind on display, no timer is pending, so
/// no finished signal comes, whatever the media element does.
pub proof fn lemma_quiet_while_autoplay_off(m: MediaView, msg: Msg)
    requires
        m.wf(),
        !m.settings.spec_autoplay(m.kind),
    ensures
        !m.fires(),
        !m.after(msg).fires(),
        !m.settings.spec_autoplay(m.after(msg).kind),
{
}

/// Whatever file, callback and settings the viewer is handed, no timer is
/// left pending for a kind whose autoplay the settings turn off.
pub proof fn lemma_no_timer_without_autoplay(
    m: MediaView,
    kind: Kind,
    mime: Seq<char>,
    new_file: bool,
    new_callback: bool,
    settings: Settings,
)
    requires
        !settings.spec_autoplay(kind),
    ensures
        !m.changed(kind, mime, new_file, new_callback, settings).fires(),
{
}

} // verus!
