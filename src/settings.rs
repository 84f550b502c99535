use vstd::prelude::*;
use crate::media_type::Kind;

verus! {

/// The longest autoplay delay, in whole seconds (`u32::MAX` milliseconds).
pub const MAX_DELAY_SECONDS: u64 = 4294967;

/// The longest text that a delay field takes, in digits.
pub const MAX_DELAY_DIGITS: usize = 4;

/// What the viewer shows and how it moves on, per media kind. Delays are in
/// whole seconds.
#[derive(Clone, Copy, Debug, PartialEq, Eq, Structural)]
pub struct Settings {
    pub config_audio_autoplay_delay: u64,
    pub config_image_autoplay_delay: u64,
    pub config_video_autoplay_delay: u64,
    pub toggle_audio: bool,
    pub toggle_audio_autoplay: bool,
    pub toggle_image: bool,
    pub toggle_image_autoplay: bool,
    pub toggle_video: bool,
    pub toggle_video_autoplay: bool,
}

/// The smallest delay a kind accepts: an image is shown for at least a second.
pub open spec fn spec_min_delay(kind: Kind) -> u64 {
    if kind == Kind::Image {
        1
    } else {
        0
    }
}

/// A delay brought into the range that a kind accepts.
pub open spec fn clamp_delay(kind: Kind, secs: u64) -> u64 {
    if secs < spec_min_delay(kind) {
        spec_min_delay(kind)
    } else if secs > MAX_DELAY_SECONDS {
        MAX_DELAY_SECONDS
    } else {
        secs
    }
}

pub fn min_delay(kind: Kind) -> (r: u64)
    ensures
        r == spec_min_delay(kind),
{
    match kind {
        Kind::Image => 1,
        _ => 0,
    }
}

pub open spec fn is_digit(c: char) -> bool {
    '0' <= c && c <= '9'
}

/// The number that a string of decimal digits spells.
pub open spec fn decimal_value(s: Seq<char>) -> nat
    decreases s.len(),
{
    if s.len() == 0 {
        0
    } else {
        decimal_value(s.drop_last()) * 10 + (s.last() as nat - '0' as nat) as nat
    }
}

/// Whether a text is a delay field's accepted input: one to four digits.
pub open spec fn is_delay_text(s: Seq<char>) -> bool {
    1 <= s.len() <= MAX_DELAY_DIGITS && forall|i: int| 0 <= i < s.len() ==> is_digit(#[trigger] s[i])
}

proof fn lemma_decimal_bound(s: Seq<char>)
    requires
        forall|i: int| 0 <= i < s.len() ==> is_digit(#[trigger] s[i]),
        s.len() <= MAX_DELAY_DIGITS,
    ensures
        decimal_value(s) < 10000,
        s.len() <= 3 ==> decimal_value(s) < 1000,
        s.len() <= 2 ==> decimal_value(s) < 100,
        s.len() <= 1 ==> decimal_value(s) < 10,
    decreases s.len(),
{
    if s.len() > 0 {
        let p = s.drop_last();
        assert forall|i: int| 0 <= i < p.len() implies is_digit(#[trigger] p[i]) by {
            assert(p[i] == s[i]);
        }
        lemma_decimal_bound(p);
        assert(is_digit(s[s.len() - 1]));
    }
}

/// Reads a delay field: `Some` of its value exactly when the text is one to
/// four decimal digits.
pub fn parse_delay(text: &str) -> (r: Option<u64>)
    ensures
        is_delay_text(text@) <==> r.is_some(),
        r.is_some() ==> r.unwrap() as nat == decimal_value(text@),
{
    let n = text.unicode_len();
    if n == 0 || n > MAX_DELAY_DIGITS {
        return None;
    }
    let mut value: u64 = 0;
    let mut i: usize = 0;
    while i < n
        invariant
            n == text@.len(),
            1 <= n <= MAX_DELAY_DIGITS,
            i <= n,
            forall|j: int| 0 <= j < i ==> is_digit(#[trigger] text@[j]),
            value as nat == decimal_value(text@.subrange(0, i as int)),
        decreases n - i,
    {
        let c = text.get_char(i);
        if c < '0' || c > '9' {
            assert(!is_digit(text@[i as int]));
            return None;
        }
        proof {
            let p = text@.subrange(0, i as int);
            let q = text@.subrange(0, i + 1);
            assert(q.drop_last() =~= p);
            lemma_decimal_bound(p);
        }
        value = value * 10 + (c as u64 - '0' as u64);
        i = i + 1;
    }
    assert(text@.subrange(0, n as int) =~= text@);
    Some(value)
}

/// Every kind shown and played on; audio and video move on at once, an image
/// after two seconds.
pub open spec fn default_settings() -> Settings {
    Settings {
        config_audio_autoplay_delay: 0,
        config_image_autoplay_delay: 2,
        config_video_autoplay_delay: 0,
        toggle_audio: true,
        toggle_audio_autoplay: true,
        toggle_image: true,
        toggle_image_autoplay: true,
        toggle_video: true,
        toggle_video_autoplay: true,
    }
}

impl Settings {
    /// Every delay lies within the range its kind accepts.
    pub open spec fn valid(self) -> bool {
        &&& self.config_audio_autoplay_delay <= MAX_DELAY_SECONDS
        &&& 1 <= self.config_image_autoplay_delay <= MAX_DELAY_SECONDS
        &&& self.config_video_autoplay_delay <= MAX_DELAY_SECONDS
    }

    /// Every kind shown and played on; audio and video move on at once, an
    /// image after two seconds.
    pub fn new() -> (r: Settings)
        ensures
            r == default_settings(),
            r.valid(),
    {
        Settings {
            config_audio_autoplay_delay: 0,
            config_image_autoplay_delay: 2,
            config_video_autoplay_delay: 0,
            toggle_audio: true,
            toggle_audio_autoplay: true,
            toggle_image: true,
            toggle_image_autoplay: true,
            toggle_video: true,
            toggle_video_autoplay: true,
        }
    }

    pub open spec fn spec_included(&self, kind: Kind) -> bool {
        match kind {
            Kind::Audio => self.toggle_audio,
            Kind::Image => self.toggle_image,
            Kind::Video => self.toggle_video,
            Kind::Invalid => false,
        }
    }

    pub open spec fn spec_autoplay(&self, kind: Kind) -> bool {
        match kind {
            Kind::Audio => self.toggle_audio_autoplay,
            Kind::Image => self.toggle_image_autoplay,
            Kind::Video => self.toggle_video_autoplay,
            Kind::Invalid => false,
        }
    }

    pub open spec fn spec_delay(&self, kind: Kind) -> u64 {
        match kind {
            Kind::Audio => self.config_audio_autoplay_delay,
            Kind::Image => self.config_image_autoplay_delay,
            Kind::Video => self.config_video_autoplay_delay,
            Kind::Invalid => 0,
        }
    }

    /// Whether files of a kind are taken into a directory's list.
    pub fn included(&self, kind: Kind) -> (r: bool)
        ensures
            r == self.spec_included(kind),
    {
        match kind {
            Kind::Audio => self.toggle_audio,
            Kind::Image => self.toggle_image,
            Kind::Video => self.toggle_video,
            Kind::Invalid => false,
        }
    }

    /// Whether the viewer moves on by itself after a file of this kind.
    pub fn autoplay(&self, kind: Kind) -> (r: bool)
        ensures
            r == self.spec_autoplay(kind),
    {
        match kind {
            Kind::Audio => self.toggle_audio_autoplay,
            Kind::Image => self.toggle_image_autoplay,
            Kind::Video => self.toggle_video_autoplay,
            Kind::Invalid => false,
        }
    }

    /// The autoplay delay of a kind, in seconds.
    pub fn delay(&self, kind: Kind) -> (r: u64)
        ensures
            r == self.spec_delay(kind),
    {
        match kind {
            Kind::Audio => self.config_audio_autoplay_delay,
            Kind::Image => self.config_image_autoplay_delay,
            Kind::Video => self.config_video_autoplay_delay,
            Kind::Invalid => 0,
        }
    }

    /// Whether the autoplay and delay settings of a kind differ between two
    /// settings.
    pub open spec fn spec_autoplay_changed(&self, other: Settings, kind: Kind) -> bool {
        self.spec_autoplay(kind) != other.spec_autoplay(kind) || self.spec_delay(kind)
            != other.spec_delay(kind)
    }

    pub fn autoplay_changed(&self, other: &Settings, kind: Kind) -> (r: bool)
        ensures
            r == self.spec_autoplay_changed(*other, kind),
    {
        self.autoplay(kind) != other.autoplay(kind) || self.delay(kind) != other.delay(kind)
    }

    /// The settings with a kind shown or hidden the other way round.
    pub open spec fn included_toggled(self, kind: Kind) -> Settings {
        match kind {
            Kind::Audio => Settings { toggle_audio: !self.toggle_audio, ..self },
            Kind::Image => Settings { toggle_image: !self.toggle_image, ..self },
            Kind::Video => Settings { toggle_video: !self.toggle_video, ..self },
            Kind::Invalid => self,
        }
    }

    /// The settings with autoplay of a kind turned the other way.
    pub open spec fn autoplay_toggled(self, kind: Kind) -> Settings {
        match kind {
            Kind::Audio => Settings { toggle_audio_autoplay: !self.toggle_audio_autoplay, ..self },
            Kind::Image => Settings { toggle_image_autoplay: !self.toggle_image_autoplay, ..self },
            Kind::Video => Settings { toggle_video_autoplay: !self.toggle_video_autoplay, ..self },
            Kind::Invalid => self,
        }
    }

    /// The settings with the delay of a kind set, within its range.
    pub open spec fn delay_set(self, kind: Kind, secs: u64) -> Settings {
        match kind {
            Kind::Audio => Settings { config_audio_autoplay_delay: clamp_delay(kind, secs), ..self },
            Kind::Image => Settings { config_image_autoplay_delay: clamp_delay(kind, secs), ..self },
            Kind::Video => Settings { config_video_autoplay_delay: clamp_delay(kind, secs), ..self },
            Kind::Invalid => self,
        }
    }

    /// Shows or hides a kind; the other settings stay.
    pub fn toggle_included(&mut self, kind: Kind)
        ensures
            *final(self) == old(self).included_toggled(kind),
            old(self).valid() ==> final(self).valid(),
    {
        match kind {
            Kind::Audio => self.toggle_audio = !self.toggle_audio,
            Kind::Image => self.toggle_image = !self.toggle_image,
            Kind::Video => self.toggle_video = !self.toggle_video,
            Kind::Invalid => {},
        }
    }

    /// Turns autoplay of a kind on or off; the other settings stay.
    pub fn toggle_autoplay(&mut self, kind: Kind)
        ensures
            *final(self) == old(self).autoplay_toggled(kind),
            old(self).valid() ==> final(self).valid(),
    {
        match kind {
            Kind::Audio => self.toggle_audio_autoplay = !self.toggle_audio_autoplay,
            Kind::Image => self.toggle_image_autoplay = !self.toggle_image_autoplay,
            Kind::Video => self.toggle_video_autoplay = !self.toggle_video_autoplay,
            Kind::Invalid => {},
        }
    }

    /// Sets the delay of a kind, brought into the range the kind accepts; the
    /// other settings stay.
    pub fn set_delay(&mut self, kind: Kind, secs: u64)
        ensures
            *final(self) == old(self).delay_set(kind, secs),
            old(self).valid() ==> final(self).valid(),
    {
        let lo = min_delay(kind);
        let d = if secs < lo {
            lo
        } else if secs > MAX_DELAY_SECONDS {
            MAX_DELAY_SECONDS
        } else {
            secs
        };
        match kind {
            Kind::Audio => self.config_audio_autoplay_delay = d,
            Kind::Image => self.config_image_autoplay_delay = d,
            Kind::Video => self.config_video_autoplay_delay = d,
            Kind::Invalid => {},
        }
    }

    /// Whether the autoplay switch of a kind is greyed out: the kind is hidden.
    pub fn autoplay_input_disabled(&self, kind: Kind) -> (r: bool)
        ensures
            r == !self.spec_included(kind),
    {
        !self.included(kind)
    }

    /// Whether the delay field of a kind is greyed out: the kind is hidden or
    /// does not play on.
    pub fn delay_input_disabled(&self, kind: Kind) -> (r: bool)
        ensures
            r == (!self.spec_included(kind) || !self.spec_autoplay(kind)),
    {
        !self.included(kind) || !self.autoplay(kind)
    }
}

} // verus!
