use vstd::prelude::*;
use crate::media_type::{classify_kind, kind_of, same_text, Kind};
use crate::settings::{default_settings, Settings};

verus! {

/// A file offered by a directory: its name, its MIME type, and the handle
/// through which it is shown.
pub struct MediaFile<F> {
    pub name: String,
    pub mime: String,
    pub handle: F,
}

/// A name that starts with a dot is hidden.
pub open spec fn is_hidden(name: Seq<char>) -> bool {
    name.len() > 0 && name[0] == '.'
}

/// Whether a file joins the list: it is not hidden, its type is valid, and
/// its kind is shown.
pub open spec fn eligible<F>(f: MediaFile<F>, settings: Settings) -> bool {
    !is_hidden(f.name@) && kind_of(f.mime@) != Kind::Invalid && settings.spec_included(
        kind_of(f.mime@),
    )
}

/// The eligible files of a directory, in their order.
pub open spec fn selected<F>(files: Seq<MediaFile<F>>, settings: Settings) -> Seq<MediaFile<F>>
    decreases files.len(),
{
    if files.len() == 0 {
        Seq::empty()
    } else {
        let rest = selected(files.drop_last(), settings);
        if eligible(files.last(), settings) {
            rest.push(files.last())
        } else {
            rest
        }
    }
}

/// The position after `i` in a list of `n`, wrapping round.
pub open spec fn next_index(i: nat, n: nat) -> nat {
    ((i + 1) % n) as nat
}

/// The position before `i` in a list of `n`, wrapping round.
pub open spec fn prev_index(i: nat, n: nat) -> nat {
    ((i + n - 1) as nat % n) as nat
}

/// The text of the warning shown when a directory offers nothing to show.
pub open spec fn no_files_text() -> Seq<char> {
    seq![
        'N', 'o', ' ', 'f', 'i', 'l', 'e', 's', ' ', 'c', 'o', 'u', 'l', 'd', ' ', 'b', 'e', ' ',
        'f', 'o', 'u', 'n', 'd',
    ]
}

/// Whether a file is taken into the list under the given settings.
pub fn is_eligible<F>(f: &MediaFile<F>, settings: &Settings) -> (r: bool)
    ensures
        r == eligible(*f, *settings),
{
    let hidden = f.name.as_str().unicode_len() > 0 && f.name.as_str().get_char(0) == '.';
    let kind = classify_kind(f.mime.as_str());
    !hidden && kind != Kind::Invalid && settings.included(kind)
}

/// Keeps the eligible files of a directory, in their order.
pub fn select_files<F>(files: Vec<MediaFile<F>>, settings: &Settings) -> (r: Vec<MediaFile<F>>)
    ensures
        r@ == selected(files@, *settings),
{
    let ghost all = files@;
    let mut rest = files;
    let mut kept: Vec<MediaFile<F>> = Vec::new();
    let ghost mut k: int = 0;
    while rest.len() > 0
        invariant
            0 <= k <= all.len(),
            rest@ == all.subrange(k, all.len() as int),
            kept@ == selected(all.subrange(0, k), *settings),
        decreases rest.len(),
    {
        let f = rest.remove(0);
        proof {
            assert(all.subrange(0, k + 1).drop_last() =~= all.subrange(0, k));
            assert(all.subrange(0, k + 1).last() == f);
            assert(rest@ =~= all.subrange(k + 1, all.len() as int));
        }
        if is_eligible(&f, settings) {
            kept.push(f);
        }
        proof {
            k = k + 1;
        }
    }
    assert(all.subrange(0, k) =~= all);
    kept
}

/// What the controller holds, seen as values.
pub struct HomeView<F> {
    pub files: Option<Seq<MediaFile<F>>>,
    pub index: nat,
    pub listening: bool,
    pub settings: Settings,
    pub warning: Option<Seq<char>>,
}

/// An event handed to the controller.
pub enum Msg<F> {
    DropWarning,
    IndexDirectory(Vec<MediaFile<F>>),
    NextFile,
    PreviousFile,
    Quit,
    ConfigAudioAutoplayDelay(u64),
    ConfigImageAutoplayDelay(u64),
    ConfigVideoAutoplayDelay(u64),
    ToggleAudio,
    ToggleAudioAutoplay,
    ToggleImage,
    ToggleImageAutoplay,
    ToggleVideo,
    ToggleVideoAutoplay,
    Ignore,
}

impl<F> HomeView<F> {
    /// The controller's invariant: a loaded list is never empty, the index
    /// points into it, the keyboard is listened to exactly while a list is
    /// loaded, and the delays lie within their ranges.
    pub open spec fn wf(self) -> bool {
        &&& self.settings.valid()
        &&& self.listening == self.files.is_some()
        &&& match self.files {
            Some(s) => s.len() > 0 && self.index < s.len(),
            None => self.index == 0,
        }
    }

    /// After a directory's files were offered.
    pub open spec fn loaded(self, offered: Seq<MediaFile<F>>) -> HomeView<F> {
        let s = selected(offered, self.settings);
        if s.len() > 0 {
            HomeView { files: Some(s), index: 0, listening: true, ..self }
        } else {
            HomeView { warning: Some(no_files_text()), ..self }
        }
    }

    /// After a step forward.
    pub open spec fn advanced(self) -> HomeView<F> {
        match self.files {
            Some(s) => HomeView { index: next_index(self.index, s.len()), ..self },
            None => self,
        }
    }

    /// After a step back.
    pub open spec fn retreated(self) -> HomeView<F> {
        match self.files {
            Some(s) => HomeView { index: prev_index(self.index, s.len()), ..self },
            None => self,
        }
    }

    /// After the list was closed.
    pub open spec fn quitted(self) -> HomeView<F> {
        HomeView { files: None, index: 0, listening: false, ..self }
    }

    /// After a change of the settings.
    pub open spec fn with_settings(self, settings: Settings) -> HomeView<F> {
        HomeView { settings, ..self }
    }

    /// After an event.
    pub open spec fn after(self, msg: Msg<F>) -> HomeView<F> {
        let st = self.settings;
        match msg {
            Msg::DropWarning => HomeView { warning: None, ..self },
            Msg::IndexDirectory(v) => self.loaded(v@),
            Msg::NextFile => self.advanced(),
            Msg::PreviousFile => self.retreated(),
            Msg::Quit => self.quitted(),
            Msg::ConfigAudioAutoplayDelay(d) => self.with_settings(st.delay_set(Kind::Audio, d)),
            Msg::ConfigImageAutoplayDelay(d) => self.with_settings(st.delay_set(Kind::Image, d)),
            Msg::ConfigVideoAutoplayDelay(d) => self.with_settings(st.delay_set(Kind::Video, d)),
            Msg::ToggleAudio => self.with_settings(st.included_toggled(Kind::Audio)),
            Msg::ToggleAudioAutoplay => self.with_settings(st.autoplay_toggled(Kind::Audio)),
            Msg::ToggleImage => self.with_settings(st.included_toggled(Kind::Image)),
            Msg::ToggleImageAutoplay => self.with_settings(st.autoplay_toggled(Kind::Image)),
            Msg::ToggleVideo => self.with_settings(st.included_toggled(Kind::Video)),
            Msg::ToggleVideoAutoplay => self.with_settings(st.autoplay_toggled(Kind::Video)),
            Msg::Ignore => self,
        }
    }

    /// Whether the screen is drawn again after an event: always, but for a
    /// step when no list is loaded and for an ignored event.
    pub open spec fn renders_after(self, msg: Msg<F>) -> bool {
        match msg {
            Msg::NextFile => self.files.is_some(),
            Msg::PreviousFile => self.files.is_some(),
            Msg::Ignore => false,
            _ => true,
        }
    }

    /// After `k` steps forward.
    pub open spec fn advanced_times(self, k: nat) -> HomeView<F>
        decreases k,
    {
        if k == 0 {
            self
        } else {
            self.advanced_times((k - 1) as nat).advanced()
        }
    }
}

/// The navigation controller: the loaded list of files, the position in it,
/// the settings, and the warning on display.
pub struct Home<F> {
    files: Option<Vec<MediaFile<F>>>,
    index: usize,
    listening: bool,
    settings: Settings,
    warning_message: Option<String>,
}

impl<F> View for Home<F> {
    type V = HomeView<F>;

    closed spec fn view(&self) -> HomeView<F> {
        HomeView {
            files: match self.files {
                Some(v) => Some(v@),
                None => None,
            },
            index: self.index as nat,
            listening: self.listening,
            settings: self.settings,
            warning: match self.warning_message {
                Some(w) => Some(w@),
                None => None,
            },
        }
    }
}

impl<F> Home<F> {
    /// Nothing loaded, default settings, no warning.
    pub fn new() -> (r: Home<F>)
        ensures
            r@.wf(),
            r@.files.is_none(),
            r@.settings == default_settings(),
            r@.warning.is_none(),
    {
        Home { files: None, index: 0, listening: false, settings: Settings::new(), warning_message: None }
    }

    /// Whether the keyboard is to be listened to.
    pub fn listening(&self) -> (r: bool)
        ensures
            r == self@.listening,
    {
        self.listening
    }

    pub fn settings(&self) -> (r: Settings)
        ensures
            r == self@.settings,
    {
        self.settings
    }

    /// The index of the file on display.
    pub fn index(&self) -> (r: usize)
        ensures
            r == self@.index,
    {
        self.index
    }

    /// How many files are loaded; none when no list is.
    pub fn len(&self) -> (r: Option<usize>)
        ensures
            r.is_some() == self@.files.is_some(),
            r.is_some() ==> r.unwrap() == self@.files.unwrap().len(),
    {
        match &self.files {
            Some(v) => Some(v.len()),
            None => None,
        }
    }

    /// The warning on display.
    pub fn warning(&self) -> (r: Option<&String>)
        ensures
            r.is_some() == self@.warning.is_some(),
            r.is_some() ==> r.unwrap()@ == self@.warning.unwrap(),
    {
        match &self.warning_message {
            Some(w) => Some(w),
            None => None,
        }
    }

    /// The file on display, when a list is loaded.
    pub fn current(&self) -> (r: Option<&MediaFile<F>>)
        requires
            self@.wf(),
        ensures
            r.is_some() == self@.files.is_some(),
            r.is_some() ==> *r.unwrap() == self@.files.unwrap()[self@.index as int],
    {
        match &self.files {
            Some(v) => Some(&v[self.index]),
            None => None,
        }
    }

    /// Offers a directory's files. The eligible ones, in their order, become
    /// the list, shown from its first file; when none is eligible the list
    /// stays as it was and the "no files" warning is raised.
    pub fn index_directory(&mut self, offered: Vec<MediaFile<F>>)
        requires
            old(self)@.wf(),
        ensures
            final(self)@.wf(),
            final(self)@ == old(self)@.loaded(offered@),
    {
        let files = select_files(offered, &self.settings);
        if files.len() > 0 {
            self.files = Some(files);
            self.index = 0;
            self.listening = true;
        } else {
            let w = String::from_str("No files could be found");
            proof {
                reveal_strlit("No files could be found");
                assert(w@ =~= no_files_text());
            }
            self.warning_message = Some(w);
        }
    }

    /// Moves to the next file, wrapping round; `true` when a list is loaded.
    pub fn next_file(&mut self) -> (r: bool)
        requires
            old(self)@.wf(),
        ensures
            final(self)@.wf(),
            final(self)@ == old(self)@.advanced(),
            r == old(self)@.files.is_some(),
    {
        match &self.files {
            Some(v) => {
                assert(self.index < v.len());
                self.index = (self.index + 1) % v.len();
                true
            },
            None => false,
        }
    }

    /// Moves to the previous file, wrapping round; `true` when a list is
    /// loaded.
    pub fn previous_file(&mut self) -> (r: bool)
        requires
            old(self)@.wf(),
        ensures
            final(self)@.wf(),
            final(self)@ == old(self)@.retreated(),
            r == old(self)@.files.is_some(),
    {
        match &self.files {
            Some(v) => {
                let n = v.len();
                proof {
                    let i = self.index as int;
                    if i == 0 {
                        vstd::arithmetic::div_mod::lemma_small_mod((n - 1) as nat, n as nat);
                    } else {
                        vstd::arithmetic::div_mod::lemma_mod_add_multiples_vanish(i - 1, n as int);
                        vstd::arithmetic::div_mod::lemma_small_mod((i - 1) as nat, n as nat);
                    }
                }
                self.index = if self.index == 0 {
                    n - 1
                } else {
                    self.index - 1
                };
                true
            },
            None => false,
        }
    }

    /// Closes the list and stops listening to the keyboard.
    pub fn quit(&mut self)
        requires
            old(self)@.wf(),
        ensures
            final(self)@.wf(),
            final(self)@ == old(self)@.quitted(),
    {
        self.files = None;
        self.index = 0;
        self.listening = false;
    }

    /// Handles an event; `true` when the screen is to be drawn again.
    pub fn update(&mut self, msg: Msg<F>) -> (r: bool)
        requires
            old(self)@.wf(),
        ensures
            final(self)@.wf(),
            final(self)@ == old(self)@.after(msg),
            r == old(self)@.renders_after(msg),
    {
        match msg {
            Msg::DropWarning => {
                self.drop_warning();
                true
            },
            Msg::IndexDirectory(v) => {
                self.index_directory(v);
                true
            },
            Msg::NextFile => self.next_file(),
            Msg::PreviousFile => self.previous_file(),
            Msg::Quit => {
                self.quit();
                true
            },
            Msg::ConfigAudioAutoplayDelay(d) => {
                self.settings.set_delay(Kind::Audio, d);
                true
            },
            Msg::ConfigImageAutoplayDelay(d) => {
                self.settings.set_delay(Kind::Image, d);
                true
            },
            Msg::ConfigVideoAutoplayDelay(d) => {
                self.settings.set_delay(Kind::Video, d);
                true
            },
            Msg::ToggleAudio => {
                self.settings.toggle_included(Kind::Audio);
                true
            },
            Msg::ToggleAudioAutoplay => {
                self.settings.toggle_autoplay(Kind::Audio);
                true
            },
            Msg::ToggleImage => {
                self.settings.toggle_included(Kind::Image);
                true
            },
            Msg::ToggleImageAutoplay => {
                self.settings.toggle_autoplay(Kind::Image);
                true
            },
            Msg::ToggleVideo => {
                self.settings.toggle_included(Kind::Video);
                true
            },
            Msg::ToggleVideoAutoplay => {
                self.settings.toggle_autoplay(Kind::Video);
                true
            },
            Msg::Ignore => false,
        }
    }

    /// Takes the warning down.
    pub fn drop_warning(&mut self)
        requires
            old(self)@.wf(),
        ensures
            final(self)@.wf(),
            final(self)@ == (HomeView { warning: None, ..old(self)@ }),
    {
        self.warning_message = None;
    }
}

/// The event a key press stands for: the left arrow steps back, the right
/// arrow steps forward, Escape closes the list; any other key is ignored.
pub fn key_message<F>(key: &str) -> (r: Msg<F>)
    ensures
        key@ == "ArrowLeft"@ ==> r is PreviousFile,
        key@ == "ArrowRight"@ ==> r is NextFile,
        key@ == "Escape"@ ==> r is Quit,
        key@ != "ArrowLeft"@ && key@ != "ArrowRight"@ && key@ != "Escape"@ ==> r is Ignore,
{
    proof {
        reveal_strlit("ArrowLeft");
        reveal_strlit("ArrowRight");
        reveal_strlit("Escape");
        assert("ArrowLeft"@[0] != "ArrowRight"@[0] || "ArrowLeft"@.len() != "ArrowRight"@.len());
    }
    if same_text(key, "ArrowLeft") {
        Msg::PreviousFile
    } else if same_text(key, "ArrowRight") {
        Msg::NextFile
    } else if same_text(key, "Escape") {
        Msg::Quit
    } else {
        Msg::Ignore
    }
}

proof fn lemma_advanced_times_index<F>(h: HomeView<F>, k: nat)
    requires
        h.wf(),
        h.files.is_some(),
    ensures
        h.advanced_times(k) == (HomeView {
            index: ((h.index + k) as int % (h.files.unwrap().len() as int)) as nat,
            ..h
        }),
    decreases k,
{
    let n = h.files.unwrap().len() as int;
    if k == 0 {
        vstd::arithmetic::div_mod::lemma_small_mod(h.index, n as nat);
    } else {
        lemma_advanced_times_index(h, (k - 1) as nat);
        let x = h.index + k - 1;
        vstd::arithmetic::div_mod::lemma_add_mod_noop_right(1, x, n);
    }
}

/// Stepping forward as many times as a loaded list has files comes back to
/// the file one started from.
pub proof fn lemma_advance_full_cycle<F>(h: HomeView<F>)
    requires
        h.wf(),
        h.files.is_some(),
    ensures
        h.advanced_times(h.files.unwrap().len()) == h,
{
    let n = h.files.unwrap().len();
    lemma_advanced_times_index(h, n);
    vstd::arithmetic::div_mod::lemma_mod_add_multiples_vanish(h.index as int, n as int);
    vstd::arithmetic::div_mod::lemma_small_mod(h.index, n);
}

/// A step back undoes a step forward, and a step forward undoes a step back.
pub proof fn lemma_previous_inverts_next<F>(h: HomeView<F>)
    requires
        h.wf(),
    ensures
        h.advanced().retreated() == h,
        h.retreated().advanced() == h,
{
    if let Some(s) = h.files {
        let n = s.len();
        let i = h.index;
        if i + 1 < n {
            vstd::arithmetic::div_mod::lemma_small_mod(i + 1, n);
            vstd::arithmetic::div_mod::lemma_mod_add_multiples_vanish(i as int, n as int);
        } else {
            vstd::arithmetic::div_mod::lemma_mod_self_0(n as int);
            vstd::arithmetic::div_mod::lemma_small_mod((n - 1) as nat, n);
        }
        vstd::arithmetic::div_mod::lemma_small_mod(i, n);
        if i == 0 {
            vstd::arithmetic::div_mod::lemma_small_mod((n - 1) as nat, n);
            vstd::arithmetic::div_mod::lemma_mod_self_0(n as int);
        } else {
            vstd::arithmetic::div_mod::lemma_mod_add_multiples_vanish(i - 1, n as int);
            vstd::arithmetic::div_mod::lemma_small_mod((i - 1) as nat, n);
        }
        assert(h.advanced().retreated() == h);
        assert(h.retreated().advanced() == h);
    }
}

proof fn lemma_selected_empty<F>(files: Seq<MediaFile<F>>, settings: Settings)
    requires
        forall|i: int| 0 <= i < files.len() ==> !eligible(#[trigger] files[i], settings),
    ensures
        selected(files, settings).len() == 0,
    decreases files.len(),
{
    if files.len() > 0 {
        let p = files.drop_last();
        assert forall|i: int| 0 <= i < p.len() implies !eligible(#[trigger] p[i], settings) by {
            assert(p[i] == files[i]);
        }
        lemma_selected_empty(p, settings);
        assert(!eligible(files[files.len() - 1], settings));
    }
}

/// A directory whose every file is hidden or of no valid media type (in
/// particular, one of hidden files only, or of invalid files only) gives no
/// list: what was loaded stays, and the "no files" warning is raised.
pub proof fn lemma_nothing_to_show<F>(h: HomeView<F>, offered: Seq<MediaFile<F>>)
    requires
        h.wf(),
        forall|i: int|
            0 <= i < offered.len() ==> is_hidden(#[trigger] offered[i].name@) || kind_of(
                offered[i].mime@,
            ) == Kind::Invalid,
    ensures
        selected(offered, h.settings).len() == 0,
        h.loaded(offered).files == h.files,
        h.loaded(offered).warning == Some(no_files_text()),
{
    assert forall|i: int| 0 <= i < offered.len() implies !eligible(#[trigger] offered[i], h.settings) by {
        assert(is_hidden(offered[i].name@) || kind_of(offered[i].mime@) == Kind::Invalid);
    }
    lemma_selected_empty(offered, h.settings);
}

} // verus!
