use omnivyou::media::{Effects, Media, Msg, TimerAction};
use omnivyou::media_type::Kind;
use omnivyou::menu::{Menu, Msg as MenuMsg};
use omnivyou::settings::Settings;
use omnivyou::warning::{Appearance, Msg as WarningMsg, Schedule, Warning, FADE_IN_MS, FADE_OUT_MS, HOLD_MS, INIT_DELAY_MS};

fn image_settings(delay: u64) -> Settings {
    let mut s = Settings::new();
    s.set_delay(Kind::Image, delay);
    s
}

#[test]
fn scenario_image_fires_once() {
    let mut m = Media::create("image/png".to_string(), image_settings(3));
    assert_eq!(m.media_type().kind(), Kind::Image);
    assert_eq!(m.timer(), Some(3));
    assert!(m.elapsed());
    assert!(!m.elapsed());
    assert_eq!(m.timer(), None);
}

#[test]
fn audio_starts_without_timer() {
    let m = Media::create("audio/mpeg".to_string(), Settings::new());
    assert_eq!(m.timer(), None);
    assert!(!m.has_ended());
}

#[test]
fn image_without_autoplay_has_no_timer() {
    let mut s = Settings::new();
    s.toggle_autoplay(Kind::Image);
    let m = Media::create("image/gif".to_string(), s);
    assert_eq!(m.timer(), None);
}

#[test]
fn new_file_swaps_one_resource() {
    let s = Settings::new();
    let mut m = Media::create("video/mp4".to_string(), s);
    let e = m.change("video/mp4".to_string(), true, false, s);
    assert!(e.release && e.create && e.render);
    let e = m.change("video/mp4".to_string(), false, false, s);
    assert_eq!(e, Effects { render: false, release: false, create: false, timer: TimerAction::Keep });
    let e = m.change("image/png".to_string(), false, false, s);
    assert!(e.release && e.create);
    assert_eq!(e.timer, TimerAction::Start(2));
    assert_eq!(m.media_type().kind(), Kind::Image);
}

#[test]
fn new_file_drops_pending_timer() {
    let mut s = Settings::new();
    s.set_delay(Kind::Audio, 4);
    let mut m = Media::create("audio/ogg".to_string(), s);
    assert_eq!(m.update(Msg::Ended), TimerAction::Start(4));
    assert!(m.has_ended());
    let e = m.change("audio/ogg".to_string(), true, false, s);
    assert_eq!(e.timer, TimerAction::Cancel);
    assert_eq!(m.timer(), None);
    assert!(!m.has_ended());
}

#[test]
fn seek_cancels_timer() {
    let mut m = Media::create("video/webm".to_string(), Settings::new());
    assert_eq!(m.update(Msg::Ended), TimerAction::Start(0));
    assert_eq!(m.update(Msg::Seeked), TimerAction::Cancel);
    assert!(!m.has_ended());
    assert!(!m.elapsed());
    assert_eq!(m.update(Msg::Seeked), TimerAction::Keep);
}

#[test]
fn autoplay_off_cancels_and_silences() {
    let s = Settings::new();
    let mut m = Media::create("audio/mpeg".to_string(), s);
    m.update(Msg::Ended);
    assert_eq!(m.timer(), Some(0));
    let mut off = s;
    off.toggle_autoplay(Kind::Audio);
    let e = m.change("audio/mpeg".to_string(), false, false, off);
    assert_eq!(e.timer, TimerAction::Cancel);
    assert!(!m.elapsed());
    assert_eq!(m.update(Msg::Ended), TimerAction::Keep);
    assert!(!m.elapsed());
}

#[test]
fn image_autoplay_off_and_on() {
    let s = image_settings(5);
    let mut m = Media::create("image/jpeg".to_string(), s);
    let mut off = s;
    off.toggle_autoplay(Kind::Image);
    assert_eq!(m.change("image/jpeg".to_string(), false, false, off).timer, TimerAction::Cancel);
    assert!(!m.elapsed());
    assert_eq!(m.change("image/jpeg".to_string(), false, false, s).timer, TimerAction::Start(5));
    assert!(m.elapsed());
}

#[test]
fn delay_change_reschedules() {
    let s = Settings::new();
    let mut m = Media::create("video/mp4".to_string(), s);
    m.update(Msg::Ended);
    let mut longer = s;
    longer.set_delay(Kind::Video, 8);
    assert_eq!(m.change("video/mp4".to_string(), false, false, longer).timer, TimerAction::Start(8));
    assert_eq!(m.timer(), Some(8));
    let mut other = longer;
    other.set_delay(Kind::Audio, 3);
    assert_eq!(m.change("video/mp4".to_string(), false, false, other).timer, TimerAction::Keep);
    assert_eq!(m.timer(), Some(8));
}

#[test]
fn image_new_callback_restarts() {
    let s = Settings::new();
    let mut m = Media::create("image/png".to_string(), s);
    let e = m.change("image/png".to_string(), false, true, s);
    assert!(e.render && !e.create);
    assert_eq!(e.timer, TimerAction::Start(2));
}

#[test]
fn invalid_type_never_times() {
    let mut m = Media::create("text/plain".to_string(), Settings::new());
    assert_eq!(m.media_type().kind(), Kind::Invalid);
    assert_eq!(m.update(Msg::Ended), TimerAction::Keep);
    assert!(!m.elapsed());
}

#[test]
fn destroy_releases() {
    let mut m = Media::create("image/png".to_string(), Settings::new());
    let e = m.destroy();
    assert!(e.release && !e.create);
    assert_eq!(e.timer, TimerAction::Cancel);
    assert!(!m.elapsed());
}

#[test]
fn warning_cycle() {
    let (mut w, first) = Warning::create("No files could be found".to_string());
    assert_eq!(first, Schedule { delay_ms: INIT_DELAY_MS, then: WarningMsg::Init });
    assert_eq!(INIT_DELAY_MS, 100);
    assert_eq!(w.appearance(), Appearance::Hidden);
    let s = w.update(WarningMsg::Init);
    assert_eq!(s.schedule, Some(Schedule { delay_ms: 0, then: WarningMsg::Wake }));
    assert_eq!(w.appearance(), Appearance::Shown);
    let s = w.update(WarningMsg::Wake);
    assert_eq!(s.schedule, Some(Schedule { delay_ms: FADE_IN_MS, then: WarningMsg::Live }));
    assert_eq!(FADE_IN_MS, 500);
    let s = w.update(WarningMsg::Live);
    assert_eq!(s.schedule, Some(Schedule { delay_ms: HOLD_MS, then: WarningMsg::Kill }));
    assert_eq!(HOLD_MS, 5000);
    let s = w.update(WarningMsg::Kill);
    assert_eq!(s.schedule, Some(Schedule { delay_ms: FADE_OUT_MS, then: WarningMsg::Dead }));
    assert_eq!(FADE_OUT_MS, 2000);
    assert_eq!(w.appearance(), Appearance::Fading);
    let s = w.update(WarningMsg::Dead);
    assert!(s.dead && s.render);
    assert_eq!(s.schedule, None);
    assert!(w.message().is_empty());
}

#[test]
fn warning_change() {
    let (mut w, _) = Warning::create("one".to_string());
    assert_eq!(w.change(false, "one".to_string()), (false, None));
    assert_eq!(w.change(true, "one".to_string()), (true, None));
    assert_eq!(
        w.change(false, "two".to_string()),
        (true, Some(Schedule { delay_ms: 0, then: WarningMsg::Wake }))
    );
    assert_eq!(w.message(), "two");
    w.update(WarningMsg::Dead);
    assert_eq!(w.change(true, String::new()), (false, None));
}

#[test]
fn menu_visibility() {
    let mut m = Menu::new();
    assert!(!m.visible);
    assert!(m.update(MenuMsg::ToggleVisible));
    assert!(m.visible);
    assert!(m.update(MenuMsg::ToggleVisible));
    assert!(!m.visible);
    m.update(MenuMsg::ToggleVisible);
    m.update(MenuMsg::Close);
    assert!(!m.visible);
}
