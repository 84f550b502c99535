use omnivyou::home::{key_message, select_files, Home, MediaFile, Msg};
use omnivyou::settings::Settings;

fn file(name: &str, mime: &str, handle: u32) -> MediaFile<u32> {
    MediaFile { name: name.to_string(), mime: mime.to_string(), handle }
}

fn directory() -> Vec<MediaFile<u32>> {
    vec![
        file("a.jpg", "image/jpeg", 0),
        file("b.mp4", "video/mp4", 1),
        file(".hidden.png", "image/png", 2),
        file("c.txt", "text/plain", 3),
    ]
}

fn current_name(h: &Home<u32>) -> String {
    h.current().unwrap().name.clone()
}

#[test]
fn scenario_load_and_wrap() {
    let mut h: Home<u32> = Home::new();
    assert!(h.update(Msg::IndexDirectory(directory())));
    assert_eq!(h.len(), Some(2));
    assert_eq!(h.index(), 0);
    assert_eq!(current_name(&h), "a.jpg");
    assert!(h.listening());
    assert!(h.warning().is_none());
    assert!(h.update(Msg::NextFile));
    assert_eq!(h.index(), 1);
    assert_eq!(current_name(&h), "b.mp4");
    assert!(h.update(Msg::NextFile));
    assert_eq!(h.index(), 0);
    assert_eq!(current_name(&h), "a.jpg");
}

#[test]
fn next_n_times_returns_to_start() {
    let files: Vec<MediaFile<u32>> = (0..5u32)
        .map(|i| file(&format!("f{}.png", i), "image/png", i))
        .collect();
    let mut h: Home<u32> = Home::new();
    h.index_directory(files);
    h.next_file();
    h.next_file();
    assert_eq!(h.index(), 2);
    for _ in 0..5 {
        h.next_file();
    }
    assert_eq!(h.index(), 2);
}

#[test]
fn previous_undoes_next() {
    let files: Vec<MediaFile<u32>> = (0..3u32)
        .map(|i| file(&format!("f{}.mp3", i), "audio/mpeg", i))
        .collect();
    let mut h: Home<u32> = Home::new();
    h.index_directory(files);
    for start in 0..3usize {
        assert_eq!(h.index(), start);
        h.next_file();
        h.previous_file();
        assert_eq!(h.index(), start);
        h.previous_file();
        h.next_file();
        assert_eq!(h.index(), start);
        h.next_file();
    }
}

#[test]
fn previous_wraps_to_last() {
    let mut h: Home<u32> = Home::new();
    h.index_directory(directory());
    assert!(h.previous_file());
    assert_eq!(h.index(), 1);
    assert_eq!(current_name(&h), "b.mp4");
}

#[test]
fn single_file_stays_put() {
    let mut h: Home<u32> = Home::new();
    h.index_directory(vec![file("only.ogg", "audio/ogg", 7)]);
    h.next_file();
    assert_eq!(h.index(), 0);
    h.previous_file();
    assert_eq!(h.index(), 0);
    assert_eq!(h.current().unwrap().handle, 7);
}

#[test]
fn steps_without_list_do_nothing() {
    let mut h: Home<u32> = Home::new();
    assert!(!h.update(Msg::NextFile));
    assert!(!h.update(Msg::PreviousFile));
    assert_eq!(h.index(), 0);
    assert!(h.current().is_none());
    assert!(!h.update(Msg::Ignore));
}

#[test]
fn all_hidden_gives_warning() {
    let mut h: Home<u32> = Home::new();
    h.update(Msg::IndexDirectory(vec![file(".a.png", "image/png", 0), file(".b.mp4", "video/mp4", 1)]));
    assert!(h.len().is_none());
    assert!(!h.listening());
    assert_eq!(h.warning().unwrap().as_str(), "No files could be found");
    assert!(h.update(Msg::DropWarning));
    assert!(h.warning().is_none());
}

#[test]
fn all_invalid_gives_warning() {
    let mut h: Home<u32> = Home::new();
    h.index_directory(vec![file("a.txt", "text/plain", 0), file("b", "", 1)]);
    assert!(h.len().is_none());
    assert_eq!(h.warning().unwrap().as_str(), "No files could be found");
}

#[test]
fn empty_directory_gives_warning() {
    let mut h: Home<u32> = Home::new();
    h.index_directory(Vec::new());
    assert!(h.len().is_none());
    assert!(h.warning().is_some());
}

#[test]
fn hidden_kinds_are_left_out() {
    let mut h: Home<u32> = Home::new();
    h.update(Msg::ToggleImage);
    assert!(!h.settings().toggle_image);
    h.index_directory(directory());
    assert_eq!(h.len(), Some(1));
    assert_eq!(current_name(&h), "b.mp4");
}

#[test]
fn select_keeps_order() {
    let files = vec![
        file("z.webm", "video/webm", 0),
        file("y.flac", "audio/flac", 1),
        file("x.gif", "image/gif", 2),
    ];
    let kept = select_files(files, &Settings::new());
    let handles: Vec<u32> = kept.iter().map(|f| f.handle).collect();
    assert_eq!(handles, vec![0, 1, 2]);
}

#[test]
fn quit_clears_list() {
    let mut h: Home<u32> = Home::new();
    h.index_directory(directory());
    h.next_file();
    assert!(h.update(Msg::Quit));
    assert!(h.len().is_none());
    assert_eq!(h.index(), 0);
    assert!(!h.listening());
}

#[test]
fn reload_resets_index() {
    let mut h: Home<u32> = Home::new();
    h.index_directory(directory());
    h.next_file();
    h.index_directory(directory());
    assert_eq!(h.index(), 0);
}

#[test]
fn settings_messages_apply() {
    let mut h: Home<u32> = Home::new();
    assert!(h.update(Msg::ConfigAudioAutoplayDelay(7)));
    assert!(h.update(Msg::ConfigImageAutoplayDelay(0)));
    assert!(h.update(Msg::ConfigVideoAutoplayDelay(12)));
    assert!(h.update(Msg::ToggleAudioAutoplay));
    assert!(h.update(Msg::ToggleVideo));
    let s = h.settings();
    assert_eq!(s.config_audio_autoplay_delay, 7);
    assert_eq!(s.config_image_autoplay_delay, 1);
    assert_eq!(s.config_video_autoplay_delay, 12);
    assert!(!s.toggle_audio_autoplay);
    assert!(!s.toggle_video);
    assert!(s.toggle_audio && s.toggle_image);
}

#[test]
fn keys_map_to_messages() {
    assert!(matches!(key_message::<u32>("ArrowLeft"), Msg::PreviousFile));
    assert!(matches!(key_message::<u32>("ArrowRight"), Msg::NextFile));
    assert!(matches!(key_message::<u32>("Escape"), Msg::Quit));
    assert!(matches!(key_message::<u32>("Enter"), Msg::Ignore));
    assert!(matches!(key_message::<u32>("ArrowLeftX"), Msg::Ignore));
    assert!(matches!(key_message::<u32>(""), Msg::Ignore));
}
