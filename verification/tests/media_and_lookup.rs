use barrita::app::media as fallback;
use barrita::app::media::media_view;
use barrita::app::notification::input_region;
use barrita::media::mpris::{media_info, status_label, PlaybackStatus};
use barrita::media::windows::{
    format_time, has_active_player, is_valid_image_format, session_status, session_title,
    thumbnail_readable, SessionPlayback,
};
use barrita::media::{next, play_pause, previous};
use barrita::platform::media::{
    session_properties, session_thumbnail_readable, MediaListener, MediaUpdate,
};
use barrita::app::tray::icon_from_rgba;
use barrita::platform::media::playback_is_playing;
use barrita::status_updater::ThumbnailCache;
use barrita::vault::icons::{
    build_icon_search_dirs, icon_theme_name, key_list_of, size_distance,
};
use barrita::vault::theme_lookup::{
    find_icon_in_theme_dir, get_image_path, parse_theme_inherits, scan_theme_subdirs_recursive,
    IconFs,
};

const UNSUPPORTED: &str = "Media control not supported on this platform";

#[test]
fn media_commands_fail_without_backend() {
    assert_eq!(play_pause(), Err(UNSUPPORTED.to_string()));
    assert_eq!(next(), Err(UNSUPPORTED.to_string()));
    assert_eq!(previous(), Err(UNSUPPORTED.to_string()));
    assert_eq!(fallback::play_pause(), Err(UNSUPPORTED.to_string()));
    assert_eq!(fallback::next(), Err(UNSUPPORTED.to_string()));
    assert_eq!(fallback::previous(), Err(UNSUPPORTED.to_string()));
}

#[test]
fn mpris_info_defaults() {
    assert_eq!(status_label(Some(PlaybackStatus::Paused)), "paused");
    assert_eq!(status_label(None), "stopped");
    let info = media_info(None, Some(vec!["A".to_string(), "B".to_string()]), Some(PlaybackStatus::Playing));
    assert_eq!(info.title, "Unknown");
    assert_eq!(info.artist, "A");
    assert_eq!(info.status, "playing");
    assert!(info.has_player);
    let info = media_info(Some("Song".to_string()), Some(vec![]), None);
    assert_eq!(info.title, "Song");
    assert_eq!(info.artist, "Unknown");
}

#[test]
fn session_helpers() {
    assert_eq!(format_time(0), "0:00");
    assert_eq!(format_time(187), "3:07");
    assert_eq!(format_time(3600), "60:00");
    assert!(is_valid_image_format(&[0x89, 0x50, 0x4E, 0x47, 0]));
    assert!(is_valid_image_format(&[0xFF, 0xD8, 0xFF, 0xE0]));
    assert!(is_valid_image_format(&[0x42, 0x4D, 0, 0]));
    assert!(!is_valid_image_format(&[0x42, 0x4D, 0, 1]));
    assert!(!is_valid_image_format(&[0xFF, 0xD8, 0xFF]));
    assert!(thumbnail_readable(101));
    assert!(!thumbnail_readable(100));
    assert!(!thumbnail_readable(2_000_000));
    assert_eq!(session_status(Some(SessionPlayback::Changing)), "stopped");
    assert_eq!(session_status(Some(SessionPlayback::Paused)), "paused");
    assert_eq!(session_title(String::new()), "Sin música");
    assert!(has_active_player("", true));
    assert!(!has_active_player("", false));
    assert!(session_thumbnail_readable(1));
    assert!(!session_thumbnail_readable(10_000_000));
}

#[test]
fn listener_reports_changes_only() {
    let mut l = MediaListener::new();
    assert_eq!(l.state().title, "Sin música");
    assert_eq!(l.state().status, "stopped");
    let u = l.on_media_properties("Song".to_string(), "Band".to_string(), true, Some(vec![1, 2]));
    match u {
        Some(MediaUpdate::MediaInfo { title, status, has_player, thumbnail, .. }) => {
            assert_eq!(title, "Song");
            assert_eq!(status, "playing");
            assert!(has_player);
            assert_eq!(thumbnail, Some(vec![1, 2]));
        }
        _ => panic!("expected an update"),
    }
    assert!(l.on_media_properties("Song".to_string(), "Band".to_string(), true, Some(vec![1, 2])).is_none());
    match l.on_playback_changed(false) {
        Some(MediaUpdate::PlaybackStatus(s)) => assert_eq!(s, "paused"),
        _ => panic!("expected a status update"),
    }
    assert!(l.on_playback_changed(false).is_none());
    let u = l.on_media_properties("Sin música".to_string(), String::new(), false, None);
    match u {
        Some(MediaUpdate::MediaInfo { status, has_player, thumbnail, .. }) => {
            assert_eq!(status, "stopped");
            assert!(!has_player);
            assert_eq!(thumbnail, None);
        }
        _ => panic!("expected an update"),
    }
    assert!(l.state().thumbnail.is_empty());
    let (t, a, p, th) = session_properties(None);
    assert_eq!((t.as_str(), a.as_str(), p, th), ("Sin música", "", false, None));
    let (t, _, _, th) = session_properties(Some((String::new(), "x".to_string(), true, vec![])));
    assert_eq!(t, "Sin música");
    assert_eq!(th, None);
}

#[test]
fn thumbnail_updates_every_second_tick() {
    let mut cache = ThumbnailCache::new();
    let art = vec![7u8; 150];
    assert!(cache.update_thumbnail(&art).is_none());
    assert!(cache.update_thumbnail(&art).is_none());
    assert!(cache.update_thumbnail(&[1u8; 10]).is_none());
}

#[test]
fn size_distance_cases() {
    assert_eq!(size_distance("48x48"), 0);
    assert_eq!(size_distance("48x48/apps"), 0);
    assert_eq!(size_distance("32x32@2x/apps"), 16);
    assert_eq!(size_distance("256x256"), 208);
    assert_eq!(size_distance("scalable/apps"), 24);
    assert_eq!(size_distance("SCALABLE"), 24);
    assert_eq!(size_distance("+16"), 32);
    assert_eq!(size_distance("symbolic"), u32::MAX);
    assert_eq!(size_distance(""), u32::MAX);
}

#[test]
fn index_theme_keys() {
    let content = "[Icon Theme]\nName=Test\n  Directories= 16x16/apps, ,48x48/apps\r\nInherits=hicolor\n";
    assert_eq!(key_list_of(content, "Directories="), Some(vec!["16x16/apps".to_string(), "48x48/apps".to_string()]));
    assert_eq!(key_list_of(content, "Inherits="), Some(vec!["hicolor".to_string()]));
    assert_eq!(key_list_of(content, "Missing="), None);
    assert_eq!(key_list_of("Directories=", "Directories="), Some(vec![]));
}

#[test]
fn theme_name_and_dirs() {
    assert_eq!(icon_theme_name(true, "'Adwaita'\n"), "Adwaita");
    assert_eq!(icon_theme_name(true, "Papirus"), "Papirus");
    assert_eq!(icon_theme_name(true, "''"), "hicolor");
    assert_eq!(icon_theme_name(true, "'"), "'");
    assert_eq!(icon_theme_name(false, "'Adwaita'"), "hicolor");
    assert_eq!(
        build_icon_search_dirs(Some("/home/u"), None, None),
        vec!["/home/u/.icons", "/home/u/.local/share/icons", "/usr/local/share/icons", "/usr/share/icons"]
    );
    assert_eq!(
        build_icon_search_dirs(None, Some("/x"), Some("/a:/b")),
        vec!["/a/icons", "/b/icons"]
    );
}

fn strings(v: &[&str]) -> Vec<String> {
    v.iter().map(|s| s.to_string()).collect()
}

fn sample_fs() -> IconFs {
    IconFs {
        dirs: strings(&[
            "/usr/share/icons/Custom",
            "/usr/share/icons/Custom/16x16",
            "/usr/share/icons/Custom/16x16/apps",
            "/usr/share/icons/Custom/scalable",
            "/usr/share/icons/hicolor",
            "/usr/share/icons/hicolor/48x48",
            "/usr/share/icons/hicolor/48x48/apps",
            "/usr/share/icons/hicolor/64x64",
            "/usr/share/icons/hicolor/64x64/apps",
        ]),
        files: strings(&[
            "/usr/share/icons/Custom/16x16/apps/term.png",
            "/usr/share/icons/Custom/scalable/term.svg",
            "/usr/share/icons/hicolor/64x64/apps/firefox.png",
            "/usr/share/icons/hicolor/48x48/apps/firefox.svg",
            "/usr/share/pixmaps/old.xpm",
        ]),
        texts: vec![
            ("/usr/share/icons/Custom/index.theme".to_string(), "Inherits=Missing,hicolor\n".to_string()),
            (
                "/usr/share/icons/hicolor/index.theme".to_string(),
                "Directories=64x64/apps,48x48/apps\n".to_string(),
            ),
        ],
    }
}

#[test]
fn theme_directories_scanned_and_listed() {
    let fs = sample_fs();
    assert_eq!(
        scan_theme_subdirs_recursive(&fs, &"/usr/share/icons/Custom".to_string()),
        strings(&["16x16", "16x16/apps", "scalable"])
    );
    assert_eq!(
        parse_theme_inherits(&fs, &"Custom".to_string(), &strings(&["/home/u/.icons", "/usr/share/icons"])),
        strings(&["Missing", "hicolor"])
    );
    assert_eq!(
        find_icon_in_theme_dir(&fs, &"/usr/share/icons/Custom".to_string(), "term"),
        Some("/usr/share/icons/Custom/scalable/term.svg".to_string())
    );
    assert_eq!(
        find_icon_in_theme_dir(&fs, &"/usr/share/icons/hicolor".to_string(), "firefox"),
        Some("/usr/share/icons/hicolor/48x48/apps/firefox.svg".to_string())
    );
}

#[test]
fn lookup_follows_chain_then_pixmaps() {
    let fs = sample_fs();
    let dirs = strings(&["/home/u/.icons", "/usr/share/icons"]);
    assert_eq!(
        get_image_path("firefox", "Custom", &dirs, &fs),
        Some("/usr/share/icons/hicolor/48x48/apps/firefox.svg".to_string())
    );
    assert_eq!(get_image_path("term", "hicolor", &dirs, &fs), None);
    assert_eq!(get_image_path("term", "Custom", &dirs, &fs), Some("/usr/share/icons/Custom/scalable/term.svg".to_string()));
    assert_eq!(get_image_path("old", "Nope", &dirs, &fs), Some("/usr/share/pixmaps/old.xpm".to_string()));
    assert_eq!(get_image_path("none", "Custom", &dirs, &fs), None);
}

fn png_bytes(w: u32, h: u32) -> Vec<u8> {
    let img = image::RgbaImage::from_pixel(w, h, image::Rgba([10, 20, 30, 255]));
    let mut out = std::io::Cursor::new(Vec::new());
    img.write_to(&mut out, image::ImageFormat::Png).unwrap();
    let mut bytes = out.into_inner();
    while bytes.len() < 100 {
        bytes.push(0);
    }
    bytes
}

#[test]
fn thumbnail_decodes_new_art_on_even_ticks() {
    let mut cache = ThumbnailCache::new();
    let art = png_bytes(3, 2);
    assert!(cache.update_thumbnail(&art).is_none());
    let (w, h, px) = cache.update_thumbnail(&art).unwrap();
    assert_eq!((w, h), (3, 2));
    assert_eq!(&px[0..4], &[10, 20, 30, 255]);
    assert!(cache.update_thumbnail(&art).is_none());
    assert!(cache.update_thumbnail(&art).is_none());
    let big = png_bytes(600, 2);
    assert!(cache.update_thumbnail(&big).is_none());
    assert!(cache.update_thumbnail(&big).is_none());
}

#[test]
fn tray_icons_resampled_to_eighteen() {
    let (px, w, h) = icon_from_rgba(36, 36, vec![200; 36 * 36 * 4]);
    assert_eq!((w, h), (18, 18));
    assert_eq!(px.len(), 18 * 18 * 4);
    let (px, _, _) = icon_from_rgba(18, 18, [1u8, 2, 3, 4].repeat(18 * 18));
    assert_eq!(&px[0..4], &[4, 1, 2, 3]);
}

#[test]
fn playback_state_of_session() {
    assert!(playback_is_playing(Some(SessionPlayback::Playing)));
    assert!(!playback_is_playing(Some(SessionPlayback::Paused)));
    assert!(!playback_is_playing(None));
}

#[test]
fn media_widget_view() {
    let v = media_view(None);
    assert_eq!((v.title.as_str(), v.artist.as_str(), v.status.as_str(), v.has_player), ("Sin música", "", "stopped", false));
    let v = media_view(Some((Some("T".to_string()), Some(vec!["A".to_string()]), Some(PlaybackStatus::Paused))));
    assert_eq!((v.title.as_str(), v.artist.as_str(), v.status.as_str(), v.has_player), ("T", "A", "paused", true));
    let v = media_view(Some((None, None, None)));
    assert_eq!((v.title.as_str(), v.artist.as_str(), v.status.as_str(), v.has_player), ("", "", "stopped", false));
}

#[test]
fn notification_input_region() {
    assert_eq!(input_region(Some(120)), Some((0, 0, 300, 122)));
    assert_eq!(input_region(Some(-2)), None);
    assert_eq!(input_region(None), None);
}
