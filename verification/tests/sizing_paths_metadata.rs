//! Target-size formulas, path/extension logic, the metadata text cache,
//! status derivation and key handling.

use medars::app::App;
use medars::decode::{decode_fallback, should_downscale};
use medars::fast_image_loader::{normal_target_size, priority_target_size, FastImageLoader};
use medars::image_utils::{metadata_error_text, ImageUtils};
use medars::paths::{is_image_path, join_path};
use medars::types::{DecodeTier, FocusedPanel, ImageLoadEvent, ImageLoadStatus, KeyInput};

fn names(v: Vec<&str>) -> Vec<String> {
    v.into_iter().map(|s| s.to_string()).collect()
}

#[test]
fn terminal_display_size_scales_cells_and_caps() {
    assert_eq!(FastImageLoader::get_terminal_display_size(80, 24), (640, 384));
    assert_eq!(FastImageLoader::get_terminal_display_size(200, 50), (800, 600));
    assert_eq!(FastImageLoader::get_terminal_display_size(0, 0), (0, 0));
    assert_eq!(FastImageLoader::get_terminal_display_size(100, 37), (800, 592));
}

#[test]
fn normal_target_size_caps_at_600_by_400() {
    assert_eq!(normal_target_size(None, None), (600, 400));
    assert_eq!(normal_target_size(Some(80), None), (600, 400));
    assert_eq!(normal_target_size(Some(80), Some(24)), (600, 384));
    assert_eq!(normal_target_size(Some(10), Some(10)), (80, 160));
}

#[test]
fn priority_target_size_caps_at_500_by_350() {
    assert_eq!(priority_target_size(None, None), (500, 350));
    assert_eq!(priority_target_size(Some(80), Some(24)), (500, 350));
    assert_eq!(priority_target_size(Some(10), Some(10)), (80, 160));
}

#[test]
fn join_path_inserts_one_separator() {
    assert_eq!(join_path("d", "a.jpg"), "d/a.jpg");
    assert_eq!(join_path("", "a.jpg"), "/a.jpg");
    assert_eq!(join_path("x/y", "z.png"), "x/y/z.png");
}

#[test]
fn image_extensions_are_recognised_case_insensitively() {
    assert!(is_image_path("a.jpg"));
    assert!(is_image_path("A.JPG"));
    assert!(is_image_path("photo.Jpeg"));
    assert!(is_image_path("dir/pic.png"));
    assert!(is_image_path("x.gif"));
    assert!(is_image_path("x.bmp"));
    assert!(is_image_path("x.tif"));
    assert!(is_image_path("x.tiff"));
    assert!(is_image_path("x.webp"));
    assert!(is_image_path("archive.tar.jpg"));
}

#[test]
fn non_image_paths_are_rejected() {
    assert!(!is_image_path("notes.txt"));
    assert!(!is_image_path("noextension"));
    assert!(!is_image_path(".bashrc"));
    assert!(!is_image_path("trailing."));
    assert!(!is_image_path("archive.tar.gz"));
    assert!(!is_image_path("dir.jpg/file"));
    assert!(!is_image_path(""));
    assert!(!is_image_path("d/"));
    assert!(!is_image_path("jpg"));
}

#[test]
fn metadata_cache_hits_by_file_name() {
    let mut utils = ImageUtils::new();
    let file = "a.jpg".to_string();
    assert!(utils.needs_fetch(&file));
    let text = utils.get_metadata_for_display(&file, Some("fields".to_string()));
    assert_eq!(text, "fields");
    // Cached now: the provider is not needed and its answer is ignored.
    assert!(!utils.needs_fetch(&file));
    let again = utils.get_metadata_for_display(&file, None);
    assert_eq!(again, "fields");
}

#[test]
fn metadata_provider_failure_degrades_to_an_error_line() {
    let mut utils = ImageUtils::new();
    let file = "b.png".to_string();
    let text = utils.get_metadata_for_display(&file, None);
    assert_eq!(text, "Error reading metadata for: b.png");
    assert_eq!(metadata_error_text(&"x".to_string()), "Error reading metadata for: x");
}

#[test]
fn status_chain_follows_the_specified_order() {
    let dir = "d".to_string();
    // No selection yet.
    let app: App<u32> = App::new(names(vec!["a.jpg"]), true);
    assert!(app.get_image_load_status() == ImageLoadStatus::NotImage);

    // A non-image selection.
    let mut app: App<u32> = App::new(names(vec!["notes.txt"]), true);
    let _ = app.update_selection(&dir, Some("m".to_string()));
    assert!(app.get_image_load_status() == ImageLoadStatus::NotImage);

    // An image without a graphics capability.
    let mut app: App<u32> = App::new(names(vec!["a.jpg"]), false);
    let _ = app.update_selection(&dir, Some("m".to_string()));
    assert!(app.get_image_load_status() == ImageLoadStatus::UnsupportedTerminal);

    // Loading, Failed, Loaded, and the not-yet-requested fallback.
    let mut app: App<u32> = App::new(names(vec!["a.jpg"]), true);
    let _ = app.update_selection(&dir, Some("m".to_string()));
    assert!(app.get_image_load_status() == ImageLoadStatus::Loading);
    app.process_image_load_events(vec![ImageLoadEvent::LoadError {
        file_path: "d/a.jpg".to_string(),
        error: "no".to_string(),
    }]);
    assert!(app.get_image_load_status() == ImageLoadStatus::Failed);
    app.process_image_load_events(vec![ImageLoadEvent::LoadComplete {
        file_path: "d/a.jpg".to_string(),
        protocol: 3,
    }]);
    // Failed still holds the path and wins over the installed handle.
    assert!(app.get_image_load_status() == ImageLoadStatus::Failed);

    // A fresh engine whose image was loaded: handle installed.
    let mut app: App<u32> = App::new(names(vec!["a.jpg"]), true);
    let _ = app.update_selection(&dir, Some("m".to_string()));
    app.process_image_load_events(vec![ImageLoadEvent::LoadComplete {
        file_path: "d/a.jpg".to_string(),
        protocol: 3,
    }]);
    assert!(app.get_image_load_status() == ImageLoadStatus::Loaded);
}

#[test]
fn keys_move_focus_selection_and_scroll_within_bounds() {
    let mut app: App<u32> = App::new(names(vec!["a.jpg", "b.jpg", "c.jpg"]), true);
    assert!(app.focused_panel == FocusedPanel::Left);

    // Selection moves within the list bounds.
    app.handle_input(KeyInput::Up, 10);
    assert_eq!(app.selected, 0);
    app.handle_input(KeyInput::Down, 10);
    app.handle_input(KeyInput::Down, 10);
    app.handle_input(KeyInput::Down, 10);
    assert_eq!(app.selected, 2);

    // Panel focus toggles either way.
    app.handle_input(KeyInput::NextPanel, 10);
    assert!(app.focused_panel == FocusedPanel::Middle);
    app.handle_input(KeyInput::NextPanel, 10);
    assert!(app.focused_panel == FocusedPanel::Left);
    app.handle_input(KeyInput::PrevPanel, 10);
    assert!(app.focused_panel == FocusedPanel::Middle);

    // With the middle panel focused, up/down scroll within max_scroll.
    app.handle_input(KeyInput::Down, 2);
    app.handle_input(KeyInput::Down, 2);
    app.handle_input(KeyInput::Down, 2);
    assert_eq!(app.mid_scroll, 2);
    app.handle_input(KeyInput::Up, 2);
    assert_eq!(app.mid_scroll, 1);
    // The selection was untouched while the middle panel had focus.
    assert_eq!(app.selected, 2);

    app.handle_input(KeyInput::Other, 2);
    assert!(app.running);
    app.handle_input(KeyInput::Quit, 2);
    assert!(!app.running);
}

#[test]
fn empty_list_selection_reports_no_files() {
    let dir = "d".to_string();
    let mut app: App<u32> = App::new(Vec::new(), true);
    let req = app.update_selection(&dir, Some("ignored".to_string()));
    assert!(req.is_none());
    assert_eq!(app.cached_metadata_text, "No files available");
    assert!(app.image_path.is_none());
    assert!(app.get_image_load_status() == ImageLoadStatus::NotImage);
    // A second frame with the same selection is a no-op.
    let req = app.update_selection(&dir, None);
    assert!(req.is_none());
}

#[test]
fn downscaling_happens_only_when_the_image_exceeds_the_target() {
    assert!(should_downscale(601, 100, 600, 400));
    assert!(should_downscale(100, 401, 600, 400));
    assert!(should_downscale(700, 500, 600, 400));
    assert!(!should_downscale(600, 400, 600, 400));
    assert!(!should_downscale(1, 1, 600, 400));
}

#[test]
fn decode_fallback_reports_a_missing_file_as_an_error() {
    let r = decode_fallback(&"no_such_file.jpg".to_string(), 100, 100, DecodeTier::Normal);
    assert!(r.is_err());
    let r = decode_fallback(&"no_such_file.png".to_string(), 50, 50, DecodeTier::Priority);
    assert!(r.is_err());
}
