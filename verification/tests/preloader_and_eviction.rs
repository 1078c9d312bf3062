//! The preloader's window, concurrency cap and cache maintenance.

use medars::app::App;
use medars::types::{DecodeTier, ImageLoadEvent};

fn names(v: Vec<&str>) -> Vec<String> {
    v.into_iter().map(|s| s.to_string()).collect()
}

fn complete(path: &str, handle: u32) -> ImageLoadEvent<u32> {
    ImageLoadEvent::LoadComplete { file_path: path.to_string(), protocol: handle }
}

fn fail(path: &str, why: &str) -> ImageLoadEvent<u32> {
    ImageLoadEvent::LoadError { file_path: path.to_string(), error: why.to_string() }
}

#[test]
fn preloader_issues_one_neighbour_per_pass_up_to_the_cap() {
    let dir = "d".to_string();
    let mut app: App<u32> =
        App::new(names(vec!["a.jpg", "b.jpg", "c.jpg", "e.jpg", "f.jpg"]), true);
    // Selection 0 with nothing pending: the window is entries 0..3.
    let first = app.preload_nearby_images(&dir).expect("first pass issues a request");
    assert_eq!(first.file_path, "d/b.jpg");
    assert!(first.tier == DecodeTier::Normal);
    assert_eq!(app.loading_images.len(), 1);

    let second = app.preload_nearby_images(&dir).expect("second pass issues a request");
    assert_eq!(second.file_path, "d/c.jpg");
    assert_eq!(app.loading_images.len(), 2);

    // The concurrency cap (2) now blocks further preloading.
    assert!(app.preload_nearby_images(&dir).is_none());
    assert_eq!(app.loading_images.len(), 2);
}

#[test]
fn preloader_skips_non_images_and_the_selection_itself() {
    let dir = "d".to_string();
    let mut app: App<u32> =
        App::new(names(vec!["notes.txt", "a.jpg", "b.jpg"]), true);
    app.selected = 1;
    app.previous_selected = 1;
    // Window is 0..3; entry 0 is no image and entry 1 is the selection,
    // so the first eligible neighbour is entry 2.
    let req = app.preload_nearby_images(&dir).unwrap();
    assert_eq!(req.file_path, "d/b.jpg");
}

#[test]
fn preloader_window_is_clipped_at_the_list_ends() {
    let dir = "d".to_string();
    let mut app: App<u32> = App::new(names(vec!["a.jpg", "b.jpg"]), true);
    app.selected = 1;
    app.previous_selected = 1;
    // Window around the last entry reaches back two entries only.
    let req = app.preload_nearby_images(&dir).unwrap();
    assert_eq!(req.file_path, "d/a.jpg");
    assert_eq!(app.loading_images.len(), 1);
    // Nothing else is eligible.
    assert!(app.preload_nearby_images(&dir).is_none());
    assert_eq!(app.loading_images.len(), 1);
}

#[test]
fn preloader_skips_loaded_failed_and_loading_neighbours() {
    let dir = "d".to_string();
    let mut app: App<u32> =
        App::new(names(vec!["a.jpg", "b.jpg", "c.jpg"]), true);
    app.process_image_load_events(vec![complete("d/b.jpg", 1), fail("d/c.jpg", "no")]);
    // b.jpg is Loaded and c.jpg is Failed: no eligible neighbour is left.
    assert!(app.preload_nearby_images(&dir).is_none());
    assert_eq!(app.loading_images.len(), 0);
}

#[test]
fn preloader_waits_while_the_current_selection_loads() {
    let dir = "d".to_string();
    let mut app: App<u32> = App::new(names(vec!["a.jpg", "b.jpg"]), true);
    let _ = app.update_selection(&dir, Some("m".to_string()));
    assert!(app.pending_current_load.is_some());
    assert!(app.preload_nearby_images(&dir).is_none());
    assert_eq!(app.loading_images.len(), 1);
    // Once the current load answers, preloading resumes.
    app.process_image_load_events(vec![complete("d/a.jpg", 1)]);
    let req = app.preload_nearby_images(&dir).unwrap();
    assert_eq!(req.file_path, "d/b.jpg");
}

#[test]
fn without_graphics_no_requests_are_ever_issued() {
    let dir = "d".to_string();
    let mut app: App<u32> = App::new(names(vec!["a.jpg", "b.jpg"]), false);
    let req = app.update_selection(&dir, Some("m".to_string()));
    assert!(req.is_none());
    assert_eq!(app.loading_images.len(), 0);
    // The pending marker is still set for the selection's own load.
    assert_eq!(app.pending_current_load, Some("d/a.jpg".to_string()));
}

#[test]
fn failed_set_is_cleared_once_it_exceeds_twenty() {
    let dir = "d".to_string();
    let mut app: App<u32> = App::new(names(vec!["notes.txt"]), true);
    let mut events = Vec::new();
    for i in 0..21 {
        events.push(fail(&format!("d/old{}.jpg", i), "no"));
    }
    app.process_image_load_events(events);
    assert_eq!(app.failed_images.len(), 21);
    // A pass at 21 entries clears Failed entirely.
    assert!(app.preload_nearby_images(&dir).is_none());
    assert_eq!(app.failed_images.len(), 0);
}

#[test]
fn failed_set_of_exactly_twenty_is_kept() {
    let dir = "d".to_string();
    let mut app: App<u32> = App::new(names(vec!["notes.txt"]), true);
    let mut events = Vec::new();
    for i in 0..20 {
        events.push(fail(&format!("d/old{}.jpg", i), "no"));
    }
    app.process_image_load_events(events);
    let _ = app.preload_nearby_images(&dir);
    assert_eq!(app.failed_images.len(), 20);
}

#[test]
fn loaded_set_past_fifty_keeps_only_listed_paths() {
    let dir = "d".to_string();
    let files: Vec<String> = (0..5).map(|i| format!("g{}.jpg", i)).collect();
    let mut app: App<u32> = App::new(files, true);
    let mut events = Vec::new();
    for i in 0..51 {
        events.push(complete(&format!("d/g{}.jpg", i), i));
    }
    app.process_image_load_events(events);
    assert_eq!(app.loaded_images.len(), 51);
    // All neighbours are already Loaded, so the pass only evicts.
    assert!(app.preload_nearby_images(&dir).is_none());
    assert_eq!(app.loaded_images.len(), 5);
    for i in 0..5 {
        assert!(app.loaded_images.contains(&format!("d/g{}.jpg", i)));
    }
    assert!(!app.loaded_images.contains(&"d/g10.jpg".to_string()));
}

#[test]
fn loaded_set_of_exactly_fifty_is_kept_whole() {
    let dir = "d".to_string();
    let mut app: App<u32> = App::new(names(vec!["notes.txt"]), true);
    let mut events = Vec::new();
    for i in 0..50 {
        events.push(complete(&format!("d/g{}.jpg", i), i));
    }
    app.process_image_load_events(events);
    let _ = app.preload_nearby_images(&dir);
    assert_eq!(app.loaded_images.len(), 50);
}

#[test]
fn skipped_passes_do_no_maintenance() {
    let dir = "d".to_string();
    let mut app: App<u32> = App::new(names(vec!["a.jpg"]), true);
    let mut events = Vec::new();
    for i in 0..21 {
        events.push(fail(&format!("d/old{}.jpg", i), "no"));
    }
    app.process_image_load_events(events);
    // While the current selection's load is pending the whole pass is
    // skipped, eviction included.
    let _ = app.update_selection(&dir, Some("m".to_string()));
    assert!(app.pending_current_load.is_some());
    assert!(app.preload_nearby_images(&dir).is_none());
    assert_eq!(app.failed_images.len(), 21);
}
