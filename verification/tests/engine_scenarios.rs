//! End-to-end scenarios driving the engine frame by frame, with a plain
//! integer standing in for the renderable handle.

use medars::app::App;
use medars::types::{DecodeRequest, DecodeTier, ImageLoadEvent, ImageLoadStatus};

fn names(v: Vec<&str>) -> Vec<String> {
    v.into_iter().map(|s| s.to_string()).collect()
}

fn loading_contains(app: &App<u32>, p: &str) -> bool {
    app.loading_images.contains(&p.to_string())
}

fn failed_contains(app: &App<u32>, p: &str) -> bool {
    app.failed_images.contains(&p.to_string())
}

fn loaded_contains(app: &App<u32>, p: &str) -> bool {
    app.loaded_images.contains(&p.to_string())
}

fn complete(path: &str, handle: u32) -> ImageLoadEvent<u32> {
    ImageLoadEvent::LoadComplete { file_path: path.to_string(), protocol: handle }
}

fn fail(path: &str, why: &str) -> ImageLoadEvent<u32> {
    ImageLoadEvent::LoadError { file_path: path.to_string(), error: why.to_string() }
}

#[test]
fn scenario_single_jpg_normal_then_loaded() {
    let dir = "d".to_string();
    let mut app: App<u32> = App::new(names(vec!["a.jpg"]), true);

    let req = app.update_selection(&dir, Some("meta".to_string()));
    let req = req.expect("selecting an image must issue a request");
    assert_eq!(req.file_path, "d/a.jpg");
    assert!(req.tier == DecodeTier::Normal);
    // No terminal size reported yet: the Normal caps apply outright.
    assert_eq!((req.width, req.height), (600, 400));
    assert!(loading_contains(&app, "d/a.jpg"));
    assert!(app.pending_current_load == Some("d/a.jpg".to_string()));
    assert!(app.get_image_load_status() == ImageLoadStatus::Loading);
    assert_eq!(app.cached_metadata_text, "meta");

    // The preloader must not run while the current load is pending.
    assert!(app.preload_nearby_images(&dir).is_none());

    app.process_image_load_events(vec![complete("d/a.jpg", 7)]);
    assert!(app.get_image_load_status() == ImageLoadStatus::Loaded);
    assert_eq!(app.image_state, Some(7));
    assert!(loaded_contains(&app, "d/a.jpg"));
    assert!(!loading_contains(&app, "d/a.jpg"));
    assert!(app.pending_current_load.is_none());
    assert_eq!(app.last_loaded_path, Some("d/a.jpg".to_string()));
}

#[test]
fn scenario_failed_png_retried_with_one_normal_request() {
    let dir = "d".to_string();
    let mut app: App<u32> = App::new(names(vec!["a.jpg", "b.png"]), true);

    app.selected = 1;
    let req = app.update_selection(&dir, Some("m".to_string()));
    assert!(req.is_some());
    app.process_image_load_events(vec![fail("d/b.png", "broken")]);
    assert!(failed_contains(&app, "d/b.png"));
    assert!(app.get_image_load_status() == ImageLoadStatus::Failed);

    // Navigate away, then back: the retry clears Failed and issues
    // exactly one new Normal request.
    app.selected = 0;
    let _ = app.update_selection(&dir, Some("m".to_string()));
    app.selected = 1;
    let retry = app.update_selection(&dir, None);
    let retry = retry.expect("re-selecting a failed path must retry");
    assert_eq!(retry.file_path, "d/b.png");
    assert!(retry.tier == DecodeTier::Normal);
    assert!(!failed_contains(&app, "d/b.png"));
    assert!(loading_contains(&app, "d/b.png"));
}

#[test]
fn scenario_rapid_navigation_always_issues_the_selection_first() {
    let dir = "d".to_string();
    let mut app: App<u32> =
        App::new(names(vec!["f0.jpg", "f1.jpg", "f2.jpg", "f3.jpg"]), true);

    let mut issued: Vec<DecodeRequest> = Vec::new();
    for frame in 0..4 {
        app.selected = frame;
        if let Some(r) = app.update_selection(&dir, Some("m".to_string())) {
            issued.push(r);
        }
        // The pending-current marker starves the preloader, so no
        // neighbour request sneaks in ahead of a selection's own.
        assert!(app.preload_nearby_images(&dir).is_none());
    }
    assert_eq!(issued.len(), 4);
    for (i, r) in issued.iter().enumerate() {
        assert_eq!(r.file_path, format!("d/f{}.jpg", i));
        assert!(r.tier == DecodeTier::Normal);
    }
    // Every selection's own load was issued: with no completions, all
    // four sit in Loading, each exactly once.
    assert_eq!(app.loading_images.len(), 4);
    for i in 0..4 {
        assert!(loading_contains(&app, &format!("d/f{}.jpg", i)));
    }
    assert_eq!(app.pending_current_load, Some("d/f3.jpg".to_string()));
}

#[test]
fn scenario_revisit_loaded_gif_uses_one_priority_request() {
    let dir = "d".to_string();
    let mut app: App<u32> = App::new(names(vec!["c.gif", "x.jpg"]), true);

    // First visit: Normal load completes and installs the handle.
    let first = app.update_selection(&dir, Some("m".to_string())).unwrap();
    assert!(first.tier == DecodeTier::Normal);
    app.process_image_load_events(vec![complete("d/c.gif", 1)]);
    assert_eq!(app.image_state, Some(1));

    // Away and back before any eviction.
    app.selected = 1;
    let away = app.update_selection(&dir, Some("m".to_string())).unwrap();
    assert_eq!(away.file_path, "d/x.jpg");
    app.selected = 0;
    let back = app.update_selection(&dir, None);
    let back = back.expect("revisiting a cached path must refresh it");
    assert_eq!(back.file_path, "d/c.gif");
    assert!(back.tier == DecodeTier::Priority);
    // The refresh keeps the cache entry; the old handle is replaced only
    // when the new one arrives.
    assert!(loaded_contains(&app, "d/c.gif"));
    app.process_image_load_events(vec![complete("d/c.gif", 2)]);
    assert_eq!(app.image_state, Some(2));
}

#[test]
fn revisit_of_last_displayed_path_keeps_the_handle_installed() {
    let dir = "d".to_string();
    let mut app: App<u32> = App::new(names(vec!["c.gif", "x.txt"]), true);

    // Load and display c.gif.
    let _ = app.update_selection(&dir, Some("m".to_string()));
    app.process_image_load_events(vec![complete("d/c.gif", 9)]);
    assert_eq!(app.image_state, Some(9));

    // Visit a non-image: the handle is not cleared for non-images, and
    // c.gif stays the last-displayed path.
    app.selected = 1;
    let none = app.update_selection(&dir, Some("m".to_string()));
    assert!(none.is_none());

    // Back to c.gif: it equals the last-displayed path and is Loaded, so
    // the Priority refresh must not blank the panel.
    app.selected = 0;
    let back = app.update_selection(&dir, None).unwrap();
    assert!(back.tier == DecodeTier::Priority);
    assert_eq!(app.image_state, Some(9));
}

#[test]
fn loading_and_failed_stay_mutually_exclusive() {
    let dir = "d".to_string();
    let mut app: App<u32> = App::new(names(vec!["a.jpg", "b.jpg"]), true);

    let _ = app.update_selection(&dir, Some("m".to_string()));
    app.process_image_load_events(vec![fail("d/a.jpg", "no")]);
    app.selected = 1;
    let _ = app.update_selection(&dir, Some("m".to_string()));
    app.selected = 0;
    let _ = app.update_selection(&dir, None);

    for p in app.loading_images.items.iter() {
        assert!(!app.failed_images.contains(p));
    }
    for p in app.failed_images.items.iter() {
        assert!(!app.loading_images.contains(p));
    }
}

#[test]
fn stale_results_update_bookkeeping_but_not_the_handle() {
    let dir = "d".to_string();
    let mut app: App<u32> = App::new(names(vec!["a.jpg", "b.jpg"]), true);

    let _ = app.update_selection(&dir, Some("m".to_string()));
    app.selected = 1;
    let _ = app.update_selection(&dir, Some("m".to_string()));
    // The user has moved on to b.jpg; a.jpg's result arrives late.
    app.process_image_load_events(vec![complete("d/a.jpg", 4)]);
    assert!(loaded_contains(&app, "d/a.jpg"));
    assert!(!loading_contains(&app, "d/a.jpg"));
    // The stale success is bookkeeping only: no handle is installed for
    // a path that is no longer current.
    assert_eq!(app.image_state, None);
    // b.jpg's own completion then installs its handle.
    app.process_image_load_events(vec![complete("d/b.jpg", 5)]);
    assert_eq!(app.image_state, Some(5));
}

#[test]
fn reselecting_a_loading_path_issues_no_second_request() {
    let dir = "d".to_string();
    let mut app: App<u32> = App::new(names(vec!["a.jpg", "b.jpg"]), true);
    let first = app.update_selection(&dir, Some("m".to_string()));
    assert!(first.is_some());
    // Navigate away and back while a.jpg is still in flight: Loading
    // membership is the mutual exclusion, so nothing new is issued.
    app.selected = 1;
    let _ = app.update_selection(&dir, Some("m".to_string()));
    app.selected = 0;
    let again = app.update_selection(&dir, None);
    assert!(again.is_none());
    // The path sits in Loading exactly once.
    let occurrences = app
        .loading_images
        .items
        .iter()
        .filter(|p| p.as_str() == "d/a.jpg")
        .count();
    assert_eq!(occurrences, 1);
}

#[test]
fn two_completions_for_the_current_path_keep_the_last_handle() {
    let dir = "d".to_string();
    let mut app: App<u32> = App::new(names(vec!["a.jpg"]), true);
    let _ = app.update_selection(&dir, Some("m".to_string()));
    app.process_image_load_events(vec![complete("d/a.jpg", 1), complete("d/a.jpg", 2)]);
    assert_eq!(app.image_state, Some(2));
    // Loaded holds the path once, not twice.
    assert_eq!(app.loaded_images.len(), 1);
}
