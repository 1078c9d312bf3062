//! The preview loading and caching engine.
//!
//! [`App`] owns the engine's whole state: the file listing, the selection,
//! the three path sets (Loading, Failed, Loaded), the pending-current
//! marker, the last-displayed path and the active renderable handle.  The
//! render loop drives it once per frame: drain worker events, run the
//! selection controller, run the preloader, then draw using the derived
//! status.  Decode workers never touch this state; they answer through
//! [`crate::types::ImageLoadEvent`] values which the loop hands to
//! [`App::process_image_load_events`].
//!
//! The engine decides, the surrounding program acts: methods that want a
//! decode started return the [`DecodeRequest`] to run, and the caller
//! spawns the worker and later feeds the outcome back.

use crate::fast_image_loader::{
    normal_target_size, priority_target_size, spec_normal_target_size, spec_priority_target_size,
};
use crate::image_utils::ImageUtils;
use crate::path_set::{lemma_push_membership, lemma_remove_value_absent, PathSet};
use crate::paths::{is_image_path, join_path, spec_is_image_path, spec_join};
use crate::types::{DecodeRequest, DecodeTier, FocusedPanel, ImageLoadEvent, ImageLoadStatus, KeyInput};
use vstd::prelude::*;

verus! {

/// Global cap on simultaneously loading paths that the preloader
/// respects; the current selection's own load counts against it.
pub const MAX_CONCURRENT_LOADS: usize = 2;

/// When Failed grows past this, the next preloader pass clears it.
pub const FAILED_EVICT_THRESHOLD: usize = 20;

/// When Loaded grows past this, the next preloader pass keeps only paths
/// still present in the directory listing.
pub const LOADED_EVICT_THRESHOLD: usize = 50;

/// How many neighbours on each side of the selection the preloader
/// considers.
pub const PRELOAD_RANGE: usize = 2;

/// What the selection controller's load policy decides for a path:
/// `Refresh` re-decodes a cached path at `Priority`, `Fresh` starts a
/// first `Normal` decode, `Retry` forgives a failure and decodes again at
/// `Normal`, and `Wait` leaves an in-flight decode alone.
pub enum LoadAction {
    Refresh,
    Fresh,
    Retry,
    Wait,
}

/// Whether `q` is the path of some entry of `files` inside `dir`.
pub open spec fn spec_in_listing(files: Seq<String>, dir: Seq<char>, q: Seq<char>) -> bool {
    exists|i: int| 0 <= i < files.len() && q == spec_join(dir, files[i]@)
}

/// `s` with `p` added, unless `p` is already a member.
pub open spec fn insert_path(s: Seq<Seq<char>>, p: Seq<char>) -> Seq<Seq<char>> {
    if s.contains(p) {
        s
    } else {
        s.push(p)
    }
}

/// Loading after draining `evs`: every event removes its path.
pub open spec fn drained_loading<H>(l: Seq<Seq<char>>, evs: Seq<ImageLoadEvent<H>>) -> Seq<
    Seq<char>,
>
    decreases evs.len(),
{
    if evs.len() == 0 {
        l
    } else {
        drained_loading(l.remove_value(evs[0].path()), evs.drop_first())
    }
}

/// Failed after draining `evs`: every failure event adds its path.
pub open spec fn drained_failed<H>(f: Seq<Seq<char>>, evs: Seq<ImageLoadEvent<H>>) -> Seq<
    Seq<char>,
>
    decreases evs.len(),
{
    if evs.len() == 0 {
        f
    } else {
        drained_failed(
            if evs[0] is LoadError {
                insert_path(f, evs[0].path())
            } else {
                f
            },
            evs.drop_first(),
        )
    }
}

/// Loaded after draining `evs`: every success event adds its path.
pub open spec fn drained_loaded<H>(l: Seq<Seq<char>>, evs: Seq<ImageLoadEvent<H>>) -> Seq<
    Seq<char>,
>
    decreases evs.len(),
{
    if evs.len() == 0 {
        l
    } else {
        drained_loaded(
            if evs[0] is LoadComplete {
                insert_path(l, evs[0].path())
            } else {
                l
            },
            evs.drop_first(),
        )
    }
}

/// Last-displayed path after draining `evs`: the path of the last
/// success event, if any.
pub open spec fn drained_last<H>(cur: Option<String>, evs: Seq<ImageLoadEvent<H>>) -> Option<
    String,
>
    decreases evs.len(),
{
    if evs.len() == 0 {
        cur
    } else {
        drained_last(
            if evs[0] is LoadComplete {
                Some(evs[0].path_string())
            } else {
                cur
            },
            evs.drop_first(),
        )
    }
}

/// Pending-current marker after draining `evs`: cleared as soon as any
/// event answers for the current selection's path `ip`.
pub open spec fn drained_pending<H>(
    p: Option<String>,
    ip: Option<Seq<char>>,
    evs: Seq<ImageLoadEvent<H>>,
) -> Option<String>
    decreases evs.len(),
{
    if evs.len() == 0 {
        p
    } else {
        drained_pending(
            if ip is Some && evs[0].path() == ip->0 {
                None
            } else {
                p
            },
            ip,
            evs.drop_first(),
        )
    }
}

/// Active handle after draining `evs`: the handle of the last success
/// event for the current selection's path `ip`, else unchanged.  Failure
/// events never clear an installed handle.
pub open spec fn drained_state<H>(
    st: Option<H>,
    ip: Option<Seq<char>>,
    evs: Seq<ImageLoadEvent<H>>,
) -> Option<H>
    decreases evs.len(),
{
    if evs.len() == 0 {
        st
    } else {
        drained_state(
            if evs[0] is LoadComplete && ip is Some && evs[0].path() == ip->0 {
                Some(evs[0].protocol())
            } else {
                st
            },
            ip,
            evs.drop_first(),
        )
    }
}

/// For all paths, Loading and Failed membership are mutually exclusive:
/// in a well-formed engine state no path is in both sets, and every
/// engine operation's `ensures` includes preservation of `App::wf`.
pub proof fn lemma_loading_failed_exclusive<H>(a: App<H>, p: Seq<char>)
    requires
        a.wf(),
    ensures
        !(a.loading_images@.contains(p) && a.failed_images@.contains(p)),
{
}

/// At most one decode request is outstanding per path: Loading holds
/// each path at most once in a well-formed state, and by the `ensures`
/// of the issuing functions a request is only issued for a path not yet
/// in Loading, which it then joins.
pub proof fn lemma_at_most_one_outstanding<H>(a: App<H>, i: int, j: int)
    requires
        a.wf(),
        0 <= i < j < a.loading_images@.len(),
    ensures
        a.loading_images@[i] != a.loading_images@[j],
{
}

/// Re-selecting a path already in Loaded never issues a `Normal`
/// request: the selection controller's load policy refreshes such a path
/// at `Priority` when it is not already loading, and otherwise waits, so
/// (by `update_selection`'s `ensures`) at most one `Priority` request
/// and no `Normal` request follows the re-selection.
pub proof fn lemma_loaded_reselect_policy<H>(a: App<H>, p: Seq<char>)
    requires
        a.loaded_images@.contains(p),
    ensures
        a.spec_load_action(p) == LoadAction::Refresh || a.spec_load_action(p)
            == LoadAction::Wait,
{
}

/// No flicker on revisit: when the newly selected path is the
/// last-displayed path and still in Loaded, the selection controller
/// keeps the active handle — `spec_should_clear` is false, so by
/// `update_selection`'s `ensures` the handle survives the `Priority`
/// refresh.
pub proof fn lemma_no_flicker_keeps_handle<H>(a: App<H>, p: Seq<char>)
    requires
        a.last_loaded_path matches Some(l) && l@ == p,
        a.loaded_images@.contains(p),
    ensures
        !a.spec_should_clear(p),
{
}

/// A drain pass never clears an installed handle: every event either
/// replaces it with a fresh one or leaves it alone, so between frames
/// the panel never goes blank while a refresh is in flight.
pub proof fn lemma_drain_never_clears_handle<H>(
    st: Option<H>,
    ip: Option<Seq<char>>,
    evs: Seq<ImageLoadEvent<H>>,
)
    requires
        st is Some,
    ensures
        drained_state(st, ip, evs) is Some,
    decreases evs.len(),
{
    if evs.len() > 0 {
        let st1 = if evs[0] is LoadComplete && ip is Some && evs[0].path() == ip->0 {
            Some(evs[0].protocol())
        } else {
            st
        };
        lemma_drain_never_clears_handle(st1, ip, evs.drop_first());
    }
}

/// The engine's state.  `H` is the opaque renderable handle the terminal
/// graphics capability produces; the engine moves it but never reads it.
pub struct App<H> {
    /// Metadata text cache.
    pub image_utils: ImageUtils,
    /// The active renderable handle, when one is installed.
    pub image_state: Option<H>,
    /// Path of the currently selected file, once a selection was made.
    pub image_path: Option<String>,
    /// Ordered file names of the active directory.
    pub files: Vec<String>,
    /// Index of the current selection.
    pub selected: usize,
    /// Selection index the last completed frame saw.
    pub previous_selected: usize,
    /// Metadata text for the current selection.
    pub cached_metadata_text: String,
    /// Which panel has input focus.
    pub focused_panel: FocusedPanel,
    /// Scroll offset of the metadata panel.
    pub mid_scroll: u16,
    /// Cleared when the user quits.
    pub running: bool,
    /// Paths with a decode in flight.
    pub loading_images: PathSet,
    /// Paths whose last decode failed.
    pub failed_images: PathSet,
    /// Paths decoded successfully at some point.
    pub loaded_images: PathSet,
    /// The current selection's path while its own load is outstanding.
    pub pending_current_load: Option<String>,
    /// Path of the image most recently decoded successfully.
    pub last_loaded_path: Option<String>,
    /// Whether the terminal offers a graphics capability.
    pub has_graphics: bool,
    /// Last reported terminal width, in cells.
    pub terminal_width: Option<u16>,
    /// Last reported terminal height, in cells.
    pub terminal_height: Option<u16>,
}

impl<H> App<H> {
    /// The engine's invariant: each path set is duplicate-free, and no
    /// path is in Loading and Failed at once.
    pub open spec fn wf(&self) -> bool {
        &&& self.loading_images.wf()
        &&& self.failed_images.wf()
        &&& self.loaded_images.wf()
        &&& forall|p: Seq<char>|
            !(self.loading_images@.contains(p) && self.failed_images@.contains(p))
    }

    /// Equality of everything the event drain never touches.
    pub open spec fn drain_untouched(pre: App<H>, post: App<H>) -> bool {
        &&& post.image_utils == pre.image_utils
        &&& post.image_path == pre.image_path
        &&& post.files == pre.files
        &&& post.selected == pre.selected
        &&& post.previous_selected == pre.previous_selected
        &&& post.cached_metadata_text == pre.cached_metadata_text
        &&& post.focused_panel == pre.focused_panel
        &&& post.mid_scroll == pre.mid_scroll
        &&& post.running == pre.running
        &&& post.has_graphics == pre.has_graphics
        &&& post.terminal_width == pre.terminal_width
        &&& post.terminal_height == pre.terminal_height
    }

    /// View of the current selection's path, when one is set.
    pub open spec fn current_path(&self) -> Option<Seq<char>> {
        match self.image_path {
            Some(p) => Some(p@),
            None => None,
        }
    }

    /// Creates the engine for a directory listing.  The previous
    /// selection starts at `usize::MAX` so that the first frame counts as
    /// a selection change; `has_graphics` says whether the terminal
    /// offers a graphics capability (without one the engine never issues
    /// decode requests and reports `UnsupportedTerminal` for images).
    pub fn new(files: Vec<String>, has_graphics: bool) -> (a: App<H>)
        ensures
            a.image_utils.cached_metadata is None,
            a.image_state is None,
            a.image_path is None,
            a.files == files,
            a.selected == 0,
            a.previous_selected == usize::MAX,
            a.cached_metadata_text@ == Seq::<char>::empty(),
            a.focused_panel == FocusedPanel::Left,
            a.mid_scroll == 0,
            a.running == true,
            a.loading_images@ == Seq::<Seq<char>>::empty(),
            a.failed_images@ == Seq::<Seq<char>>::empty(),
            a.loaded_images@ == Seq::<Seq<char>>::empty(),
            a.pending_current_load is None,
            a.last_loaded_path is None,
            a.has_graphics == has_graphics,
            a.terminal_width is None,
            a.terminal_height is None,
            a.wf(),
    {
        App {
            image_utils: ImageUtils::new(),
            image_state: None,
            image_path: None,
            files,
            selected: 0,
            previous_selected: usize::MAX,
            cached_metadata_text: String::new(),
            focused_panel: FocusedPanel::Left,
            mid_scroll: 0,
            running: true,
            loading_images: PathSet::new(),
            failed_images: PathSet::new(),
            loaded_images: PathSet::new(),
            pending_current_load: None,
            last_loaded_path: None,
            has_graphics,
            terminal_width: None,
            terminal_height: None,
        }
    }

    /// Records the terminal dimensions used for subsequent decode
    /// requests.
    pub fn update_terminal_size(&mut self, width: u16, height: u16)
        ensures
            *final(self) == (App {
                terminal_width: Some(width),
                terminal_height: Some(height),
                ..*old(self)
            }),
    {
        self.terminal_width = Some(width);
        self.terminal_height = Some(height);
    }

    /// Whether `path` names an image file, by its extension.
    pub fn is_image_file(&self, path: &String) -> (r: bool)
        ensures
            r == spec_is_image_path(path@),
    {
        is_image_path(path.as_str())
    }

    /// The status the renderer shows for the current selection, derived
    /// from the engine's sets; see `spec_status` for the decision chain.
    pub open spec fn spec_status(&self) -> ImageLoadStatus {
        match self.image_path {
            None => ImageLoadStatus::NotImage,
            Some(cp) => if !spec_is_image_path(cp@) {
                ImageLoadStatus::NotImage
            } else if !self.has_graphics {
                ImageLoadStatus::UnsupportedTerminal
            } else if self.loading_images@.contains(cp@) {
                ImageLoadStatus::Loading
            } else if self.failed_images@.contains(cp@) {
                ImageLoadStatus::Failed
            } else if self.image_state is Some {
                ImageLoadStatus::Loaded
            } else {
                ImageLoadStatus::Loading
            },
        }
    }

    /// Derives the loading status for the currently selected image:
    /// non-images are `NotImage`; without a graphics capability every
    /// image is `UnsupportedTerminal`; otherwise Loading and Failed
    /// membership decide, then an installed handle means `Loaded`, and a
    /// not-yet-requested image reads `Loading`.
    pub fn get_image_load_status(&self) -> (r: ImageLoadStatus)
        ensures
            r == self.spec_status(),
    {
        match &self.image_path {
            None => ImageLoadStatus::NotImage,
            Some(current_path) => {
                if !self.is_image_file(current_path) {
                    ImageLoadStatus::NotImage
                } else if !self.has_graphics {
                    ImageLoadStatus::UnsupportedTerminal
                } else if self.loading_images.contains(current_path) {
                    ImageLoadStatus::Loading
                } else if self.failed_images.contains(current_path) {
                    ImageLoadStatus::Failed
                } else if self.image_state.is_some() {
                    ImageLoadStatus::Loaded
                } else {
                    ImageLoadStatus::Loading
                }
            },
        }
    }

    /// Applies one decode outcome to the tracker, as the event drain does
    /// for each message: a success joins Loaded, becomes the
    /// last-displayed path, and installs its handle if it answers for the
    /// current selection; a failure joins Failed; either way the path
    /// leaves Loading, and an answer for the current selection clears the
    /// pending-current marker.
    pub fn apply_load_event(&mut self, event: ImageLoadEvent<H>)
        requires
            old(self).wf(),
        ensures
            final(self).wf(),
            App::drain_untouched(*old(self), *final(self)),
            final(self).loading_images@ == old(self).loading_images@.remove_value(event.path()),
            final(self).failed_images@ == (if event is LoadError {
                insert_path(old(self).failed_images@, event.path())
            } else {
                old(self).failed_images@
            }),
            final(self).loaded_images@ == (if event is LoadComplete {
                insert_path(old(self).loaded_images@, event.path())
            } else {
                old(self).loaded_images@
            }),
            final(self).last_loaded_path == (if event is LoadComplete {
                Some(event.path_string())
            } else {
                old(self).last_loaded_path
            }),
            final(self).pending_current_load == (if old(self).current_path() is Some
                && event.path() == old(self).current_path()->0 {
                None::<String>
            } else {
                old(self).pending_current_load
            }),
            final(self).image_state == (if event is LoadComplete && old(self).current_path()
                is Some && event.path() == old(self).current_path()->0 {
                Some(event.protocol())
            } else {
                old(self).image_state
            }),
    {
        match event {
            ImageLoadEvent::LoadComplete { file_path, protocol } => {
                self.loaded_images.insert(file_path.clone());
                self.last_loaded_path = Some(file_path.clone());
                let is_current = match &self.image_path {
                    Some(current_path) => current_path.eq(&file_path),
                    None => false,
                };
                if is_current {
                    self.image_state = Some(protocol);
                    self.pending_current_load = None;
                }
                self.loading_images.remove(&file_path);
                proof {
                    assert forall|p: Seq<char>|
                        !(final(self).loading_images@.contains(p)
                            && final(self).failed_images@.contains(p)) by {
                        if final(self).loading_images@.contains(p) {
                            assert(old(self).loading_images@.contains(p));
                        }
                    }
                }
            },
            ImageLoadEvent::LoadError { file_path, error: _ } => {
                self.failed_images.insert(file_path.clone());
                self.loading_images.remove(&file_path);
                let is_current = match &self.image_path {
                    Some(current_path) => current_path.eq(&file_path),
                    None => false,
                };
                if is_current {
                    self.pending_current_load = None;
                }
                proof {
                    let fv = file_path@;
                    let lpre = old(self).loading_images@;
                    let fpre = old(self).failed_images@;
                    let lpost = final(self).loading_images@;
                    let fpost = final(self).failed_images@;
                    assert forall|p: Seq<char>| !(lpost.contains(p) && fpost.contains(p)) by {
                        if lpost.contains(p) {
                            assert(lpre.contains(p) && p != fv);
                            if fpost.contains(p) {
                                if !fpre.contains(fv) {
                                    assert(fpost == fpre.push(fv));
                                    let j = choose|j: int|
                                        0 <= j < fpost.len() && fpost[j] == p;
                                    if j < fpre.len() {
                                        assert(fpre.contains(p));
                                    } else {
                                        assert(p == fv);
                                    }
                                } else {
                                    assert(fpre.contains(p));
                                }
                            }
                        }
                    }
                }
            },
        }
    }

    /// Drains a batch of worker events in order, applying each as
    /// `apply_load_event` does.  Out-of-order delivery across different
    /// paths is tolerated; per path at most one request is ever in
    /// flight, so per-path ordering is moot.
    pub fn process_image_load_events(&mut self, events: Vec<ImageLoadEvent<H>>)
        requires
            old(self).wf(),
        ensures
            final(self).wf(),
            App::drain_untouched(*old(self), *final(self)),
            final(self).loading_images@ == drained_loading(old(self).loading_images@, events@),
            final(self).failed_images@ == drained_failed(old(self).failed_images@, events@),
            final(self).loaded_images@ == drained_loaded(old(self).loaded_images@, events@),
            final(self).last_loaded_path == drained_last(old(self).last_loaded_path, events@),
            final(self).pending_current_load == drained_pending(
                old(self).pending_current_load,
                old(self).current_path(),
                events@,
            ),
            final(self).image_state == drained_state(
                old(self).image_state,
                old(self).current_path(),
                events@,
            ),
    {
        let ghost evs0 = events@;
        let mut evs = events;
        while evs.len() > 0
            invariant
                self.wf(),
                App::drain_untouched(*old(self), *self),
                old(self).wf(),
                drained_loading(old(self).loading_images@, evs0) == drained_loading(
                    self.loading_images@,
                    evs@,
                ),
                drained_failed(old(self).failed_images@, evs0) == drained_failed(
                    self.failed_images@,
                    evs@,
                ),
                drained_loaded(old(self).loaded_images@, evs0) == drained_loaded(
                    self.loaded_images@,
                    evs@,
                ),
                drained_last(old(self).last_loaded_path, evs0) == drained_last(
                    self.last_loaded_path,
                    evs@,
                ),
                drained_pending(
                    old(self).pending_current_load,
                    old(self).current_path(),
                    evs0,
                ) == drained_pending(
                    self.pending_current_load,
                    old(self).current_path(),
                    evs@,
                ),
                drained_state(old(self).image_state, old(self).current_path(), evs0)
                    == drained_state(self.image_state, old(self).current_path(), evs@),
            decreases evs.len(),
        {
            let ghost pre_evs = evs@;
            let ghost pre = *self;
            let e = evs.remove(0);
            proof {
                assert(evs@ =~= pre_evs.drop_first());
            }
            self.apply_load_event(e);
            proof {
                assert(pre.current_path() == old(self).current_path());
            }
        }
    }

    /// Equality of everything a request issue never touches: all fields
    /// but the three path sets.
    pub open spec fn issue_untouched(pre: App<H>, post: App<H>) -> bool {
        &&& post.image_utils == pre.image_utils
        &&& post.image_state == pre.image_state
        &&& post.image_path == pre.image_path
        &&& post.files == pre.files
        &&& post.selected == pre.selected
        &&& post.previous_selected == pre.previous_selected
        &&& post.cached_metadata_text == pre.cached_metadata_text
        &&& post.focused_panel == pre.focused_panel
        &&& post.mid_scroll == pre.mid_scroll
        &&& post.running == pre.running
        &&& post.pending_current_load == pre.pending_current_load
        &&& post.last_loaded_path == pre.last_loaded_path
        &&& post.has_graphics == pre.has_graphics
        &&& post.terminal_width == pre.terminal_width
        &&& post.terminal_height == pre.terminal_height
    }

    /// Books a first-time (`Normal`) decode of `file_path` and returns
    /// the request to run: the path leaves Failed and Loaded, joins
    /// Loading, and the request carries the `Normal` target size.  Issues
    /// nothing when the path is already loading or the terminal has no
    /// graphics capability.
    pub fn start_background_image_load(&mut self, file_path: String) -> (req: Option<
        DecodeRequest,
    >)
        requires
            old(self).wf(),
        ensures
            final(self).wf(),
            App::issue_untouched(*old(self), *final(self)),
            ({
                let p = file_path@;
                let s = *old(self);
                let t = *final(self);
                if s.loading_images@.contains(p) || !s.has_graphics {
                    &&& t.loading_images == s.loading_images
                    &&& t.failed_images == s.failed_images
                    &&& t.loaded_images == s.loaded_images
                    &&& req is None
                } else {
                    &&& t.loading_images@ == s.loading_images@.push(p)
                    &&& t.failed_images@ == s.failed_images@.remove_value(p)
                    &&& t.loaded_images@ == s.loaded_images@.remove_value(p)
                    &&& req matches Some(r) && r.file_path == file_path && r.tier
                        == DecodeTier::Normal && (r.width as int, r.height as int)
                        == spec_normal_target_size(s.terminal_width, s.terminal_height)
                }
            }),
    {
        if self.loading_images.contains(&file_path) {
            return None;
        }
        if !self.has_graphics {
            return None;
        }
        self.failed_images.remove(&file_path);
        self.loaded_images.remove(&file_path);
        self.loading_images.insert(file_path.clone());
        proof {
            let p = file_path@;
            assert(final(self).loading_images@ == old(self).loading_images@.push(p));
            let lpre = old(self).loading_images@;
            let lpost = final(self).loading_images@;
            let fpost = final(self).failed_images@;
            assert forall|q: Seq<char>| !(lpost.contains(q) && fpost.contains(q)) by {
                if lpost.contains(q) && fpost.contains(q) {
                    assert(q != p);
                    let j = choose|j: int| 0 <= j < lpost.len() && lpost[j] == q;
                    if j < lpre.len() {
                        assert(lpre.contains(q));
                    } else {
                        assert(q == p);
                    }
                    assert(old(self).failed_images@.contains(q));
                }
            }
        }
        let (width, height) = normal_target_size(self.terminal_width, self.terminal_height);
        Some(DecodeRequest { file_path, width, height, tier: DecodeTier::Normal })
    }

    /// Books a fast (`Priority`) re-decode of `file_path` and returns the
    /// request to run: the path leaves Failed and joins Loading, but
    /// stays in Loaded — a refresh keeps the cache entry.  The request
    /// carries the tighter `Priority` target size.  Issues nothing when
    /// the path is already loading or the terminal has no graphics
    /// capability.
    pub fn start_priority_image_load(&mut self, file_path: String) -> (req: Option<
        DecodeRequest,
    >)
        requires
            old(self).wf(),
        ensures
            final(self).wf(),
            App::issue_untouched(*old(self), *final(self)),
            ({
                let p = file_path@;
                let s = *old(self);
                let t = *final(self);
                if s.loading_images@.contains(p) || !s.has_graphics {
                    &&& t.loading_images == s.loading_images
                    &&& t.failed_images == s.failed_images
                    &&& t.loaded_images == s.loaded_images
                    &&& req is None
                } else {
                    &&& t.loading_images@ == s.loading_images@.push(p)
                    &&& t.failed_images@ == s.failed_images@.remove_value(p)
                    &&& t.loaded_images == s.loaded_images
                    &&& req matches Some(r) && r.file_path == file_path && r.tier
                        == DecodeTier::Priority && (r.width as int, r.height as int)
                        == spec_priority_target_size(s.terminal_width, s.terminal_height)
                }
            }),
    {
        if self.loading_images.contains(&file_path) {
            return None;
        }
        if !self.has_graphics {
            return None;
        }
        self.failed_images.remove(&file_path);
        self.loading_images.insert(file_path.clone());
        proof {
            let p = file_path@;
            assert(final(self).loading_images@ == old(self).loading_images@.push(p));
            let lpre = old(self).loading_images@;
            let lpost = final(self).loading_images@;
            let fpost = final(self).failed_images@;
            assert forall|q: Seq<char>| !(lpost.contains(q) && fpost.contains(q)) by {
                if lpost.contains(q) && fpost.contains(q) {
                    assert(q != p);
                    let j = choose|j: int| 0 <= j < lpost.len() && lpost[j] == q;
                    if j < lpre.len() {
                        assert(lpre.contains(q));
                    } else {
                        assert(q == p);
                    }
                    assert(old(self).failed_images@.contains(q));
                }
            }
        }
        let (width, height) = priority_target_size(self.terminal_width, self.terminal_height);
        Some(DecodeRequest { file_path, width, height, tier: DecodeTier::Priority })
    }

    /// Whether the selection moved since the last completed frame.
    pub open spec fn sel_changed(&self) -> bool {
        self.selected != self.previous_selected
    }

    /// Whether the current selection points into the file list.
    pub open spec fn sel_in_bounds(&self) -> bool {
        self.files@.len() > 0 && self.selected < self.files@.len()
    }

    /// The currently selected file name.
    pub open spec fn sel_file(&self) -> String
        recommends
            self.sel_in_bounds(),
    {
        self.files@[self.selected as int]
    }

    /// Whether the active handle is cleared when moving to path `p`: it
    /// is kept only when `p` is the last-displayed path and still in
    /// Loaded, so that revisiting a cached image never blanks the panel.
    pub open spec fn spec_should_clear(&self, p: Seq<char>) -> bool {
        !(match self.last_loaded_path {
            Some(l) => l@ == p,
            None => false,
        } && self.loaded_images@.contains(p))
    }

    /// The load policy for selecting path `p`, evaluated in order:
    /// a Loaded path not currently loading is refreshed with `Priority`;
    /// an unknown path is freshly loaded with `Normal`; a Failed path is
    /// retried with `Normal`; a path already loading is awaited.
    pub open spec fn spec_load_action(&self, p: Seq<char>) -> LoadAction {
        if self.loaded_images@.contains(p) {
            if !self.loading_images@.contains(p) {
                LoadAction::Refresh
            } else {
                LoadAction::Wait
            }
        } else if !self.loading_images@.contains(p) && !self.failed_images@.contains(p) {
            LoadAction::Fresh
        } else if self.failed_images@.contains(p) {
            LoadAction::Retry
        } else {
            LoadAction::Wait
        }
    }

    /// Equality of everything the selection controller never touches.
    pub open spec fn select_untouched(pre: App<H>, post: App<H>) -> bool {
        &&& post.files == pre.files
        &&& post.selected == pre.selected
        &&& post.focused_panel == pre.focused_panel
        &&& post.running == pre.running
        &&& post.last_loaded_path == pre.last_loaded_path
        &&& post.has_graphics == pre.has_graphics
        &&& post.terminal_width == pre.terminal_width
        &&& post.terminal_height == pre.terminal_height
    }

    /// Runs the selection controller for the directory `dir`.
    ///
    /// A frame with an unchanged selection is a no-op.  On a change, the
    /// metadata text is recomputed through the cache (`fetched` is the
    /// provider's answer for the newly selected file, consulted only on a
    /// cache miss), the selected path becomes the current path, the
    /// active handle is cleared unless the path is the last-displayed one
    /// and still Loaded, and at most one decode request is issued per the
    /// load policy (`spec_load_action`).  An out-of-bounds selection
    /// clears path, handle and text instead.  Finally the selection is
    /// recorded as seen and the metadata scroll resets.
    pub fn update_selection(&mut self, dir: &String, fetched: Option<String>) -> (req: Option<
        DecodeRequest,
    >)
        requires
            old(self).wf(),
        ensures
            final(self).wf(),
            App::select_untouched(*old(self), *final(self)),
            !old(self).sel_changed() ==> *final(self) == *old(self) && req is None,
            old(self).sel_changed() ==> final(self).previous_selected == old(self).selected
                && final(self).mid_scroll == 0,
            old(self).sel_changed() && !old(self).sel_in_bounds() ==> {
                &&& final(self).cached_metadata_text@ == "No files available"@
                &&& final(self).image_utils == old(self).image_utils
                &&& final(self).image_path is None
                &&& final(self).image_state is None
                &&& final(self).loading_images == old(self).loading_images
                &&& final(self).failed_images == old(self).failed_images
                &&& final(self).loaded_images == old(self).loaded_images
                &&& final(self).pending_current_load == old(self).pending_current_load
                &&& req is None
            },
            old(self).sel_changed() && old(self).sel_in_bounds() ==> {
                let s = *old(self);
                let t = *final(self);
                let file = s.sel_file();
                let p = spec_join(dir@, file@);
                &&& t.cached_metadata_text@ == s.image_utils.spec_display_text(file@, fetched)
                &&& (s.image_utils.cache_hit(file@) ==> t.image_utils == s.image_utils)
                &&& (!s.image_utils.cache_hit(file@) ==> t.image_utils.cache_hit(file@) && (
                t.image_utils.cached_metadata matches Some(c) && c.1@
                    == t.cached_metadata_text@))
                &&& t.image_path matches Some(ip) && ip@ == p
                &&& !spec_is_image_path(p) ==> {
                    &&& t.loading_images == s.loading_images
                    &&& t.failed_images == s.failed_images
                    &&& t.loaded_images == s.loaded_images
                    &&& t.pending_current_load == s.pending_current_load
                    &&& t.image_state == s.image_state
                    &&& req is None
                }
                &&& spec_is_image_path(p) ==> {
                    &&& t.image_state == (if s.spec_should_clear(p) {
                        None
                    } else {
                        s.image_state
                    })
                    &&& (s.spec_load_action(p) == LoadAction::Wait ==> {
                        &&& t.loading_images@ == s.loading_images@
                        &&& t.failed_images@ == s.failed_images@
                        &&& t.loaded_images@ == s.loaded_images@
                        &&& t.pending_current_load == s.pending_current_load
                        &&& req is None
                    })
                    &&& (s.spec_load_action(p) == LoadAction::Refresh ==> {
                        &&& t.pending_current_load == t.image_path
                        &&& if s.has_graphics {
                            &&& t.loading_images@ == s.loading_images@.push(p)
                            &&& t.failed_images@ == s.failed_images@.remove_value(p)
                            &&& t.loaded_images@ == s.loaded_images@
                            &&& req matches Some(r) && r.file_path@ == p && r.tier
                                == DecodeTier::Priority && (r.width as int, r.height as int)
                                == spec_priority_target_size(s.terminal_width, s.terminal_height)
                        } else {
                            &&& t.loading_images@ == s.loading_images@
                            &&& t.failed_images@ == s.failed_images@
                            &&& t.loaded_images@ == s.loaded_images@
                            &&& req is None
                        }
                    })
                    &&& (s.spec_load_action(p) == LoadAction::Fresh ==> {
                        &&& t.pending_current_load == t.image_path
                        &&& t.loaded_images@ == s.loaded_images@
                        &&& if s.has_graphics {
                            &&& t.loading_images@ == s.loading_images@.push(p)
                            &&& t.failed_images@ == s.failed_images@
                            &&& req matches Some(r) && r.file_path@ == p && r.tier
                                == DecodeTier::Normal && (r.width as int, r.height as int)
                                == spec_normal_target_size(s.terminal_width, s.terminal_height)
                        } else {
                            &&& t.loading_images@ == s.loading_images@
                            &&& t.failed_images@ == s.failed_images@
                            &&& req is None
                        }
                    })
                    &&& (s.spec_load_action(p) == LoadAction::Retry ==> {
                        &&& t.pending_current_load == t.image_path
                        &&& t.failed_images@ == s.failed_images@.remove_value(p)
                        &&& t.loaded_images@ == s.loaded_images@
                        &&& if s.has_graphics {
                            &&& t.loading_images@ == s.loading_images@.push(p)
                            &&& req matches Some(r) && r.file_path@ == p && r.tier
                                == DecodeTier::Normal && (r.width as int, r.height as int)
                                == spec_normal_target_size(s.terminal_width, s.terminal_height)
                        } else {
                            &&& t.loading_images@ == s.loading_images@
                            &&& req is None
                        }
                    })
                }
            },
    {
        if self.selected == self.previous_selected {
            return None;
        }
        let mut req: Option<DecodeRequest> = None;
        if self.files.len() > 0 && self.selected < self.files.len() {
            let selected_file = self.files[self.selected].clone();
            let file_path_str = join_path(dir.as_str(), selected_file.as_str());
            let ghost p = file_path_str@;
            let text = self.image_utils.get_metadata_for_display(&selected_file, fetched);
            self.cached_metadata_text = text;
            self.image_path = Some(file_path_str.clone());
            if self.is_image_file(&file_path_str) {
                let keep = match &self.last_loaded_path {
                    Some(l) => l.eq(&file_path_str) && self.loaded_images.contains(
                        &file_path_str,
                    ),
                    None => false,
                };
                if !keep {
                    self.image_state = None;
                }
                if self.loaded_images.contains(&file_path_str) {
                    if !self.loading_images.contains(&file_path_str) {
                        self.pending_current_load = Some(file_path_str.clone());
                        req = self.start_priority_image_load(file_path_str);
                    }
                } else if !self.loading_images.contains(&file_path_str)
                    && !self.failed_images.contains(&file_path_str) {
                    self.pending_current_load = Some(file_path_str.clone());
                    proof {
                        lemma_remove_value_absent(old(self).failed_images@, p);
                        lemma_remove_value_absent(old(self).loaded_images@, p);
                    }
                    req = self.start_background_image_load(file_path_str);
                } else if self.failed_images.contains(&file_path_str) {
                    self.failed_images.remove(&file_path_str);
                    let ghost failed_mid = self.failed_images@;
                    if !self.loading_images.contains(&file_path_str) {
                        self.pending_current_load = Some(file_path_str.clone());
                        proof {
                            lemma_remove_value_absent(failed_mid, p);
                            lemma_remove_value_absent(old(self).loaded_images@, p);
                        }
                        req = self.start_background_image_load(file_path_str);
                    }
                }
            }
        } else {
            self.cached_metadata_text = String::from_str("No files available");
            self.image_path = None;
            self.image_state = None;
        }
        self.previous_selected = self.selected;
        self.mid_scroll = 0;
        req
    }

    /// First index of the preload window: two entries before the
    /// selection, clipped at the list's start.
    pub open spec fn window_start(&self) -> int {
        if self.selected >= PRELOAD_RANGE {
            self.selected - PRELOAD_RANGE
        } else {
            0
        }
    }

    /// One past the last index of the preload window: two entries after
    /// the selection, clipped at the list's end.
    pub open spec fn window_end(&self) -> int {
        if self.selected + PRELOAD_RANGE + 1 <= self.files@.len() {
            self.selected + PRELOAD_RANGE + 1
        } else {
            self.files@.len() as int
        }
    }

    /// Whether list entry `i` is worth preloading: a neighbour (not the
    /// selection itself) naming an image that is neither loading nor
    /// failed nor already loaded.
    pub open spec fn preload_eligible(&self, dir: Seq<char>, i: int) -> bool
        recommends
            0 <= i < self.files@.len(),
    {
        let p = spec_join(dir, self.files@[i]@);
        &&& i != self.selected
        &&& spec_is_image_path(p)
        &&& !self.loading_images@.contains(p)
        &&& !self.failed_images@.contains(p)
        &&& !self.loaded_images@.contains(p)
    }

    /// Runs one preloader pass for the directory `dir`.
    ///
    /// The pass is skipped outright on an empty list, while the current
    /// selection's own load is pending, or when the concurrency cap is
    /// already reached.  Otherwise it scans the preload window in order
    /// and issues one `Normal` request for the first eligible neighbour,
    /// then does cache maintenance: Failed past 20 entries is cleared,
    /// and Loaded past 50 entries keeps only paths named by the current
    /// listing.
    pub fn preload_nearby_images(&mut self, dir: &String) -> (req: Option<DecodeRequest>)
        requires
            old(self).wf(),
            old(self).selected <= usize::MAX - PRELOAD_RANGE - 1,
        ensures
            final(self).wf(),
            App::issue_untouched(*old(self), *final(self)),
            final(self).loading_images@.len() <= old(self).loading_images@.len() + 1,
            old(self).loading_images@.len() <= MAX_CONCURRENT_LOADS ==> final(self).loading_images@.len() <= MAX_CONCURRENT_LOADS,
            req matches Some(r) ==> !old(self).loading_images@.contains(r.file_path@) && final(self).loading_images@.contains(r.file_path@) && old(self).loading_images@.len()
                < MAX_CONCURRENT_LOADS,
            (old(self).files@.len() == 0 || old(self).pending_current_load is Some) ==> *final(self) == *old(self) && req is None,
            (old(self).files@.len() > 0 && old(self).pending_current_load is None && old(self).loading_images@.len() >= MAX_CONCURRENT_LOADS) ==> *final(self) == *old(self)
                && req is None,
            (old(self).files@.len() > 0 && old(self).pending_current_load is None && old(self).loading_images@.len() < MAX_CONCURRENT_LOADS) ==> ({
                let s = *old(self);
                let t = *final(self);
                let ws = s.window_start();
                let we = s.window_end();
                &&& t.failed_images@ == (if s.failed_images@.len() > FAILED_EVICT_THRESHOLD {
                    Seq::<Seq<char>>::empty()
                } else {
                    s.failed_images@
                })
                &&& (s.loaded_images@.len() > LOADED_EVICT_THRESHOLD ==> forall|q: Seq<char>|
                    t.loaded_images@.contains(q) == (s.loaded_images@.contains(q)
                        && spec_in_listing(s.files@, dir@, q)))
                &&& (s.loaded_images@.len() <= LOADED_EVICT_THRESHOLD ==> t.loaded_images@
                    == s.loaded_images@)
                &&& ((forall|k: int| ws <= k < we ==> !s.preload_eligible(dir@, k))
                    ==> t.loading_images@ == s.loading_images@ && req is None)
                &&& ((exists|k: int| ws <= k < we && s.preload_eligible(dir@, k)) ==> (
                if s.has_graphics {
                    exists|j: int|
                        {
                            &&& ws <= j < we
                            &&& s.preload_eligible(dir@, j)
                            &&& forall|k: int| ws <= k < j ==> !s.preload_eligible(dir@, k)
                            &&& t.loading_images@ == s.loading_images@.push(
                                spec_join(dir@, s.files@[j]@),
                            )
                            &&& req matches Some(r) && r.file_path@ == spec_join(
                                dir@,
                                s.files@[j]@,
                            ) && r.tier == DecodeTier::Normal && (
                            r.width as int,
                            r.height as int,
                            ) == spec_normal_target_size(s.terminal_width, s.terminal_height)
                        }
                } else {
                    t.loading_images@ == s.loading_images@ && req is None
                }))
            }),
    {
        if self.files.len() == 0 {
            return None;
        }
        if self.pending_current_load.is_some() {
            return None;
        }
        let start: usize = if self.selected >= PRELOAD_RANGE {
            self.selected - PRELOAD_RANGE
        } else {
            0
        };
        let end_candidate: usize = self.selected + PRELOAD_RANGE + 1;
        let end: usize = if end_candidate <= self.files.len() {
            end_candidate
        } else {
            self.files.len()
        };
        if self.loading_images.len() >= MAX_CONCURRENT_LOADS {
            return None;
        }
        // Scan the window for the first eligible neighbour.
        let mut found: Option<usize> = None;
        let mut i: usize = start;
        while i < end && found.is_none()
            invariant
                *self == *old(self),
                self.wf(),
                start == old(self).window_start(),
                end == old(self).window_end(),
                start <= i,
                i <= end || i == start,
                found is None ==> forall|k: int|
                    start <= k < i ==> !old(self).preload_eligible(dir@, k),
                found matches Some(j) ==> start <= j < end && i == j && old(self).preload_eligible(dir@, j as int) && forall|k: int|
                    start <= k < j ==> !old(self).preload_eligible(dir@, k),
            decreases end - i, (if found is None { 1int } else { 0int }),
        {
            let neighbour_path = join_path(dir.as_str(), self.files[i].as_str());
            let eligible = i != self.selected && self.is_image_file(&neighbour_path)
                && !self.loading_images.contains(&neighbour_path)
                && !self.failed_images.contains(&neighbour_path)
                && !self.loaded_images.contains(&neighbour_path);
            if eligible {
                found = Some(i);
            } else {
                assert(!old(self).preload_eligible(dir@, i as int));
                i = i + 1;
            }
        }
        let mut req: Option<DecodeRequest> = None;
        if let Some(j) = found {
            let neighbour_path = join_path(dir.as_str(), self.files[j].as_str());
            proof {
                lemma_remove_value_absent(old(self).failed_images@, neighbour_path@);
                lemma_remove_value_absent(old(self).loaded_images@, neighbour_path@);
                lemma_push_membership(old(self).loading_images@, neighbour_path@);
            }
            req = self.start_background_image_load(neighbour_path);
        }
        // Cache maintenance: bounded retry amnesty for Failed, and a
        // listing-based sweep of Loaded.
        if self.failed_images.len() > FAILED_EVICT_THRESHOLD {
            self.failed_images.clear();
        }
        if self.loaded_images.len() > LOADED_EVICT_THRESHOLD {
            let mut current: PathSet = PathSet::new();
            let n = self.files.len();
            let mut k: usize = 0;
            while k < n
                invariant
                    n == self.files.len(),
                    k <= n,
                    self.files == old(self).files,
                    current.wf(),
                    forall|q: Seq<char>|
                        current@.contains(q) == spec_in_listing(
                            self.files@.take(k as int),
                            dir@,
                            q,
                        ),
                decreases n - k,
            {
                let ghost cur_pre = current@;
                let entry_path = join_path(dir.as_str(), self.files[k].as_str());
                proof {
                    lemma_push_membership(cur_pre, entry_path@);
                }
                current.insert(entry_path);
                proof {
                    assert(self.files@.take(k + 1).drop_last() =~= self.files@.take(k as int));
                    assert forall|q: Seq<char>|
                        current@.contains(q) == spec_in_listing(
                            self.files@.take(k + 1),
                            dir@,
                            q,
                        ) by {
                        let taken = self.files@.take(k + 1);
                        if current@.contains(q) {
                            if cur_pre.contains(q) {
                                let m = choose|m: int|
                                    0 <= m < k && q == spec_join(
                                        dir@,
                                        self.files@.take(k as int)[m]@,
                                    );
                                assert(taken[m] == self.files@[m]);
                                assert(q == spec_join(dir@, taken[m]@));
                            } else {
                                assert(q == entry_path@);
                                assert(taken[k as int] == self.files@[k as int]);
                                assert(q == spec_join(dir@, taken[k as int]@));
                            }
                            assert(spec_in_listing(taken, dir@, q));
                        }
                        if spec_in_listing(taken, dir@, q) {
                            let m = choose|m: int|
                                0 <= m < taken.len() && q == spec_join(dir@, taken[m]@);
                            if m < k {
                                assert(self.files@.take(k as int)[m] == taken[m]);
                                assert(spec_in_listing(self.files@.take(k as int), dir@, q));
                                assert(cur_pre.contains(q));
                            } else {
                                assert(taken[m] == self.files@[k as int]);
                                assert(q == entry_path@);
                            }
                            assert(current@.contains(q));
                        }
                    }
                }
                k = k + 1;
            }
            proof {
                assert(self.files@.take(n as int) =~= self.files@);
            }
            self.loaded_images.retain_members(&current);
        }
        proof {
            assert forall|p: Seq<char>|
                !(final(self).loading_images@.contains(p) && final(self).failed_images@.contains(p)) by {}
        }
        req
    }

    /// Applies one key: `q` stops the loop; left/right toggle the focused
    /// panel; up/down move the selection when the file list has focus,
    /// within the list's bounds, and scroll the metadata panel when it
    /// has focus, within `max_scroll`.
    pub fn handle_input(&mut self, key: KeyInput, max_scroll: u16)
        ensures
            *final(self) == (App {
                running: if key == KeyInput::Quit {
                    false
                } else {
                    old(self).running
                },
                focused_panel: if key == KeyInput::NextPanel || key == KeyInput::PrevPanel {
                    match old(self).focused_panel {
                        FocusedPanel::Left => FocusedPanel::Middle,
                        FocusedPanel::Middle => FocusedPanel::Left,
                    }
                } else {
                    old(self).focused_panel
                },
                selected: if old(self).focused_panel == FocusedPanel::Left && key
                    == KeyInput::Down && old(self).selected + 1 < old(self).files.len() {
                    (old(self).selected + 1) as usize
                } else if old(self).focused_panel == FocusedPanel::Left && key == KeyInput::Up
                    && old(self).selected > 0 {
                    (old(self).selected - 1) as usize
                } else {
                    old(self).selected
                },
                mid_scroll: if old(self).focused_panel == FocusedPanel::Middle && key
                    == KeyInput::Down && old(self).mid_scroll < max_scroll {
                    (old(self).mid_scroll + 1) as u16
                } else if old(self).focused_panel == FocusedPanel::Middle && key == KeyInput::Up
                    && old(self).mid_scroll > 0 {
                    (old(self).mid_scroll - 1) as u16
                } else {
                    old(self).mid_scroll
                },
                ..*old(self)
            }),
    {
        match key {
            KeyInput::Quit => {
                self.running = false;
            },
            KeyInput::NextPanel => {
                self.focused_panel = match self.focused_panel {
                    FocusedPanel::Left => FocusedPanel::Middle,
                    FocusedPanel::Middle => FocusedPanel::Left,
                };
            },
            KeyInput::PrevPanel => {
                self.focused_panel = match self.focused_panel {
                    FocusedPanel::Middle => FocusedPanel::Left,
                    FocusedPanel::Left => FocusedPanel::Middle,
                };
            },
            KeyInput::Down => {
                if self.focused_panel == FocusedPanel::Left {
                    let limit = if self.files.len() > 0 {
                        self.files.len() - 1
                    } else {
                        0
                    };
                    if self.selected < limit {
                        self.selected = self.selected + 1;
                    }
                } else {
                    if self.mid_scroll < max_scroll {
                        self.mid_scroll = self.mid_scroll + 1;
                    }
                }
            },
            KeyInput::Up => {
                if self.focused_panel == FocusedPanel::Left {
                    if self.selected > 0 {
                        self.selected = self.selected - 1;
                    }
                } else {
                    if self.mid_scroll > 0 {
                        self.mid_scroll = self.mid_scroll - 1;
                    }
                }
            },
            KeyInput::Other => {},
        }
    }
}

} // verus!
