//! Plain data carried between the engine, the render loop and the decode
//! workers: decode tiers and requests, worker outcome events, the status
//! shown beside the preview, and the input alphabet of the key handler.

use vstd::prelude::*;

verus! {

/// Quality/latency profile of a decode request.
///
/// `Normal` is a first-time load: larger target size, high-quality filter.
/// `Priority` is a re-load of an already-seen path: smaller target size and
/// the fastest filter, to minimise latency on revisits.
#[derive(Clone, Copy, Debug, PartialEq, Eq, Structural)]
pub enum DecodeTier {
    Normal,
    Priority,
}

/// A unit of work for a decode worker: which file to decode, the pixel size
/// to downscale to, and the tier that picked that size.
#[derive(Clone, Debug)]
pub struct DecodeRequest {
    pub file_path: String,
    pub width: u32,
    pub height: u32,
    pub tier: DecodeTier,
}

/// Outcome of one decode request, delivered through the event channel.
///
/// `H` is the renderable handle produced by the terminal graphics
/// capability; the engine never looks inside it, it only moves it.
pub enum ImageLoadEvent<H> {
    LoadComplete { file_path: String, protocol: H },
    LoadError { file_path: String, error: String },
}

impl<H> ImageLoadEvent<H> {
    /// Path the event is about.
    pub open spec fn path(&self) -> Seq<char> {
        match self {
            ImageLoadEvent::LoadComplete { file_path, .. } => file_path@,
            ImageLoadEvent::LoadError { file_path, .. } => file_path@,
        }
    }

    /// The path the event is about, as the string value it carries.
    pub open spec fn path_string(self) -> String {
        match self {
            ImageLoadEvent::LoadComplete { file_path, .. } => file_path,
            ImageLoadEvent::LoadError { file_path, .. } => file_path,
        }
    }

    /// The handle a successful decode carries.
    pub open spec fn protocol(self) -> H
        recommends
            self is LoadComplete,
    {
        match self {
            ImageLoadEvent::LoadComplete { protocol, .. } => protocol,
            ImageLoadEvent::LoadError { .. } => arbitrary(),
        }
    }
}

/// Status of the preview panel for the currently selected file, derived
/// fresh every frame from the engine's sets.
#[derive(Clone, Copy, Debug, PartialEq, Eq, Structural)]
pub enum ImageLoadStatus {
    NotImage,
    Loading,
    Loaded,
    Failed,
    UnsupportedTerminal,
}

/// Which panel currently has input focus.
#[derive(Clone, Copy, Debug, PartialEq, Eq, Structural)]
pub enum FocusedPanel {
    Left,
    Middle,
}

/// The key classes the engine reacts to.  The render loop translates raw
/// terminal key codes into this alphabet: `Quit` for `q`, `NextPanel` for
/// right/`l`, `PrevPanel` for left/`h`, `Down` for down/`j`, `Up` for
/// up/`k`, and `Other` for everything else.
#[derive(Clone, Copy, Debug, PartialEq, Eq, Structural)]
pub enum KeyInput {
    Quit,
    NextPanel,
    PrevPanel,
    Down,
    Up,
    Other,
}

} // verus!
