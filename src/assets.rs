//! Tracking of the assets that must load before play can start.
use vstd::prelude::*;

verus! {

/// Load state of one asset, as the asset server reports it.
#[derive(Clone, Copy, Debug, PartialEq, Eq, Structural)]
pub enum LoadState {
    NotLoaded,
    Loading,
    Loaded,
    Failed,
}

/// Whether an asset still holds up the start: it is unknown to the server
/// or not loaded yet.
pub open spec fn holds_up(s: Option<LoadState>) -> bool {
    match s {
        Some(LoadState::Loaded) => false,
        _ => true,
    }
}

/// The reported load state of every tracked asset, `None` for one that the
/// server does not know.
#[derive(Debug)]
pub struct AssetsLoading(pub Vec<Option<LoadState>>);

impl AssetsLoading {
    /// Whether some tracked asset is still loading.
    pub fn get(&self) -> (r: bool)
        ensures
            r == exists|i: int| 0 <= i < self.0@.len() && holds_up(#[trigger] self.0@[i]),
    {
        let mut i: usize = 0;
        while i < self.0.len()
            invariant
                i <= self.0@.len(),
                forall|j: int| 0 <= j < i ==> !holds_up(#[trigger] self.0@[j]),
            decreases self.0@.len() - i,
        {
            match self.0[i] {
                Some(LoadState::Loaded) => {},
                _ => {
                    return true;
                },
            }
            i = i + 1;
        }
        false
    }
}

} // verus!
