//! The fixed rotation of pre-loaded filler clips: short audio samples
//! substituted for a segment when the upstream listing fails. The clip
//! bytes themselves are packaged by the embedding glue; the core only
//! names the clips and maps a pseudo-random pick onto one of them.
use vstd::prelude::*;

verus! {

/// The six filler clips, in rotation order.
#[derive(Clone, Copy, Debug, PartialEq, Eq, Structural)]
pub enum Asset {
    N001,
    N002,
    N003,
    N004,
    N005,
    N006,
}

impl Asset {
    /// The clip a pick from the rotation selects; `None` past the end of
    /// the rotation.
    pub fn from_index(num: usize) -> (asset: Option<Asset>)
        ensures
            asset == match num {
                0 => Some(Asset::N001),
                1 => Some(Asset::N002),
                2 => Some(Asset::N003),
                3 => Some(Asset::N004),
                4 => Some(Asset::N005),
                5 => Some(Asset::N006),
                _ => None::<Asset>,
            },
    {
        match num {
            0 => Some(Asset::N001),
            1 => Some(Asset::N002),
            2 => Some(Asset::N003),
            3 => Some(Asset::N004),
            4 => Some(Asset::N005),
            5 => Some(Asset::N006),
            _ => None,
        }
    }
}

} // verus!
