//! Choice of the user-interface renderer from the graphics devices present.

use crate::host::text::{has_prefix, starts_with};
use vstd::prelude::*;

verus! {

/// Rendering capability of the host.
#[derive(Debug, Clone, Copy, PartialEq, Eq, Structural)]
pub enum RendererTier {
    /// A GPU: OpenGL rendering.
    Tier1,
    /// No GPU card: software Skia.
    Tier2,
    /// No DRM devices at all: plain software rendering.
    Tier3,
}

/// Selects the renderer from the DRM device directory.
pub struct DisplayProbe;

/// A directory entry: its file name and whether it is a directory.
pub type DriEntry = (String, bool);

/// A DRM device node for a graphics card.
pub open spec fn is_card(entry: (Seq<char>, bool)) -> bool {
    !entry.1 && has_prefix(entry.0, "card"@)
}

/// The tier for a DRM directory that exists or not, with its entries.
pub open spec fn tier_for_entries(dri_exists: bool, entries: Seq<(Seq<char>, bool)>) -> RendererTier {
    if !dri_exists {
        RendererTier::Tier3
    } else if exists|i: int| 0 <= i < entries.len() && is_card(#[trigger] entries[i]) {
        RendererTier::Tier1
    } else {
        RendererTier::Tier2
    }
}

/// The character views of directory entries.
pub open spec fn entry_views(entries: Seq<DriEntry>) -> Seq<(Seq<char>, bool)> {
    entries.map_values(|e: DriEntry| (e.0@, e.1))
}

impl DisplayProbe {
    /// The renderer tier for the DRM device directory: none without the
    /// directory, the GPU tier when it holds a `card*` device node, the
    /// software Skia tier otherwise.
    pub fn tier_for(dri_exists: bool, entries: &Vec<DriEntry>) -> (t: RendererTier)
        ensures
            t == tier_for_entries(dri_exists, entry_views(entries@)),
    {
        if !dri_exists {
            return RendererTier::Tier3;
        }
        let ghost views = entry_views(entries@);
        let mut i: usize = 0;
        while i < entries.len()
            invariant
                i <= entries@.len(),
                dri_exists,
                views == entry_views(entries@),
                forall|j: int| 0 <= j < i ==> !is_card(#[trigger] views[j]),
            decreases entries@.len() - i,
        {
            assert(views[i as int] == (entries@[i as int].0@, entries@[i as int].1));
            let is_dir = entries[i].1;
            if !is_dir && starts_with(entries[i].0.as_str(), "card") {
                assert(is_card(views[i as int]));
                assert(views.len() == entries@.len());
                assert(exists|k: int| 0 <= k < views.len() && is_card(#[trigger] views[k]));
                return RendererTier::Tier1;
            }
            i = i + 1;
        }
        RendererTier::Tier2
    }

    /// The UI backend and renderer for a tier.
    pub fn renderer_env(tier: RendererTier) -> (env: (&'static str, &'static str))
        ensures
            tier == RendererTier::Tier1 ==> env.0@ == "linuxkms"@ && env.1@ == "skia-opengl"@,
            tier == RendererTier::Tier2 ==> env.0@ == "linuxkms"@ && env.1@ == "skia-software"@,
            tier == RendererTier::Tier3 ==> env.0@ == "x11"@ && env.1@ == "software"@,
    {
        match tier {
            RendererTier::Tier1 => ("linuxkms", "skia-opengl"),
            RendererTier::Tier2 => ("linuxkms", "skia-software"),
            RendererTier::Tier3 => ("x11", "software"),
        }
    }
}

} // verus!
