//! Selection of the renderer strategy.  The backends form a closed set of
//! variants resolved by name at construction time; an unrecognized name
//! falls back to the default strategy with a warning, never a hard failure.

use vstd::prelude::*;

verus! {

/// The closed set of renderer strategies the backend can be built with.
#[derive(Clone, Copy, Debug, PartialEq, Eq, Structural)]
pub enum RendererStrategy {
    /// The Skia renderer on Vulkan.
    SkiaVulkan,
    /// The Skia renderer on OpenGL.
    SkiaOpenGL,
    /// The FemtoVG renderer.
    FemtoVG,
    /// The default: try Skia first, then fall back to FemtoVG.
    SkiaThenFemtoVG,
}

/// The view of an optional renderer name.
pub open spec fn name_view(name: Option<&str>) -> Option<Seq<char>> {
    match name {
        None => None,
        Some(s) => Some(s@),
    }
}

/// What `select_renderer` returns for a given name: the strategy, and
/// whether the name was unrecognized (so the caller should warn about the
/// fallback).  No name selects the default silently.
pub open spec fn strategy_for_name(name: Option<Seq<char>>) -> (RendererStrategy, bool) {
    match name {
        None => (RendererStrategy::SkiaThenFemtoVG, false),
        Some(s) => if s == "skia-vulkan"@ {
            (RendererStrategy::SkiaVulkan, false)
        } else if s == "skia-opengl"@ {
            (RendererStrategy::SkiaOpenGL, false)
        } else if s == "femtovg"@ {
            (RendererStrategy::FemtoVG, false)
        } else {
            (RendererStrategy::SkiaThenFemtoVG, true)
        },
    }
}

/// Character-for-character equality of two string slices, decided against
/// their views.
pub fn str_eq(a: &str, b: &str) -> (r: bool)
    ensures
        r == (a@ == b@),
{
    let a_len = a.unicode_len();
    let b_len = b.unicode_len();
    if a_len != b_len {
        return false;
    }
    let mut i: usize = 0;
    while i < a_len
        invariant
            i <= a_len,
            a_len == a@.len(),
            b_len == b@.len(),
            a_len == b_len,
            forall|j: int| 0 <= j < i ==> a@[j] == b@[j],
        decreases a_len - i,
    {
        if a.get_char(i) != b.get_char(i) {
            return false;
        }
        i += 1;
    }
    proof {
        assert(a@ =~= b@);
    }
    true
}

/// Resolves an optional renderer name to a strategy.  Recognized names map
/// to their strategy; no name means the default; an unrecognized name also
/// means the default, with the second component raised so the caller can
/// warn, since selection must never fail hard.
pub fn select_renderer(name: Option<&str>) -> (r: (RendererStrategy, bool))
    ensures
        r == strategy_for_name(name_view(name)),
{
    match name {
        None => (RendererStrategy::SkiaThenFemtoVG, false),
        Some(s) => {
            if str_eq(s, "skia-vulkan") {
                (RendererStrategy::SkiaVulkan, false)
            } else if str_eq(s, "skia-opengl") {
                (RendererStrategy::SkiaOpenGL, false)
            } else if str_eq(s, "femtovg") {
                (RendererStrategy::FemtoVG, false)
            } else {
                (RendererStrategy::SkiaThenFemtoVG, true)
            }
        }
    }
}

} // verus!
