//! Choice of the display mode the kernel draws in.

use vstd::prelude::*;

verus! {

/// Layout of one pixel in the framebuffer.
#[derive(Clone, Copy, Debug, PartialEq, Eq, Structural)]
pub enum PixelFormat {
    Rgb,
    Bgr,
    Bitmask,
    BltOnly,
}

/// Geometry of a display mode.
#[derive(Clone, Copy, Debug, PartialEq, Eq, Structural)]
pub struct ModeInfo {
    /// Visible pixels per line.
    pub width: usize,
    /// Visible lines.
    pub height: usize,
    /// Pixels per line in memory, visible or not.
    pub stride: usize,
    /// Layout of one pixel.
    pub format: PixelFormat,
}

/// Number of resolutions the loader is willing to use.
pub const PREFERENCE_COUNT: usize = 4;

/// The resolutions the loader is willing to use, best first, as width and
/// height.
pub open spec fn spec_preferred_resolution(preference: usize) -> (usize, usize) {
    if preference == 0 {
        (1920, 1080)
    } else if preference == 1 {
        (1920, 1200)
    } else if preference == 2 {
        (1280, 720)
    } else {
        (640, 480)
    }
}

/// The `preference`-th resolution the loader is willing to use, best first.
#[verifier::when_used_as_spec(spec_preferred_resolution)]
pub fn preferred_resolution(preference: usize) -> (resolution: (usize, usize))
    requires
        preference < PREFERENCE_COUNT,
    ensures
        resolution == spec_preferred_resolution(preference),
{
    if preference == 0 {
        (1920, 1080)
    } else if preference == 1 {
        (1920, 1200)
    } else if preference == 2 {
        (1280, 720)
    } else {
        (640, 480)
    }
}

/// Whether `mode` has the `preference`-th resolution and stores its pixels as
/// blue, green, red.
pub open spec fn mode_matches(mode: ModeInfo, preference: usize) -> bool {
    &&& mode.width == spec_preferred_resolution(preference).0
    &&& mode.height == spec_preferred_resolution(preference).1
    &&& mode.format == PixelFormat::Bgr
}

/// A display mode to try: the mode at index `mode` of the firmware's list,
/// which has the `preference`-th resolution.
#[derive(Clone, Copy, Debug, PartialEq, Eq, Structural)]
pub struct Candidate {
    pub preference: usize,
    pub mode: usize,
}

/// Whether `candidate` is the mode to try when the preferences before `from`
/// are used up: it is the first mode of the list that matches the best
/// remaining preference that any mode matches.
pub open spec fn is_next_candidate(modes: Seq<ModeInfo>, from: usize, candidate: Candidate) -> bool {
    &&& from <= candidate.preference < PREFERENCE_COUNT
    &&& candidate.mode < modes.len()
    &&& mode_matches(modes[candidate.mode as int], candidate.preference)
    &&& forall|j: int|
        0 <= j < candidate.mode ==> !#[trigger] mode_matches(modes[j], candidate.preference)
    &&& forall|p: usize, j: int|
        from <= p < candidate.preference && 0 <= j < modes.len() ==> !#[trigger] mode_matches(
            modes[j],
            p,
        )
}

/// Whether no mode of the list matches a preference from `from` on.
pub open spec fn no_candidate(modes: Seq<ModeInfo>, from: usize) -> bool {
    forall|p: usize, j: int|
        from <= p < PREFERENCE_COUNT && 0 <= j < modes.len() ==> !#[trigger] mode_matches(modes[j], p)
}

/// Picks the display mode to try next. Preferences are tried best first; for
/// each, only the first mode of the firmware's list that matches it counts.
/// `from` is the first preference that has not been tried yet.
pub fn next_candidate(modes: &Vec<ModeInfo>, from: usize) -> (result: Option<Candidate>)
    ensures
        match result {
            Some(candidate) => is_next_candidate(modes@, from, candidate),
            None => no_candidate(modes@, from),
        },
{
    let mut preference = from;
    while preference < PREFERENCE_COUNT
        invariant
            from <= preference,
            forall|p: usize, j: int|
                from <= p < preference && 0 <= j < modes@.len() ==> !#[trigger] mode_matches(
                    modes@[j],
                    p,
                ),
        decreases PREFERENCE_COUNT - preference,
    {
        let (width, height) = preferred_resolution(preference);
        let mut index: usize = 0;
        while index < modes.len()
            invariant
                from <= preference < PREFERENCE_COUNT,
                (width, height) == spec_preferred_resolution(preference),
                index <= modes@.len(),
                forall|p: usize, j: int|
                    from <= p < preference && 0 <= j < modes@.len() ==> !#[trigger] mode_matches(
                        modes@[j],
                        p,
                    ),
                forall|j: int| 0 <= j < index ==> !#[trigger] mode_matches(modes@[j], preference),
            decreases modes@.len() - index,
        {
            let mode = modes[index];
            if mode.width == width && mode.height == height && mode.format == PixelFormat::Bgr {
                return Some(Candidate { preference, mode: index });
            }
            index += 1;
        }
        preference += 1;
    }
    None
}

/// A list of modes has at most one next candidate.
pub proof fn lemma_next_candidate_is_unique(
    modes: Seq<ModeInfo>,
    from: usize,
    first: Candidate,
    second: Candidate,
)
    requires
        is_next_candidate(modes, from, first),
        is_next_candidate(modes, from, second),
    ensures
        first == second,
        !no_candidate(modes, from),
{
    if first.preference < second.preference {
        assert(!mode_matches(modes[first.mode as int], first.preference));
    }
    if second.preference < first.preference {
        assert(!mode_matches(modes[second.mode as int], second.preference));
    }
    if first.mode < second.mode {
        assert(!mode_matches(modes[first.mode as int], second.preference));
    }
    if second.mode < first.mode {
        assert(!mode_matches(modes[second.mode as int], first.preference));
    }
    assert(mode_matches(modes[first.mode as int], first.preference));
}

} // verus!
