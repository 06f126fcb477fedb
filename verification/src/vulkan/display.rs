//! Choosing a fullscreen video mode and a presentation mode.

use vstd::prelude::*;

verus! {

/// A display mode of a monitor, as the window system reports it.
pub struct VideoModeInfo {
    pub width: u32,
    pub height: u32,
    pub refresh_rate_millihertz: u32,
    pub bit_depth: u16,
}

/// Whether a mode has exactly the requested extent.
pub open spec fn mode_matches(m: VideoModeInfo, width: u32, height: u32) -> bool {
    m.width == width && m.height == height
}

/// Among modes of equal extent the window system prefers a lower refresh
/// rate, and at equal refresh rate a lower bit depth: `a` is preferred to `b`
/// (weakly) when its (refresh rate, bit depth) pair is lexicographically no
/// greater.
pub open spec fn mode_no_worse(a: VideoModeInfo, b: VideoModeInfo) -> bool {
    a.refresh_rate_millihertz < b.refresh_rate_millihertz
        || (a.refresh_rate_millihertz == b.refresh_rate_millihertz && a.bit_depth <= b.bit_depth)
}

/// `a` is strictly preferred to `b`.
pub open spec fn mode_better(a: VideoModeInfo, b: VideoModeInfo) -> bool {
    a.refresh_rate_millihertz < b.refresh_rate_millihertz
        || (a.refresh_rate_millihertz == b.refresh_rate_millihertz && a.bit_depth < b.bit_depth)
}

/// Picks the fullscreen video mode for the requested extent: among the modes
/// of exactly that extent, the most preferred one, and of equally preferred
/// ones the last reported. Returns its index, or `None` when no mode has the
/// requested extent.
pub fn pick_video_mode(modes: &Vec<VideoModeInfo>, width: u32, height: u32) -> (r: Option<usize>)
    ensures
        match r {
            Some(i) => {
                &&& i < modes@.len()
                &&& mode_matches(modes@[i as int], width, height)
                &&& forall|j: int|
                    0 <= j < modes@.len() && mode_matches(modes@[j], width, height)
                        ==> mode_no_worse(modes@[i as int], modes@[j])
                &&& forall|j: int|
                    i < j < modes@.len() && mode_matches(modes@[j], width, height)
                        ==> mode_better(modes@[i as int], modes@[j])
            },
            None => forall|j: int|
                0 <= j < modes@.len() ==> !mode_matches(modes@[j], width, height),
        },
{
    let mut best: Option<usize> = None;
    let mut k: usize = 0;
    while k < modes.len()
        invariant
            k <= modes@.len(),
            match best {
                Some(i) => {
                    &&& i < k
                    &&& mode_matches(modes@[i as int], width, height)
                    &&& forall|j: int|
                        0 <= j < k && mode_matches(modes@[j], width, height)
                            ==> mode_no_worse(modes@[i as int], modes@[j])
                    &&& forall|j: int|
                        i < j < k && mode_matches(modes@[j], width, height)
                            ==> mode_better(modes@[i as int], modes@[j])
                },
                None => forall|j: int| 0 <= j < k ==> !mode_matches(modes@[j], width, height),
            },
        decreases modes@.len() - k,
    {
        let m = &modes[k];
        if m.width == width && m.height == height {
            let take = match best {
                None => true,
                Some(i) => {
                    let b = &modes[i];
                    m.refresh_rate_millihertz < b.refresh_rate_millihertz
                        || (m.refresh_rate_millihertz == b.refresh_rate_millihertz
                            && m.bit_depth <= b.bit_depth)
                },
            };
            if take {
                best = Some(k);
            }
        }
        k = k + 1;
    }
    best
}

/// The presentation modes the renderer can be asked for, in the order the
/// launch options number them.
#[derive(Clone, Copy)]
pub enum PresentModeChoice {
    Immediate,
    Mailbox,
    Fifo,
    FifoRelaxed,
}

/// The presentation mode a launch option index stands for.
pub open spec fn present_mode_of_index(index: u32) -> PresentModeChoice {
    if index == 0 {
        PresentModeChoice::Immediate
    } else if index == 1 {
        PresentModeChoice::Mailbox
    } else if index == 2 {
        PresentModeChoice::Fifo
    } else {
        PresentModeChoice::FifoRelaxed
    }
}

/// Maps a launch option index to its presentation mode. Indices above 3 do
/// not name a mode and are not accepted.
pub fn present_mode_from_index(index: u32) -> (r: PresentModeChoice)
    requires
        index <= 3,
    ensures
        r == present_mode_of_index(index),
{
    if index == 0 {
        PresentModeChoice::Immediate
    } else if index == 1 {
        PresentModeChoice::Mailbox
    } else if index == 2 {
        PresentModeChoice::Fifo
    } else {
        PresentModeChoice::FifoRelaxed
    }
}

} // verus!
