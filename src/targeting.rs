//! Where the HUD reticles go, and which object the cursor picks.
use vstd::prelude::*;

verus! {

/// How a world object appears to the 3-D camera this frame.
///
/// `P` is the caller's overlay position type; the rules only pass it on.
pub enum Sighting<P> {
    /// The camera could not project the object (it lies behind the camera).
    Behind,
    /// The object projects to a viewport point. `in_viewport` says whether
    /// that point lies inside the overlay camera's viewport rectangle;
    /// `overlay` is the point mapped into overlay space, when that mapping
    /// succeeded.
    InFront { in_viewport: bool, overlay: Option<P> },
}

/// What to do with a reticle: show or hide it, and where to move it.
pub struct ReticleUpdate<P> {
    pub visible: bool,
    /// `Some(p)`: move the reticle to `p`; `None`: leave it where it is.
    pub move_to: Option<P>,
}

/// The lenient rule of the target and nearest-object reticles: a reticle is
/// shown whenever the projected point lies in the viewport, and follows the
/// overlay position whenever it is shown and one is known.
pub open spec fn lenient_reticle<P>(s: Sighting<P>) -> ReticleUpdate<P> {
    match s {
        Sighting::Behind => ReticleUpdate { visible: false, move_to: None },
        Sighting::InFront { in_viewport, overlay } => if in_viewport {
            ReticleUpdate { visible: true, move_to: overlay }
        } else {
            ReticleUpdate { visible: false, move_to: None }
        },
    }
}

/// Decides the target reticle under the lenient rule.
pub fn reticle_update<P>(s: Sighting<P>) -> (r: ReticleUpdate<P>)
    ensures
        r == lenient_reticle(s),
{
    match s {
        Sighting::Behind => ReticleUpdate { visible: false, move_to: None },
        Sighting::InFront { in_viewport, overlay } => {
            if in_viewport {
                ReticleUpdate { visible: true, move_to: overlay }
            } else {
                ReticleUpdate { visible: false, move_to: None }
            }
        },
    }
}


/// The strict rule of the target reticle and its label: shown only when the
/// projected point lies in the viewport and its overlay position is known,
/// and then moved there.
pub open spec fn strict_reticle<P>(s: Sighting<P>) -> ReticleUpdate<P> {
    match s {
        Sighting::InFront { in_viewport: true, overlay: Some(p) } => ReticleUpdate {
            visible: true,
            move_to: Some(p),
        },
        _ => ReticleUpdate { visible: false, move_to: None },
    }
}

/// Decides the target reticle (and its label) under the strict rule.
pub fn strict_reticle_update<P>(s: Sighting<P>) -> (r: ReticleUpdate<P>)
    ensures
        r == strict_reticle(s),
{
    match s {
        Sighting::InFront { in_viewport, overlay } => {
            match overlay {
                Some(p) => {
                    if in_viewport {
                        ReticleUpdate { visible: true, move_to: Some(p) }
                    } else {
                        ReticleUpdate { visible: false, move_to: None }
                    }
                },
                None => ReticleUpdate { visible: false, move_to: None },
            }
        },
        Sighting::Behind => ReticleUpdate { visible: false, move_to: None },
    }
}

/// Where the object nearest to the camera stands relative to the screen.
#[derive(PartialEq, Eq, Structural, Clone, Copy, Debug)]
pub enum NearestStatus {
    Onscreen,
    Offscreen,
    Behind,
}

impl NearestStatus {
    pub open spec fn text_spec(self) -> Seq<char> {
        match self {
            NearestStatus::Onscreen => "nearest object onscreen"@,
            NearestStatus::Offscreen => "nearest object offscreen"@,
            NearestStatus::Behind => "nearest object is behind us"@,
        }
    }

    /// The line that heads the target display.
    pub fn text(self) -> (r: &'static str)
        ensures
            r@ == self.text_spec(),
    {
        match self {
            NearestStatus::Onscreen => "nearest object onscreen",
            NearestStatus::Offscreen => "nearest object offscreen",
            NearestStatus::Behind => "nearest object is behind us",
        }
    }
}

/// Everything the HUD shows about the object nearest to the camera.
pub struct NearestReadout<P> {
    pub status: NearestStatus,
    pub reticle: ReticleUpdate<P>,
    /// The overlay position printed under the object's coordinates, if any.
    pub shown_overlay: Option<P>,
}

pub open spec fn nearest_status_of<P>(s: Sighting<P>) -> NearestStatus {
    match s {
        Sighting::Behind => NearestStatus::Behind,
        Sighting::InFront { in_viewport, overlay: _ } => if in_viewport {
            NearestStatus::Onscreen
        } else {
            NearestStatus::Offscreen
        },
    }
}

pub open spec fn shown_overlay_of<P>(s: Sighting<P>) -> Option<P> {
    match s {
        Sighting::Behind => None,
        Sighting::InFront { in_viewport: _, overlay } => overlay,
    }
}

/// Decides the nearest-object reticle (lenient rule), the status line and
/// the overlay position to print, which is printed whenever it is known,
/// on screen or not.
pub fn nearest_readout<P: Copy>(s: Sighting<P>) -> (r: NearestReadout<P>)
    ensures
        r.status == nearest_status_of(s),
        r.reticle == lenient_reticle(s),
        r.shown_overlay == shown_overlay_of(s),
{
    match s {
        Sighting::Behind => NearestReadout {
            status: NearestStatus::Behind,
            reticle: ReticleUpdate { visible: false, move_to: None },
            shown_overlay: None,
        },
        Sighting::InFront { in_viewport, overlay } => {
            if in_viewport {
                NearestReadout {
                    status: NearestStatus::Onscreen,
                    reticle: ReticleUpdate { visible: true, move_to: overlay },
                    shown_overlay: overlay,
                }
            } else {
                NearestReadout {
                    status: NearestStatus::Offscreen,
                    reticle: ReticleUpdate { visible: false, move_to: None },
                    shown_overlay: overlay,
                }
            }
        },
    }
}

/// Overlay distances are measured in thousandths of an overlay pixel.
///
/// Only objects strictly closer to the cursor than this are ever picked: the
/// length of the offset (10 000 000, 10 000 000) pixels, rounded.
pub const CURSOR_SEARCH_LIMIT: u64 = 14_142_135_624;

/// Two candidates whose distances to the cursor differ by less than this
/// (three pixels) count as a tie, which the larger object wins.
pub const TIE_WINDOW: u64 = 3000;

/// The object closest to the cursor: the first index holding the smallest
/// distance below `CURSOR_SEARCH_LIMIT`. `None` entries are objects that did
/// not project onto the overlay.
pub fn nearest_to_cursor(distances: &Vec<Option<u64>>) -> (r: Option<usize>)
    ensures
        r.is_none() <==> (forall|j: int|
            0 <= j < distances@.len() ==> match #[trigger] distances@[j] {
                Some(d) => d >= CURSOR_SEARCH_LIMIT,
                None => true,
            }),
        r matches Some(i) ==> {
            &&& i < distances@.len()
            &&& distances@[i as int] matches Some(d)
            &&& d < CURSOR_SEARCH_LIMIT
            &&& forall|j: int|
                0 <= j < distances@.len() ==> match #[trigger] distances@[j] {
                    Some(e) => d <= e && (j < i ==> d < e),
                    None => true,
                }
        },
{
    let mut best: u64 = CURSOR_SEARCH_LIMIT;
    let mut found: Option<usize> = None;
    let mut k: usize = 0;
    while k < distances.len()
        invariant
            k <= distances@.len(),
            best <= CURSOR_SEARCH_LIMIT,
            found.is_none() ==> best == CURSOR_SEARCH_LIMIT,
            found matches Some(i) ==> i < k && distances@[i as int] == Some(best) && best
                < CURSOR_SEARCH_LIMIT,
            forall|j: int|
                0 <= j < k ==> match #[trigger] distances@[j] {
                    Some(e) => best <= e && (found matches Some(i) && j < i ==> best < e),
                    None => true,
                },
        decreases distances@.len() - k,
    {
        match distances[k] {
            Some(d) => {
                if d < best {
                    best = d;
                    found = Some(k);
                }
            },
            None => {},
        }
        k = k + 1;
    }
    found
}


/// An object that projected onto the overlay: its distance to the cursor
/// (thousandths of a pixel) and its size (any fixed unit; only compared).
#[derive(Clone, Copy, Debug)]
pub struct Candidate {
    pub distance: u64,
    pub size: u64,
}

/// The running choice of the size-aware pick: the distance and size of the
/// candidate held so far, and its index.
pub struct Pick {
    pub distance: u64,
    pub size: u64,
    pub index: Option<usize>,
}

/// Nothing held yet: the search limit as distance, size zero.
pub open spec fn pick_start() -> Pick {
    Pick { distance: CURSOR_SEARCH_LIMIT, size: 0, index: None }
}

/// One step of the size-aware pick over the candidate at index `i`.
///
/// A strictly closer candidate replaces the one held, unless the two lie
/// within `TIE_WINDOW` of each other; then it replaces it only if it is
/// strictly larger.
pub open spec fn pick_step(p: Pick, c: Option<Candidate>, i: usize) -> Pick {
    match c {
        None => p,
        Some(c) => if c.distance < p.distance && (p.distance - c.distance >= TIE_WINDOW
            || c.size > p.size) {
            Pick { distance: c.distance, size: c.size, index: Some(i) }
        } else {
            p
        },
    }
}

/// The size-aware pick after looking at every candidate in order.
pub open spec fn pick_over(cands: Seq<Option<Candidate>>) -> Pick
    decreases cands.len(),
{
    if cands.len() == 0 {
        pick_start()
    } else {
        pick_step(pick_over(cands.drop_last()), cands.last(), (cands.len() - 1) as usize)
    }
}

/// The object that the cursor reticle settles on when objects that look
/// almost equally close are told apart by size.
pub fn nearest_to_cursor_by_size(cands: &Vec<Option<Candidate>>) -> (r: Option<usize>)
    ensures
        r == pick_over(cands@).index,
{
    let mut p = Pick { distance: CURSOR_SEARCH_LIMIT, size: 0, index: None };
    let mut k: usize = 0;
    while k < cands.len()
        invariant
            k <= cands@.len(),
            p == pick_over(cands@.subrange(0, k as int)),
        decreases cands@.len() - k,
    {
        proof {
            assert(cands@.subrange(0, k + 1).drop_last() =~= cands@.subrange(0, k as int));
        }
        match cands[k] {
            Some(c) => {
                if c.distance < p.distance && (p.distance - c.distance >= TIE_WINDOW || c.size
                    > p.size) {
                    p = Pick { distance: c.distance, size: c.size, index: Some(k) };
                }
            },
            None => {},
        }
        k = k + 1;
    }
    proof {
        assert(cands@.subrange(0, k as int) =~= cands@);
    }
    p.index
}

/// What the size-aware pick holds at every stage: the limit and no index,
/// or the distance and size of the candidate at its index, below the limit.
pub proof fn lemma_pick_shape(cands: Seq<Option<Candidate>>)
    requires
        cands.len() <= usize::MAX,
    ensures
        ({
            let p = pick_over(cands);
            match p.index {
                None => p.distance == CURSOR_SEARCH_LIMIT && p.size == 0,
                Some(i) => i < cands.len() && cands[i as int] == Some(
                    Candidate { distance: p.distance, size: p.size },
                ) && p.distance < CURSOR_SEARCH_LIMIT,
            }
        }),
    decreases cands.len(),
{
    if cands.len() > 0 {
        let init = cands.drop_last();
        lemma_pick_shape(init);
        if let Some(i) = pick_over(init).index {
            assert(init[i as int] == cands[i as int]);
        }
    }
}

/// A candidate that can never be picked: one at or beyond the search limit,
/// or one of size zero within the tie window of it (it never beats the empty
/// start, whose size is zero too).
pub open spec fn out_of_reach(c: Candidate) -> bool {
    c.distance >= CURSOR_SEARCH_LIMIT || (CURSOR_SEARCH_LIMIT - c.distance < TIE_WINDOW && c.size
        == 0)
}

/// The size-aware pick finds nothing exactly when every candidate is out of
/// reach; what it finds is a candidate closer than the search limit.
pub proof fn lemma_pick_none_iff_out_of_reach(cands: Seq<Option<Candidate>>)
    requires
        cands.len() <= usize::MAX,
    ensures
        pick_over(cands).index.is_none() <==> (forall|j: int|
            0 <= j < cands.len() ==> match #[trigger] cands[j] {
                Some(c) => out_of_reach(c),
                None => true,
            }),
        pick_over(cands).index matches Some(i) ==> {
            &&& i < cands.len()
            &&& cands[i as int] matches Some(c)
            &&& c.distance < CURSOR_SEARCH_LIMIT
        },
    decreases cands.len(),
{
    lemma_pick_shape(cands);
    if cands.len() > 0 {
        let init = cands.drop_last();
        lemma_pick_none_iff_out_of_reach(init);
        lemma_pick_shape(init);
        assert forall|j: int| 0 <= j < init.len() implies #[trigger] init[j] == cands[j] by {}
        let last = cands.len() - 1;
        if pick_over(cands).index.is_none() {
            assert forall|j: int| 0 <= j < cands.len() implies match #[trigger] cands[j] {
                Some(c) => out_of_reach(c),
                None => true,
            } by {
                if j < last {
                    assert(init[j] == cands[j]);
                }
            }
        } else if pick_over(init).index.is_some() {
            let i = pick_over(init).index.unwrap();
            assert(init[i as int] == cands[i as int]);
        }
    }
}

/// The size-aware pick never lands more than the tie window farther from
/// the cursor than any projected object.
pub proof fn lemma_pick_within_tie_window(cands: Seq<Option<Candidate>>)
    ensures
        forall|j: int|
            0 <= j < cands.len() ==> match #[trigger] cands[j] {
                Some(c) => pick_over(cands).distance < c.distance + TIE_WINDOW,
                None => true,
            },
    decreases cands.len(),
{
    if cands.len() > 0 {
        let init = cands.drop_last();
        lemma_pick_within_tie_window(init);
        assert forall|j: int| 0 <= j < cands.len() implies match #[trigger] cands[j] {
            Some(c) => pick_over(cands).distance < c.distance + TIE_WINDOW,
            None => true,
        } by {
            if j < init.len() {
                assert(init[j] == cands[j]);
            }
        }
    }
}

} // verus!
