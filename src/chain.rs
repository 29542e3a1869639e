//! The chain of tori dropped onto the planet in the physics sandbox, each
//! link with a random starting velocity.
use vstd::prelude::*;

verus! {

/// How many links the chain has.
pub const CHAIN_LINKS: u32 = 100;

/// One link of the chain: its place in the chain (links hang in order,
/// each a little below the one before and turned a quarter turn further)
/// and its starting velocity along x, y and z, in hundredths of a unit per
/// second.
#[derive(PartialEq, Eq, Structural, Clone, Copy, Debug)]
pub struct ChainLink {
    pub index: u32,
    pub vx_percent: u32,
    pub vy_percent: u32,
    pub vz_percent: u32,
}

/// Relies on `rand::thread_rng` and `rand::Rng::gen_range`: a draw from
/// `0..high` lies in that range. It panics only on an empty range, which
/// `requires` rules out.
#[verifier::external_body]
fn draw_below(high: u32) -> (r: u32)
    requires
        0 < high,
    ensures
        r < high,
{
    rand::Rng::gen_range(&mut rand::thread_rng(), 0..high)
}

/// The links of a chain of `count` tori, in order. Each velocity component
/// is drawn at random from `0..100` hundredths.
pub fn plan_chain(count: u32) -> (r: Vec<ChainLink>)
    ensures
        r@.len() == count,
        forall|i: int|
            0 <= i < count ==> {
                &&& (#[trigger] r@[i]).index == i
                &&& r@[i].vx_percent < 100
                &&& r@[i].vy_percent < 100
                &&& r@[i].vz_percent < 100
            },
{
    let mut links: Vec<ChainLink> = Vec::new();
    let mut i: u32 = 0;
    while i < count
        invariant
            i <= count,
            links@.len() == i,
            forall|j: int|
                0 <= j < i ==> {
                    &&& (#[trigger] links@[j]).index == j
                    &&& links@[j].vx_percent < 100
                    &&& links@[j].vy_percent < 100
                    &&& links@[j].vz_percent < 100
                },
        decreases count - i,
    {
        let x = draw_below(100);
        let y = draw_below(100);
        let z = draw_below(100);
        links.push(ChainLink { index: i, vx_percent: x, vy_percent: y, vz_percent: z });
        i = i + 1;
    }
    links
}

} // verus!
