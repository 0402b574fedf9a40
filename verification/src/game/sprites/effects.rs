use vstd::prelude::*;
use crate::engine::color::Color;
use crate::engine::sprite::SpriteData;

verus! {

/// Pixels of the full HUD heart, row-major.
pub open spec fn heart_full_pixels() -> Seq<Option<Color>> {
    let n = None::<Color>;
    let r = Some([220u8, 30, 30]);
    let d = Some([160u8, 20, 20]);
    seq![
        n, r, n, r, n,
        r, r, r, r, r,
        r, r, r, r, r,
        n, d, r, d, n,
        n, n, d, n, n,
    ]
}

/// The full HUD heart, 5x5.
pub fn heart_full() -> (s: SpriteData)
    ensures
        s.wf(),
        s.width == 5,
        s.height == 5,
        s.pixels@ == heart_full_pixels(),
{
    SpriteData::new(5, 5, &[
        None, Some([220, 30, 30]), None, Some([220, 30, 30]), None,
        Some([220, 30, 30]), Some([220, 30, 30]), Some([220, 30, 30]), Some([220, 30, 30]), Some([220, 30, 30]),
        Some([220, 30, 30]), Some([220, 30, 30]), Some([220, 30, 30]), Some([220, 30, 30]), Some([220, 30, 30]),
        None, Some([160, 20, 20]), Some([220, 30, 30]), Some([160, 20, 20]), None,
        None, None, Some([160, 20, 20]), None, None,
    ])
}

/// Pixels of the empty HUD heart, row-major.
pub open spec fn heart_empty_pixels() -> Seq<Option<Color>> {
    let n = None::<Color>;
    let g = Some([80u8, 80, 80]);
    let e = Some([50u8, 50, 50]);
    seq![
        n, g, n, g, n,
        g, e, g, e, g,
        g, e, e, e, g,
        n, e, e, e, n,
        n, n, e, n, n,
    ]
}

/// The empty HUD heart, 5x5.
pub fn heart_empty() -> (s: SpriteData)
    ensures
        s.wf(),
        s.width == 5,
        s.height == 5,
        s.pixels@ == heart_empty_pixels(),
{
    SpriteData::new(5, 5, &[
        None, Some([80, 80, 80]), None, Some([80, 80, 80]), None,
        Some([80, 80, 80]), Some([50, 50, 50]), Some([80, 80, 80]), Some([50, 50, 50]), Some([80, 80, 80]),
        Some([80, 80, 80]), Some([50, 50, 50]), Some([50, 50, 50]), Some([50, 50, 50]), Some([80, 80, 80]),
        None, Some([50, 50, 50]), Some([50, 50, 50]), Some([50, 50, 50]), None,
        None, None, Some([50, 50, 50]), None, None,
    ])
}

/// Pixels of a ghost's orb: a cyan center in a blue ring, row-major.
pub open spec fn projectile_orb_pixels() -> Seq<Option<Color>> {
    let n = None::<Color>;
    let c = Some([60u8, 200, 255]);
    let b = Some([30u8, 100, 180]);
    seq![
        n, b, n,
        b, c, b,
        n, b, n,
    ]
}

/// A ghost's orb, 3x3.
pub fn projectile_orb() -> (s: SpriteData)
    ensures
        s.wf(),
        s.width == 3,
        s.height == 3,
        s.pixels@ == projectile_orb_pixels(),
{
    SpriteData::new(3, 3, &[
        None, Some([30, 100, 180]), None,
        Some([30, 100, 180]), Some([60, 200, 255]), Some([30, 100, 180]),
        None, Some([30, 100, 180]), None,
    ])
}

} // verus!
