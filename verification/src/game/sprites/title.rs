use vstd::prelude::*;
use crate::engine::color::Color;
use crate::engine::sprite::SpriteData;

verus! {

/// Pixels of the CRYPTFALL logo: chunky block letters, icy blue at the top fading to
/// near-white at the bottom, with a dark shadow, row-major.
pub open spec fn title_logo_pixels() -> Seq<Option<Color>> {
    let n = None::<Color>;
    let a = Some([70u8, 120, 255]);
    let b = Some([100u8, 150, 255]);
    let c = Some([140u8, 185, 255]);
    let d = Some([180u8, 210, 255]);
    let e = Some([220u8, 232, 255]);
    let k = Some([30u8, 45, 100]);
    seq![
        n, a, a, a, a, n, n, a, a, a, n, n, n, a, n, a, n, n, n, a, a, a, a, n, n, a, a, a, a, a, n, n, a, a, a, a, n, n, n, a, a, n, n, n, a, n, n, n, n, n, a, n, n, n, n, n, n, n,
        a, a, n, n, a, a, n, a, a, n, a, a, n, a, a, n, a, a, n, a, a, n, a, a, n, n, n, a, a, n, n, a, a, n, n, a, a, n, a, a, n, a, a, n, a, a, n, n, n, n, a, a, n, n, n, n, n, n,
        b, b, n, n, n, n, n, b, b, n, b, b, n, b, b, n, b, b, n, b, b, n, b, b, n, n, n, b, b, n, n, b, b, n, n, n, n, n, b, b, b, b, n, n, b, b, n, n, n, n, b, b, n, n, n, n, n, n,
        b, b, n, n, n, n, n, b, b, b, b, n, n, n, b, b, b, n, n, b, b, b, b, n, n, n, n, b, b, n, n, b, b, b, b, n, n, b, b, n, b, b, n, n, b, b, n, n, n, n, b, b, n, n, n, n, n, n,
        c, c, n, n, n, n, n, c, c, n, c, c, n, n, n, c, c, n, n, c, c, n, n, n, n, n, n, c, c, n, n, c, c, n, n, n, n, c, c, n, c, c, n, n, c, c, n, n, n, n, c, c, n, n, n, n, n, n,
        c, c, n, n, n, n, n, c, c, n, c, c, n, n, n, c, c, n, n, c, c, n, n, n, n, n, n, c, c, n, n, c, c, n, n, n, n, c, c, n, c, c, n, n, c, c, n, n, n, n, c, c, n, n, n, n, n, n,
        d, d, n, n, n, n, n, d, d, n, d, d, n, n, n, d, d, n, n, d, d, n, n, n, n, n, n, d, d, n, n, d, d, n, n, n, n, d, d, n, d, d, n, n, d, d, n, n, n, n, d, d, n, n, n, n, n, n,
        d, d, n, n, d, d, n, d, d, n, d, d, n, n, n, d, d, n, n, d, d, n, n, n, n, n, n, d, d, n, n, d, d, n, n, n, n, d, d, n, d, d, n, n, d, d, n, n, n, n, d, d, n, n, n, n, n, n,
        n, e, e, e, e, n, n, e, e, n, e, e, n, n, n, e, e, n, n, e, e, n, n, n, n, n, n, e, e, n, n, e, e, n, n, n, n, e, e, n, e, e, n, n, e, e, e, e, e, n, e, e, e, e, e, n, n, n,
        n, k, k, k, k, n, n, k, k, n, k, k, n, n, n, k, k, n, n, k, k, n, n, n, n, n, n, k, k, n, n, k, k, n, n, n, n, k, k, n, k, k, n, n, k, k, k, k, k, n, k, k, k, k, k, n, n, n,
        n, n, k, k, n, n, n, n, k, n, n, k, n, n, n, n, k, n, n, n, k, n, n, n, n, n, n, n, k, n, n, n, k, n, n, n, n, n, k, n, n, k, n, n, n, k, k, k, n, n, n, k, k, k, n, n, n, n,
    ]
}

/// The CRYPTFALL logo, 58x11.
pub fn title_logo() -> (s: SpriteData)
    ensures
        s.wf(),
        s.width == 58,
        s.height == 11,
        s.pixels@ == title_logo_pixels(),
{
    SpriteData::new(58, 11, &[
        None, Some([70, 120, 255]), Some([70, 120, 255]), Some([70, 120, 255]), Some([70, 120, 255]), None, None, Some([70, 120, 255]), Some([70, 120, 255]), Some([70, 120, 255]), None, None, None, Some([70, 120, 255]), None, Some([70, 120, 255]), None, None, None, Some([70, 120, 255]), Some([70, 120, 255]), Some([70, 120, 255]), Some([70, 120, 255]), None, None, Some([70, 120, 255]), Some([70, 120, 255]), Some([70, 120, 255]), Some([70, 120, 255]), Some([70, 120, 255]), None, None, Some([70, 120, 255]), Some([70, 120, 255]), Some([70, 120, 255]), Some([70, 120, 255]), None, None, None, Some([70, 120, 255]), Some([70, 120, 255]), None, None, None, Some([70, 120, 255]), None, None, None, None, None, Some([70, 120, 255]), None, None, None, None, None, None, None,
        Some([70, 120, 255]), Some([70, 120, 255]), None, None, Some([70, 120, 255]), Some([70, 120, 255]), None, Some([70, 120, 255]), Some([70, 120, 255]), None, Some([70, 120, 255]), Some([70, 120, 255]), None, Some([70, 120, 255]), Some([70, 120, 255]), None, Some([70, 120, 255]), Some([70, 120, 255]), None, Some([70, 120, 255]), Some([70, 120, 255]), None, Some([70, 120, 255]), Some([70, 120, 255]), None, None, None, Some([70, 120, 255]), Some([70, 120, 255]), None, None, Some([70, 120, 255]), Some([70, 120, 255]), None, None, Some([70, 120, 255]), Some([70, 120, 255]), None, Some([70, 120, 255]), Some([70, 120, 255]), None, Some([70, 120, 255]), Some([70, 120, 255]), None, Some([70, 120, 255]), Some([70, 120, 255]), None, None, None, None, Some([70, 120, 255]), Some([70, 120, 255]), None, None, None, None, None, None,
        Some([100, 150, 255]), Some([100, 150, 255]), None, None, None, None, None, Some([100, 150, 255]), Some([100, 150, 255]), None, Some([100, 150, 255]), Some([100, 150, 255]), None, Some([100, 150, 255]), Some([100, 150, 255]), None, Some([100, 150, 255]), Some([100, 150, 255]), None, Some([100, 150, 255]), Some([100, 150, 255]), None, Some([100, 150, 255]), Some([100, 150, 255]), None, None, None, Some([100, 150, 255]), Some([100, 150, 255]), None, None, Some([100, 150, 255]), Some([100, 150, 255]), None, None, None, None, None, Some([100, 150, 255]), Some([100, 150, 255]), Some([100, 150, 255]), Some([100, 150, 255]), None, None, Some([100, 150, 255]), Some([100, 150, 255]), None, None, None, None, Some([100, 150, 255]), Some([100, 150, 255]), None, None, None, None, None, None,
        Some([100, 150, 255]), Some([100, 150, 255]), None, None, None, None, None, Some([100, 150, 255]), Some([100, 150, 255]), Some([100, 150, 255]), Some([100, 150, 255]), None, None, None, Some([100, 150, 255]), Some([100, 150, 255]), Some([100, 150, 255]), None, None, Some([100, 150, 255]), Some([100, 150, 255]), Some([100, 150, 255]), Some([100, 150, 255]), None, None, None, None, Some([100, 150, 255]), Some([100, 150, 255]), None, None, Some([100, 150, 255]), Some([100, 150, 255]), Some([100, 150, 255]), Some([100, 150, 255]), None, None, Some([100, 150, 255]), Some([100, 150, 255]), None, Some([100, 150, 255]), Some([100, 150, 255]), None, None, Some([100, 150, 255]), Some([100, 150, 255]), None, None, None, None, Some([100, 150, 255]), Some([100, 150, 255]), None, None, None, None, None, None,
        Some([140, 185, 255]), Some([140, 185, 255]), None, None, None, None, None, Some([140, 185, 255]), Some([140, 185, 255]), None, Some([140, 185, 255]), Some([140, 185, 255]), None, None, None, Some([140, 185, 255]), Some([140, 185, 255]), None, None, Some([140, 185, 255]), Some([140, 185, 255]), None, None, None, None, None, None, Some([140, 185, 255]), Some([140, 185, 255]), None, None, Some([140, 185, 255]), Some([140, 185, 255]), None, None, None, None, Some([140, 185, 255]), Some([140, 185, 255]), None, Some([140, 185, 255]), Some([140, 185, 255]), None, None, Some([140, 185, 255]), Some([140, 185, 255]), None, None, None, None, Some([140, 185, 255]), Some([140, 185, 255]), None, None, None, None, None, None,
        Some([140, 185, 255]), Some([140, 185, 255]), None, None, None, None, None, Some([140, 185, 255]), Some([140, 185, 255]), None, Some([140, 185, 255]), Some([140, 185, 255]), None, None, None, Some([140, 185, 255]), Some([140, 185, 255]), None, None, Some([140, 185, 255]), Some([140, 185, 255]), None, None, None, None, None, None, Some([140, 185, 255]), Some([140, 185, 255]), None, None, Some([140, 185, 255]), Some([140, 185, 255]), None, None, None, None, Some([140, 185, 255]), Some([140, 185, 255]), None, Some([140, 185, 255]), Some([140, 185, 255]), None, None, Some([140, 185, 255]), Some([140, 185, 255]), None, None, None, None, Some([140, 185, 255]), Some([140, 185, 255]), None, None, None, None, None, None,
        Some([180, 210, 255]), Some([180, 210, 255]), None, None, None, None, None, Some([180, 210, 255]), Some([180, 210, 255]), None, Some([180, 210, 255]), Some([180, 210, 255]), None, None, None, Some([180, 210, 255]), Some([180, 210, 255]), None, None, Some([180, 210, 255]), Some([180, 210, 255]), None, None, None, None, None, None, Some([180, 210, 255]), Some([180, 210, 255]), None, None, Some([180, 210, 255]), Some([180, 210, 255]), None, None, None, None, Some([180, 210, 255]), Some([180, 210, 255]), None, Some([180, 210, 255]), Some([180, 210, 255]), None, None, Some([180, 210, 255]), Some([180, 210, 255]), None, None, None, None, Some([180, 210, 255]), Some([180, 210, 255]), None, None, None, None, None, None,
        Some([180, 210, 255]), Some([180, 210, 255]), None, None, Some([180, 210, 255]), Some([180, 210, 255]), None, Some([180, 210, 255]), Some([180, 210, 255]), None, Some([180, 210, 255]), Some([180, 210, 255]), None, None, None, Some([180, 210, 255]), Some([180, 210, 255]), None, None, Some([180, 210, 255]), Some([180, 210, 255]), None, None, None, None, None, None, Some([180, 210, 255]), Some([180, 210, 255]), None, None, Some([180, 210, 255]), Some([180, 210, 255]), None, None, None, None, Some([180, 210, 255]), Some([180, 210, 255]), None, Some([180, 210, 255]), Some([180, 210, 255]), None, None, Some([180, 210, 255]), Some([180, 210, 255]), None, None, None, None, Some([180, 210, 255]), Some([180, 210, 255]), None, None, None, None, None, None,
        None, Some([220, 232, 255]), Some([220, 232, 255]), Some([220, 232, 255]), Some([220, 232, 255]), None, None, Some([220, 232, 255]), Some([220, 232, 255]), None, Some([220, 232, 255]), Some([220, 232, 255]), None, None, None, Some([220, 232, 255]), Some([220, 232, 255]), None, None, Some([220, 232, 255]), Some([220, 232, 255]), None, None, None, None, None, None, Some([220, 232, 255]), Some([220, 232, 255]), None, None, Some([220, 232, 255]), Some([220, 232, 255]), None, None, None, None, Some([220, 232, 255]), Some([220, 232, 255]), None, Some([220, 232, 255]), Some([220, 232, 255]), None, None, Some([220, 232, 255]), Some([220, 232, 255]), Some([220, 232, 255]), Some([220, 232, 255]), Some([220, 232, 255]), None, Some([220, 232, 255]), Some([220, 232, 255]), Some([220, 232, 255]), Some([220, 232, 255]), Some([220, 232, 255]), None, None, None,
        None, Some([30, 45, 100]), Some([30, 45, 100]), Some([30, 45, 100]), Some([30, 45, 100]), None, None, Some([30, 45, 100]), Some([30, 45, 100]), None, Some([30, 45, 100]), Some([30, 45, 100]), None, None, None, Some([30, 45, 100]), Some([30, 45, 100]), None, None, Some([30, 45, 100]), Some([30, 45, 100]), None, None, None, None, None, None, Some([30, 45, 100]), Some([30, 45, 100]), None, None, Some([30, 45, 100]), Some([30, 45, 100]), None, None, None, None, Some([30, 45, 100]), Some([30, 45, 100]), None, Some([30, 45, 100]), Some([30, 45, 100]), None, None, Some([30, 45, 100]), Some([30, 45, 100]), Some([30, 45, 100]), Some([30, 45, 100]), Some([30, 45, 100]), None, Some([30, 45, 100]), Some([30, 45, 100]), Some([30, 45, 100]), Some([30, 45, 100]), Some([30, 45, 100]), None, None, None,
        None, None, Some([30, 45, 100]), Some([30, 45, 100]), None, None, None, None, Some([30, 45, 100]), None, None, Some([30, 45, 100]), None, None, None, None, Some([30, 45, 100]), None, None, None, Some([30, 45, 100]), None, None, None, None, None, None, None, Some([30, 45, 100]), None, None, None, Some([30, 45, 100]), None, None, None, None, None, Some([30, 45, 100]), None, None, Some([30, 45, 100]), None, None, None, Some([30, 45, 100]), Some([30, 45, 100]), Some([30, 45, 100]), None, None, None, Some([30, 45, 100]), Some([30, 45, 100]), Some([30, 45, 100]), None, None, None, None,
    ])
}

} // verus!
