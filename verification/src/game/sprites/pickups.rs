use vstd::prelude::*;
use crate::engine::color::Color;
use crate::engine::sprite::SpriteData;

verus! {

/// Pixels of the pickup, heart small, row-major.
pub open spec fn pickup_heart_small_pixels() -> Seq<Option<Color>> {
    let d_ = Some([180u8, 25, 25]);
    let h_ = Some([255u8, 100, 100]);
    let n_ = None::<Color>;
    let r_ = Some([220u8, 40, 40]);
    seq![
        n_, h_, n_, h_, n_,
        r_, r_, r_, r_, r_,
        r_, r_, r_, r_, r_,
        n_, d_, r_, d_, n_,
        n_, n_, d_, n_, n_,
    ]
}

/// The pickup, heart small, 5x5.
pub fn pickup_heart_small() -> (s: SpriteData)
    ensures
        s.wf(),
        s.width == 5,
        s.height == 5,
        s.pixels@ == pickup_heart_small_pixels(),
{
    SpriteData::new(5, 5, &[
        None, Some([255, 100, 100]), None, Some([255, 100, 100]), None,
        Some([220, 40, 40]), Some([220, 40, 40]), Some([220, 40, 40]), Some([220, 40, 40]), Some([220, 40, 40]),
        Some([220, 40, 40]), Some([220, 40, 40]), Some([220, 40, 40]), Some([220, 40, 40]), Some([220, 40, 40]),
        None, Some([180, 25, 25]), Some([220, 40, 40]), Some([180, 25, 25]), None,
        None, None, Some([180, 25, 25]), None, None,
    ])
}

/// Pixels of the pickup, heart big, row-major.
pub open spec fn pickup_heart_big_pixels() -> Seq<Option<Color>> {
    let d_ = Some([180u8, 25, 25]);
    let h_ = Some([255u8, 100, 100]);
    let n_ = None::<Color>;
    let r_ = Some([220u8, 40, 40]);
    let w_ = Some([255u8, 200, 200]);
    seq![
        n_, h_, h_, n_, h_, h_, n_,
        h_, w_, r_, r_, r_, w_, h_,
        r_, r_, r_, r_, r_, r_, r_,
        r_, r_, r_, r_, r_, r_, r_,
        n_, r_, r_, r_, r_, r_, n_,
        n_, n_, d_, r_, d_, n_, n_,
        n_, n_, n_, d_, n_, n_, n_,
    ]
}

/// The pickup, heart big, 7x7.
pub fn pickup_heart_big() -> (s: SpriteData)
    ensures
        s.wf(),
        s.width == 7,
        s.height == 7,
        s.pixels@ == pickup_heart_big_pixels(),
{
    SpriteData::new(7, 7, &[
        None, Some([255, 100, 100]), Some([255, 100, 100]), None, Some([255, 100, 100]), Some([255, 100, 100]), None,
        Some([255, 100, 100]), Some([255, 200, 200]), Some([220, 40, 40]), Some([220, 40, 40]), Some([220, 40, 40]), Some([255, 200, 200]), Some([255, 100, 100]),
        Some([220, 40, 40]), Some([220, 40, 40]), Some([220, 40, 40]), Some([220, 40, 40]), Some([220, 40, 40]), Some([220, 40, 40]), Some([220, 40, 40]),
        Some([220, 40, 40]), Some([220, 40, 40]), Some([220, 40, 40]), Some([220, 40, 40]), Some([220, 40, 40]), Some([220, 40, 40]), Some([220, 40, 40]),
        None, Some([220, 40, 40]), Some([220, 40, 40]), Some([220, 40, 40]), Some([220, 40, 40]), Some([220, 40, 40]), None,
        None, None, Some([180, 25, 25]), Some([220, 40, 40]), Some([180, 25, 25]), None, None,
        None, None, None, Some([180, 25, 25]), None, None, None,
    ])
}

/// Pixels of the pickup, coin, row-major.
pub open spec fn pickup_coin_pixels() -> Seq<Option<Color>> {
    let g_ = Some([255u8, 200, 50]);
    let k_ = Some([200u8, 160, 30]);
    let l_ = Some([255u8, 230, 120]);
    let n_ = None::<Color>;
    seq![
        n_, k_, g_, k_, n_,
        k_, g_, l_, g_, k_,
        g_, l_, g_, g_, g_,
        k_, g_, g_, g_, k_,
        n_, k_, g_, k_, n_,
    ]
}

/// The pickup, coin, 5x5.
pub fn pickup_coin() -> (s: SpriteData)
    ensures
        s.wf(),
        s.width == 5,
        s.height == 5,
        s.pixels@ == pickup_coin_pixels(),
{
    SpriteData::new(5, 5, &[
        None, Some([200, 160, 30]), Some([255, 200, 50]), Some([200, 160, 30]), None,
        Some([200, 160, 30]), Some([255, 200, 50]), Some([255, 230, 120]), Some([255, 200, 50]), Some([200, 160, 30]),
        Some([255, 200, 50]), Some([255, 230, 120]), Some([255, 200, 50]), Some([255, 200, 50]), Some([255, 200, 50]),
        Some([200, 160, 30]), Some([255, 200, 50]), Some([255, 200, 50]), Some([255, 200, 50]), Some([200, 160, 30]),
        None, Some([200, 160, 30]), Some([255, 200, 50]), Some([200, 160, 30]), None,
    ])
}

} // verus!
