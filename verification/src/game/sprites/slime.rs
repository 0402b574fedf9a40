use vstd::prelude::*;
use crate::engine::color::Color;
use crate::engine::sprite::SpriteData;

verus! {

/// Pixels of the slime, idle 0, row-major.
pub open spec fn slime_idle_0_pixels() -> Seq<Option<Color>> {
    let d_ = Some([30u8, 100, 30]);
    let g_ = Some([60u8, 160, 60]);
    let l_ = Some([120u8, 210, 120]);
    let n_ = None::<Color>;
    let r_ = Some([200u8, 40, 40]);
    seq![
        n_, n_, n_, n_, n_, n_, n_, n_, n_, n_,
        n_, n_, n_, l_, l_, l_, l_, n_, n_, n_,
        n_, n_, l_, g_, g_, g_, g_, l_, n_, n_,
        n_, n_, g_, r_, g_, g_, r_, g_, n_, n_,
        n_, n_, g_, g_, g_, g_, g_, g_, n_, n_,
        n_, n_, g_, g_, g_, g_, g_, g_, n_, n_,
        n_, n_, d_, g_, g_, g_, g_, d_, n_, n_,
        n_, n_, n_, d_, g_, g_, d_, n_, n_, n_,
        n_, n_, n_, d_, d_, d_, d_, n_, n_, n_,
        n_, n_, n_, n_, n_, n_, n_, n_, n_, n_,
    ]
}

/// The slime, idle 0, 10x10.
pub fn slime_idle_0() -> (s: SpriteData)
    ensures
        s.wf(),
        s.width == 10,
        s.height == 10,
        s.pixels@ == slime_idle_0_pixels(),
{
    SpriteData::new(10, 10, &[
        None, None, None, None, None, None, None, None, None, None,
        None, None, None, Some([120, 210, 120]), Some([120, 210, 120]), Some([120, 210, 120]), Some([120, 210, 120]), None, None, None,
        None, None, Some([120, 210, 120]), Some([60, 160, 60]), Some([60, 160, 60]), Some([60, 160, 60]), Some([60, 160, 60]), Some([120, 210, 120]), None, None,
        None, None, Some([60, 160, 60]), Some([200, 40, 40]), Some([60, 160, 60]), Some([60, 160, 60]), Some([200, 40, 40]), Some([60, 160, 60]), None, None,
        None, None, Some([60, 160, 60]), Some([60, 160, 60]), Some([60, 160, 60]), Some([60, 160, 60]), Some([60, 160, 60]), Some([60, 160, 60]), None, None,
        None, None, Some([60, 160, 60]), Some([60, 160, 60]), Some([60, 160, 60]), Some([60, 160, 60]), Some([60, 160, 60]), Some([60, 160, 60]), None, None,
        None, None, Some([30, 100, 30]), Some([60, 160, 60]), Some([60, 160, 60]), Some([60, 160, 60]), Some([60, 160, 60]), Some([30, 100, 30]), None, None,
        None, None, None, Some([30, 100, 30]), Some([60, 160, 60]), Some([60, 160, 60]), Some([30, 100, 30]), None, None, None,
        None, None, None, Some([30, 100, 30]), Some([30, 100, 30]), Some([30, 100, 30]), Some([30, 100, 30]), None, None, None,
        None, None, None, None, None, None, None, None, None, None,
    ])
}

/// Pixels of the slime, idle 1, row-major.
pub open spec fn slime_idle_1_pixels() -> Seq<Option<Color>> {
    let d_ = Some([30u8, 100, 30]);
    let g_ = Some([60u8, 160, 60]);
    let l_ = Some([120u8, 210, 120]);
    let n_ = None::<Color>;
    let r_ = Some([200u8, 40, 40]);
    seq![
        n_, n_, n_, n_, n_, n_, n_, n_, n_, n_,
        n_, n_, n_, n_, n_, n_, n_, n_, n_, n_,
        n_, n_, l_, l_, l_, l_, l_, l_, n_, n_,
        n_, l_, g_, r_, g_, g_, r_, g_, l_, n_,
        n_, g_, g_, g_, g_, g_, g_, g_, g_, n_,
        n_, g_, g_, g_, g_, g_, g_, g_, g_, n_,
        n_, d_, g_, g_, g_, g_, g_, g_, d_, n_,
        n_, n_, d_, d_, g_, g_, d_, d_, n_, n_,
        n_, n_, n_, d_, d_, d_, d_, n_, n_, n_,
        n_, n_, n_, n_, n_, n_, n_, n_, n_, n_,
    ]
}

/// The slime, idle 1, 10x10.
pub fn slime_idle_1() -> (s: SpriteData)
    ensures
        s.wf(),
        s.width == 10,
        s.height == 10,
        s.pixels@ == slime_idle_1_pixels(),
{
    SpriteData::new(10, 10, &[
        None, None, None, None, None, None, None, None, None, None,
        None, None, None, None, None, None, None, None, None, None,
        None, None, Some([120, 210, 120]), Some([120, 210, 120]), Some([120, 210, 120]), Some([120, 210, 120]), Some([120, 210, 120]), Some([120, 210, 120]), None, None,
        None, Some([120, 210, 120]), Some([60, 160, 60]), Some([200, 40, 40]), Some([60, 160, 60]), Some([60, 160, 60]), Some([200, 40, 40]), Some([60, 160, 60]), Some([120, 210, 120]), None,
        None, Some([60, 160, 60]), Some([60, 160, 60]), Some([60, 160, 60]), Some([60, 160, 60]), Some([60, 160, 60]), Some([60, 160, 60]), Some([60, 160, 60]), Some([60, 160, 60]), None,
        None, Some([60, 160, 60]), Some([60, 160, 60]), Some([60, 160, 60]), Some([60, 160, 60]), Some([60, 160, 60]), Some([60, 160, 60]), Some([60, 160, 60]), Some([60, 160, 60]), None,
        None, Some([30, 100, 30]), Some([60, 160, 60]), Some([60, 160, 60]), Some([60, 160, 60]), Some([60, 160, 60]), Some([60, 160, 60]), Some([60, 160, 60]), Some([30, 100, 30]), None,
        None, None, Some([30, 100, 30]), Some([30, 100, 30]), Some([60, 160, 60]), Some([60, 160, 60]), Some([30, 100, 30]), Some([30, 100, 30]), None, None,
        None, None, None, Some([30, 100, 30]), Some([30, 100, 30]), Some([30, 100, 30]), Some([30, 100, 30]), None, None, None,
        None, None, None, None, None, None, None, None, None, None,
    ])
}

/// Pixels of the slime, death 0, row-major.
pub open spec fn slime_death_0_pixels() -> Seq<Option<Color>> {
    let d_ = Some([30u8, 100, 30]);
    let g_ = Some([60u8, 160, 60]);
    let l_ = Some([120u8, 210, 120]);
    let n_ = None::<Color>;
    seq![
        n_, n_, n_, n_, n_, n_, n_, n_, n_, n_,
        n_, n_, n_, n_, n_, n_, n_, n_, n_, n_,
        n_, n_, n_, n_, n_, n_, n_, n_, n_, n_,
        n_, n_, l_, l_, l_, l_, l_, l_, n_, n_,
        n_, l_, g_, g_, g_, g_, g_, g_, l_, n_,
        n_, g_, g_, g_, g_, g_, g_, g_, g_, n_,
        n_, d_, g_, g_, g_, g_, g_, g_, d_, n_,
        n_, n_, d_, d_, d_, d_, d_, d_, n_, n_,
        n_, n_, n_, d_, d_, d_, d_, n_, n_, n_,
        n_, n_, n_, n_, n_, n_, n_, n_, n_, n_,
    ]
}

/// The slime, death 0, 10x10.
pub fn slime_death_0() -> (s: SpriteData)
    ensures
        s.wf(),
        s.width == 10,
        s.height == 10,
        s.pixels@ == slime_death_0_pixels(),
{
    SpriteData::new(10, 10, &[
        None, None, None, None, None, None, None, None, None, None,
        None, None, None, None, None, None, None, None, None, None,
        None, None, None, None, None, None, None, None, None, None,
        None, None, Some([120, 210, 120]), Some([120, 210, 120]), Some([120, 210, 120]), Some([120, 210, 120]), Some([120, 210, 120]), Some([120, 210, 120]), None, None,
        None, Some([120, 210, 120]), Some([60, 160, 60]), Some([60, 160, 60]), Some([60, 160, 60]), Some([60, 160, 60]), Some([60, 160, 60]), Some([60, 160, 60]), Some([120, 210, 120]), None,
        None, Some([60, 160, 60]), Some([60, 160, 60]), Some([60, 160, 60]), Some([60, 160, 60]), Some([60, 160, 60]), Some([60, 160, 60]), Some([60, 160, 60]), Some([60, 160, 60]), None,
        None, Some([30, 100, 30]), Some([60, 160, 60]), Some([60, 160, 60]), Some([60, 160, 60]), Some([60, 160, 60]), Some([60, 160, 60]), Some([60, 160, 60]), Some([30, 100, 30]), None,
        None, None, Some([30, 100, 30]), Some([30, 100, 30]), Some([30, 100, 30]), Some([30, 100, 30]), Some([30, 100, 30]), Some([30, 100, 30]), None, None,
        None, None, None, Some([30, 100, 30]), Some([30, 100, 30]), Some([30, 100, 30]), Some([30, 100, 30]), None, None, None,
        None, None, None, None, None, None, None, None, None, None,
    ])
}

/// Pixels of the slime, death 1, row-major.
pub open spec fn slime_death_1_pixels() -> Seq<Option<Color>> {
    let d_ = Some([30u8, 100, 30]);
    let g_ = Some([60u8, 160, 60]);
    let l_ = Some([120u8, 210, 120]);
    let n_ = None::<Color>;
    seq![
        n_, n_, n_, n_, n_, n_, n_, n_, n_, n_,
        n_, n_, n_, n_, n_, n_, n_, n_, n_, n_,
        n_, n_, n_, n_, n_, n_, n_, n_, n_, n_,
        n_, n_, n_, n_, n_, n_, n_, n_, n_, n_,
        n_, n_, n_, n_, n_, n_, n_, n_, n_, n_,
        n_, l_, l_, l_, l_, l_, l_, l_, l_, n_,
        n_, g_, g_, g_, g_, g_, g_, g_, g_, n_,
        n_, d_, d_, d_, d_, d_, d_, d_, d_, n_,
        n_, n_, d_, d_, d_, d_, d_, d_, n_, n_,
        n_, n_, n_, n_, n_, n_, n_, n_, n_, n_,
    ]
}

/// The slime, death 1, 10x10.
pub fn slime_death_1() -> (s: SpriteData)
    ensures
        s.wf(),
        s.width == 10,
        s.height == 10,
        s.pixels@ == slime_death_1_pixels(),
{
    SpriteData::new(10, 10, &[
        None, None, None, None, None, None, None, None, None, None,
        None, None, None, None, None, None, None, None, None, None,
        None, None, None, None, None, None, None, None, None, None,
        None, None, None, None, None, None, None, None, None, None,
        None, None, None, None, None, None, None, None, None, None,
        None, Some([120, 210, 120]), Some([120, 210, 120]), Some([120, 210, 120]), Some([120, 210, 120]), Some([120, 210, 120]), Some([120, 210, 120]), Some([120, 210, 120]), Some([120, 210, 120]), None,
        None, Some([60, 160, 60]), Some([60, 160, 60]), Some([60, 160, 60]), Some([60, 160, 60]), Some([60, 160, 60]), Some([60, 160, 60]), Some([60, 160, 60]), Some([60, 160, 60]), None,
        None, Some([30, 100, 30]), Some([30, 100, 30]), Some([30, 100, 30]), Some([30, 100, 30]), Some([30, 100, 30]), Some([30, 100, 30]), Some([30, 100, 30]), Some([30, 100, 30]), None,
        None, None, Some([30, 100, 30]), Some([30, 100, 30]), Some([30, 100, 30]), Some([30, 100, 30]), Some([30, 100, 30]), Some([30, 100, 30]), None, None,
        None, None, None, None, None, None, None, None, None, None,
    ])
}

/// Pixels of the slime, death 2, row-major.
pub open spec fn slime_death_2_pixels() -> Seq<Option<Color>> {
    let n_ = None::<Color>;
    let w_ = Some([255u8, 255, 255]);
    seq![
        n_, n_, n_, n_, n_, n_, n_, n_, n_, n_,
        n_, n_, n_, n_, n_, n_, n_, n_, n_, n_,
        n_, n_, n_, n_, n_, n_, n_, n_, n_, n_,
        n_, n_, n_, n_, n_, n_, n_, n_, n_, n_,
        n_, n_, n_, n_, n_, n_, n_, n_, n_, n_,
        n_, n_, n_, n_, n_, n_, n_, n_, n_, n_,
        n_, w_, w_, w_, w_, w_, w_, w_, w_, n_,
        n_, w_, w_, w_, w_, w_, w_, w_, w_, n_,
        n_, n_, w_, w_, w_, w_, w_, w_, n_, n_,
        n_, n_, n_, n_, n_, n_, n_, n_, n_, n_,
    ]
}

/// The slime, death 2, 10x10.
pub fn slime_death_2() -> (s: SpriteData)
    ensures
        s.wf(),
        s.width == 10,
        s.height == 10,
        s.pixels@ == slime_death_2_pixels(),
{
    SpriteData::new(10, 10, &[
        None, None, None, None, None, None, None, None, None, None,
        None, None, None, None, None, None, None, None, None, None,
        None, None, None, None, None, None, None, None, None, None,
        None, None, None, None, None, None, None, None, None, None,
        None, None, None, None, None, None, None, None, None, None,
        None, None, None, None, None, None, None, None, None, None,
        None, Some([255, 255, 255]), Some([255, 255, 255]), Some([255, 255, 255]), Some([255, 255, 255]), Some([255, 255, 255]), Some([255, 255, 255]), Some([255, 255, 255]), Some([255, 255, 255]), None,
        None, Some([255, 255, 255]), Some([255, 255, 255]), Some([255, 255, 255]), Some([255, 255, 255]), Some([255, 255, 255]), Some([255, 255, 255]), Some([255, 255, 255]), Some([255, 255, 255]), None,
        None, None, Some([255, 255, 255]), Some([255, 255, 255]), Some([255, 255, 255]), Some([255, 255, 255]), Some([255, 255, 255]), Some([255, 255, 255]), None, None,
        None, None, None, None, None, None, None, None, None, None,
    ])
}

/// Pixels of the slime, death 3, row-major.
pub open spec fn slime_death_3_pixels() -> Seq<Option<Color>> {
    let n_ = None::<Color>;
    let w_ = Some([255u8, 255, 255]);
    seq![
        n_, n_, n_, n_, n_, n_, n_, n_, n_, n_,
        n_, n_, n_, n_, n_, n_, n_, n_, n_, n_,
        n_, n_, n_, n_, n_, n_, n_, n_, n_, n_,
        n_, n_, n_, n_, n_, n_, n_, n_, n_, n_,
        n_, n_, n_, n_, n_, n_, n_, n_, n_, n_,
        n_, n_, n_, n_, n_, n_, n_, n_, n_, n_,
        n_, n_, n_, n_, n_, n_, n_, n_, n_, n_,
        n_, n_, w_, n_, w_, w_, n_, w_, n_, n_,
        n_, n_, n_, w_, n_, n_, w_, n_, n_, n_,
        n_, n_, n_, n_, n_, n_, n_, n_, n_, n_,
    ]
}

/// The slime, death 3, 10x10.
pub fn slime_death_3() -> (s: SpriteData)
    ensures
        s.wf(),
        s.width == 10,
        s.height == 10,
        s.pixels@ == slime_death_3_pixels(),
{
    SpriteData::new(10, 10, &[
        None, None, None, None, None, None, None, None, None, None,
        None, None, None, None, None, None, None, None, None, None,
        None, None, None, None, None, None, None, None, None, None,
        None, None, None, None, None, None, None, None, None, None,
        None, None, None, None, None, None, None, None, None, None,
        None, None, None, None, None, None, None, None, None, None,
        None, None, None, None, None, None, None, None, None, None,
        None, None, Some([255, 255, 255]), None, Some([255, 255, 255]), Some([255, 255, 255]), None, Some([255, 255, 255]), None, None,
        None, None, None, Some([255, 255, 255]), None, None, Some([255, 255, 255]), None, None, None,
        None, None, None, None, None, None, None, None, None, None,
    ])
}

} // verus!
