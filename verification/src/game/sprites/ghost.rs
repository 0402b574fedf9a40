use vstd::prelude::*;
use crate::engine::color::Color;
use crate::engine::sprite::SpriteData;

verus! {

/// Pixels of the ghost, idle 0, row-major.
pub open spec fn ghost_idle_0_pixels() -> Seq<Option<Color>> {
    let d_ = Some([80u8, 30, 130]);
    let e_ = Some([200u8, 100, 255]);
    let g_ = Some([60u8, 200, 255]);
    let l_ = Some([160u8, 100, 220]);
    let n_ = None::<Color>;
    let p_ = Some([120u8, 60, 180]);
    seq![
        n_, n_, n_, l_, l_, l_, l_, n_, n_, n_,
        n_, n_, l_, p_, p_, p_, p_, l_, n_, n_,
        n_, n_, p_, e_, p_, p_, e_, p_, n_, n_,
        n_, n_, p_, p_, p_, p_, p_, p_, n_, n_,
        n_, n_, d_, p_, p_, p_, p_, d_, n_, n_,
        n_, n_, d_, p_, g_, p_, p_, d_, n_, n_,
        n_, n_, n_, p_, p_, p_, p_, n_, n_, n_,
        n_, n_, n_, d_, p_, p_, d_, n_, n_, n_,
        n_, n_, n_, n_, d_, d_, n_, n_, n_, n_,
        n_, n_, n_, d_, n_, n_, d_, n_, n_, n_,
        n_, n_, d_, n_, n_, n_, n_, d_, n_, n_,
        n_, n_, n_, n_, n_, n_, n_, n_, n_, n_,
    ]
}

/// The ghost, idle 0, 10x12.
pub fn ghost_idle_0() -> (s: SpriteData)
    ensures
        s.wf(),
        s.width == 10,
        s.height == 12,
        s.pixels@ == ghost_idle_0_pixels(),
{
    SpriteData::new(10, 12, &[
        None, None, None, Some([160, 100, 220]), Some([160, 100, 220]), Some([160, 100, 220]), Some([160, 100, 220]), None, None, None,
        None, None, Some([160, 100, 220]), Some([120, 60, 180]), Some([120, 60, 180]), Some([120, 60, 180]), Some([120, 60, 180]), Some([160, 100, 220]), None, None,
        None, None, Some([120, 60, 180]), Some([200, 100, 255]), Some([120, 60, 180]), Some([120, 60, 180]), Some([200, 100, 255]), Some([120, 60, 180]), None, None,
        None, None, Some([120, 60, 180]), Some([120, 60, 180]), Some([120, 60, 180]), Some([120, 60, 180]), Some([120, 60, 180]), Some([120, 60, 180]), None, None,
        None, None, Some([80, 30, 130]), Some([120, 60, 180]), Some([120, 60, 180]), Some([120, 60, 180]), Some([120, 60, 180]), Some([80, 30, 130]), None, None,
        None, None, Some([80, 30, 130]), Some([120, 60, 180]), Some([60, 200, 255]), Some([120, 60, 180]), Some([120, 60, 180]), Some([80, 30, 130]), None, None,
        None, None, None, Some([120, 60, 180]), Some([120, 60, 180]), Some([120, 60, 180]), Some([120, 60, 180]), None, None, None,
        None, None, None, Some([80, 30, 130]), Some([120, 60, 180]), Some([120, 60, 180]), Some([80, 30, 130]), None, None, None,
        None, None, None, None, Some([80, 30, 130]), Some([80, 30, 130]), None, None, None, None,
        None, None, None, Some([80, 30, 130]), None, None, Some([80, 30, 130]), None, None, None,
        None, None, Some([80, 30, 130]), None, None, None, None, Some([80, 30, 130]), None, None,
        None, None, None, None, None, None, None, None, None, None,
    ])
}

/// Pixels of the ghost, idle 1, row-major.
pub open spec fn ghost_idle_1_pixels() -> Seq<Option<Color>> {
    let d_ = Some([80u8, 30, 130]);
    let e_ = Some([200u8, 100, 255]);
    let g_ = Some([60u8, 200, 255]);
    let l_ = Some([160u8, 100, 220]);
    let n_ = None::<Color>;
    let p_ = Some([120u8, 60, 180]);
    seq![
        n_, n_, n_, n_, n_, n_, n_, n_, n_, n_,
        n_, n_, n_, l_, l_, l_, l_, n_, n_, n_,
        n_, n_, l_, p_, p_, p_, p_, l_, n_, n_,
        n_, n_, p_, e_, p_, p_, e_, p_, n_, n_,
        n_, n_, p_, p_, p_, p_, p_, p_, n_, n_,
        n_, n_, d_, p_, p_, p_, p_, d_, n_, n_,
        n_, n_, d_, p_, g_, p_, p_, d_, n_, n_,
        n_, n_, n_, p_, p_, p_, p_, n_, n_, n_,
        n_, n_, n_, d_, p_, p_, d_, n_, n_, n_,
        n_, n_, n_, n_, d_, d_, n_, n_, n_, n_,
        n_, n_, d_, n_, n_, n_, n_, d_, n_, n_,
        n_, n_, n_, d_, n_, n_, d_, n_, n_, n_,
    ]
}

/// The ghost, idle 1, 10x12.
pub fn ghost_idle_1() -> (s: SpriteData)
    ensures
        s.wf(),
        s.width == 10,
        s.height == 12,
        s.pixels@ == ghost_idle_1_pixels(),
{
    SpriteData::new(10, 12, &[
        None, None, None, None, None, None, None, None, None, None,
        None, None, None, Some([160, 100, 220]), Some([160, 100, 220]), Some([160, 100, 220]), Some([160, 100, 220]), None, None, None,
        None, None, Some([160, 100, 220]), Some([120, 60, 180]), Some([120, 60, 180]), Some([120, 60, 180]), Some([120, 60, 180]), Some([160, 100, 220]), None, None,
        None, None, Some([120, 60, 180]), Some([200, 100, 255]), Some([120, 60, 180]), Some([120, 60, 180]), Some([200, 100, 255]), Some([120, 60, 180]), None, None,
        None, None, Some([120, 60, 180]), Some([120, 60, 180]), Some([120, 60, 180]), Some([120, 60, 180]), Some([120, 60, 180]), Some([120, 60, 180]), None, None,
        None, None, Some([80, 30, 130]), Some([120, 60, 180]), Some([120, 60, 180]), Some([120, 60, 180]), Some([120, 60, 180]), Some([80, 30, 130]), None, None,
        None, None, Some([80, 30, 130]), Some([120, 60, 180]), Some([60, 200, 255]), Some([120, 60, 180]), Some([120, 60, 180]), Some([80, 30, 130]), None, None,
        None, None, None, Some([120, 60, 180]), Some([120, 60, 180]), Some([120, 60, 180]), Some([120, 60, 180]), None, None, None,
        None, None, None, Some([80, 30, 130]), Some([120, 60, 180]), Some([120, 60, 180]), Some([80, 30, 130]), None, None, None,
        None, None, None, None, Some([80, 30, 130]), Some([80, 30, 130]), None, None, None, None,
        None, None, Some([80, 30, 130]), None, None, None, None, Some([80, 30, 130]), None, None,
        None, None, None, Some([80, 30, 130]), None, None, Some([80, 30, 130]), None, None, None,
    ])
}

/// Pixels of the ghost, aim 0, row-major.
pub open spec fn ghost_aim_0_pixels() -> Seq<Option<Color>> {
    let d_ = Some([80u8, 30, 130]);
    let g_ = Some([60u8, 200, 255]);
    let l_ = Some([160u8, 100, 220]);
    let n_ = None::<Color>;
    let p_ = Some([120u8, 60, 180]);
    seq![
        n_, n_, n_, l_, l_, l_, l_, n_, n_, n_,
        n_, n_, l_, p_, p_, p_, p_, l_, n_, n_,
        n_, n_, p_, g_, p_, p_, g_, p_, n_, n_,
        n_, n_, p_, p_, p_, p_, p_, p_, n_, n_,
        n_, n_, d_, p_, p_, p_, p_, d_, n_, n_,
        n_, n_, d_, p_, g_, g_, p_, d_, n_, n_,
        n_, n_, n_, p_, g_, g_, p_, n_, n_, n_,
        n_, n_, n_, d_, p_, p_, d_, n_, n_, n_,
        n_, n_, n_, n_, d_, d_, n_, n_, n_, n_,
        n_, n_, n_, d_, n_, n_, d_, n_, n_, n_,
        n_, n_, d_, n_, n_, n_, n_, d_, n_, n_,
        n_, n_, n_, n_, n_, n_, n_, n_, n_, n_,
    ]
}

/// The ghost, aim 0, 10x12.
pub fn ghost_aim_0() -> (s: SpriteData)
    ensures
        s.wf(),
        s.width == 10,
        s.height == 12,
        s.pixels@ == ghost_aim_0_pixels(),
{
    SpriteData::new(10, 12, &[
        None, None, None, Some([160, 100, 220]), Some([160, 100, 220]), Some([160, 100, 220]), Some([160, 100, 220]), None, None, None,
        None, None, Some([160, 100, 220]), Some([120, 60, 180]), Some([120, 60, 180]), Some([120, 60, 180]), Some([120, 60, 180]), Some([160, 100, 220]), None, None,
        None, None, Some([120, 60, 180]), Some([60, 200, 255]), Some([120, 60, 180]), Some([120, 60, 180]), Some([60, 200, 255]), Some([120, 60, 180]), None, None,
        None, None, Some([120, 60, 180]), Some([120, 60, 180]), Some([120, 60, 180]), Some([120, 60, 180]), Some([120, 60, 180]), Some([120, 60, 180]), None, None,
        None, None, Some([80, 30, 130]), Some([120, 60, 180]), Some([120, 60, 180]), Some([120, 60, 180]), Some([120, 60, 180]), Some([80, 30, 130]), None, None,
        None, None, Some([80, 30, 130]), Some([120, 60, 180]), Some([60, 200, 255]), Some([60, 200, 255]), Some([120, 60, 180]), Some([80, 30, 130]), None, None,
        None, None, None, Some([120, 60, 180]), Some([60, 200, 255]), Some([60, 200, 255]), Some([120, 60, 180]), None, None, None,
        None, None, None, Some([80, 30, 130]), Some([120, 60, 180]), Some([120, 60, 180]), Some([80, 30, 130]), None, None, None,
        None, None, None, None, Some([80, 30, 130]), Some([80, 30, 130]), None, None, None, None,
        None, None, None, Some([80, 30, 130]), None, None, Some([80, 30, 130]), None, None, None,
        None, None, Some([80, 30, 130]), None, None, None, None, Some([80, 30, 130]), None, None,
        None, None, None, None, None, None, None, None, None, None,
    ])
}

/// Pixels of the ghost, aim 1, row-major.
pub open spec fn ghost_aim_1_pixels() -> Seq<Option<Color>> {
    let d_ = Some([80u8, 30, 130]);
    let e_ = Some([200u8, 100, 255]);
    let g_ = Some([60u8, 200, 255]);
    let l_ = Some([160u8, 100, 220]);
    let n_ = None::<Color>;
    let p_ = Some([120u8, 60, 180]);
    seq![
        n_, n_, n_, l_, l_, l_, l_, n_, n_, n_,
        n_, n_, l_, p_, p_, p_, p_, l_, n_, n_,
        n_, n_, p_, e_, p_, p_, e_, p_, n_, n_,
        n_, n_, p_, p_, p_, p_, p_, p_, n_, n_,
        n_, n_, d_, p_, p_, p_, p_, d_, n_, n_,
        n_, n_, d_, g_, g_, g_, g_, d_, n_, n_,
        n_, n_, n_, p_, g_, g_, p_, n_, n_, n_,
        n_, n_, n_, d_, p_, p_, d_, n_, n_, n_,
        n_, n_, n_, n_, d_, d_, n_, n_, n_, n_,
        n_, n_, n_, d_, n_, n_, d_, n_, n_, n_,
        n_, n_, d_, n_, n_, n_, n_, d_, n_, n_,
        n_, n_, n_, n_, n_, n_, n_, n_, n_, n_,
    ]
}

/// The ghost, aim 1, 10x12.
pub fn ghost_aim_1() -> (s: SpriteData)
    ensures
        s.wf(),
        s.width == 10,
        s.height == 12,
        s.pixels@ == ghost_aim_1_pixels(),
{
    SpriteData::new(10, 12, &[
        None, None, None, Some([160, 100, 220]), Some([160, 100, 220]), Some([160, 100, 220]), Some([160, 100, 220]), None, None, None,
        None, None, Some([160, 100, 220]), Some([120, 60, 180]), Some([120, 60, 180]), Some([120, 60, 180]), Some([120, 60, 180]), Some([160, 100, 220]), None, None,
        None, None, Some([120, 60, 180]), Some([200, 100, 255]), Some([120, 60, 180]), Some([120, 60, 180]), Some([200, 100, 255]), Some([120, 60, 180]), None, None,
        None, None, Some([120, 60, 180]), Some([120, 60, 180]), Some([120, 60, 180]), Some([120, 60, 180]), Some([120, 60, 180]), Some([120, 60, 180]), None, None,
        None, None, Some([80, 30, 130]), Some([120, 60, 180]), Some([120, 60, 180]), Some([120, 60, 180]), Some([120, 60, 180]), Some([80, 30, 130]), None, None,
        None, None, Some([80, 30, 130]), Some([60, 200, 255]), Some([60, 200, 255]), Some([60, 200, 255]), Some([60, 200, 255]), Some([80, 30, 130]), None, None,
        None, None, None, Some([120, 60, 180]), Some([60, 200, 255]), Some([60, 200, 255]), Some([120, 60, 180]), None, None, None,
        None, None, None, Some([80, 30, 130]), Some([120, 60, 180]), Some([120, 60, 180]), Some([80, 30, 130]), None, None, None,
        None, None, None, None, Some([80, 30, 130]), Some([80, 30, 130]), None, None, None, None,
        None, None, None, Some([80, 30, 130]), None, None, Some([80, 30, 130]), None, None, None,
        None, None, Some([80, 30, 130]), None, None, None, None, Some([80, 30, 130]), None, None,
        None, None, None, None, None, None, None, None, None, None,
    ])
}

/// Pixels of the ghost, death 0, row-major.
pub open spec fn ghost_death_0_pixels() -> Seq<Option<Color>> {
    let d_ = Some([80u8, 30, 130]);
    let l_ = Some([160u8, 100, 220]);
    let n_ = None::<Color>;
    let p_ = Some([120u8, 60, 180]);
    seq![
        n_, n_, n_, n_, n_, n_, n_, n_, n_, n_,
        n_, n_, n_, n_, n_, n_, n_, n_, n_, n_,
        n_, n_, n_, l_, l_, l_, l_, n_, n_, n_,
        n_, n_, l_, p_, p_, p_, p_, l_, n_, n_,
        n_, n_, p_, p_, p_, p_, p_, p_, n_, n_,
        n_, n_, d_, p_, p_, p_, p_, d_, n_, n_,
        n_, n_, n_, d_, p_, p_, d_, n_, n_, n_,
        n_, n_, n_, n_, d_, d_, n_, n_, n_, n_,
        n_, n_, n_, n_, n_, n_, n_, n_, n_, n_,
        n_, n_, n_, n_, n_, n_, n_, n_, n_, n_,
        n_, n_, n_, n_, n_, n_, n_, n_, n_, n_,
        n_, n_, n_, n_, n_, n_, n_, n_, n_, n_,
    ]
}

/// The ghost, death 0, 10x12.
pub fn ghost_death_0() -> (s: SpriteData)
    ensures
        s.wf(),
        s.width == 10,
        s.height == 12,
        s.pixels@ == ghost_death_0_pixels(),
{
    SpriteData::new(10, 12, &[
        None, None, None, None, None, None, None, None, None, None,
        None, None, None, None, None, None, None, None, None, None,
        None, None, None, Some([160, 100, 220]), Some([160, 100, 220]), Some([160, 100, 220]), Some([160, 100, 220]), None, None, None,
        None, None, Some([160, 100, 220]), Some([120, 60, 180]), Some([120, 60, 180]), Some([120, 60, 180]), Some([120, 60, 180]), Some([160, 100, 220]), None, None,
        None, None, Some([120, 60, 180]), Some([120, 60, 180]), Some([120, 60, 180]), Some([120, 60, 180]), Some([120, 60, 180]), Some([120, 60, 180]), None, None,
        None, None, Some([80, 30, 130]), Some([120, 60, 180]), Some([120, 60, 180]), Some([120, 60, 180]), Some([120, 60, 180]), Some([80, 30, 130]), None, None,
        None, None, None, Some([80, 30, 130]), Some([120, 60, 180]), Some([120, 60, 180]), Some([80, 30, 130]), None, None, None,
        None, None, None, None, Some([80, 30, 130]), Some([80, 30, 130]), None, None, None, None,
        None, None, None, None, None, None, None, None, None, None,
        None, None, None, None, None, None, None, None, None, None,
        None, None, None, None, None, None, None, None, None, None,
        None, None, None, None, None, None, None, None, None, None,
    ])
}

/// Pixels of the ghost, death 1, row-major.
pub open spec fn ghost_death_1_pixels() -> Seq<Option<Color>> {
    let d_ = Some([80u8, 30, 130]);
    let l_ = Some([160u8, 100, 220]);
    let n_ = None::<Color>;
    let p_ = Some([120u8, 60, 180]);
    seq![
        n_, n_, n_, n_, n_, n_, n_, n_, n_, n_,
        n_, n_, n_, n_, n_, n_, n_, n_, n_, n_,
        n_, n_, n_, n_, n_, n_, n_, n_, n_, n_,
        n_, n_, n_, n_, n_, n_, n_, n_, n_, n_,
        n_, n_, n_, n_, n_, n_, n_, n_, n_, n_,
        n_, n_, n_, n_, n_, n_, n_, n_, n_, n_,
        n_, n_, n_, n_, n_, n_, n_, n_, n_, n_,
        n_, n_, n_, n_, n_, n_, n_, n_, n_, n_,
        n_, n_, l_, n_, l_, p_, n_, l_, n_, n_,
        n_, n_, n_, p_, n_, n_, d_, n_, n_, n_,
        n_, n_, n_, n_, d_, n_, n_, n_, n_, n_,
        n_, n_, n_, n_, n_, n_, n_, n_, n_, n_,
    ]
}

/// The ghost, death 1, 10x12.
pub fn ghost_death_1() -> (s: SpriteData)
    ensures
        s.wf(),
        s.width == 10,
        s.height == 12,
        s.pixels@ == ghost_death_1_pixels(),
{
    SpriteData::new(10, 12, &[
        None, None, None, None, None, None, None, None, None, None,
        None, None, None, None, None, None, None, None, None, None,
        None, None, None, None, None, None, None, None, None, None,
        None, None, None, None, None, None, None, None, None, None,
        None, None, None, None, None, None, None, None, None, None,
        None, None, None, None, None, None, None, None, None, None,
        None, None, None, None, None, None, None, None, None, None,
        None, None, None, None, None, None, None, None, None, None,
        None, None, Some([160, 100, 220]), None, Some([160, 100, 220]), Some([120, 60, 180]), None, Some([160, 100, 220]), None, None,
        None, None, None, Some([120, 60, 180]), None, None, Some([80, 30, 130]), None, None, None,
        None, None, None, None, Some([80, 30, 130]), None, None, None, None, None,
        None, None, None, None, None, None, None, None, None, None,
    ])
}

} // verus!
