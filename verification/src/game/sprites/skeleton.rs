use vstd::prelude::*;
use crate::engine::color::Color;
use crate::engine::sprite::SpriteData;

verus! {

/// Pixels of the skeleton, idle 0, row-major.
pub open spec fn skel_idle_0_pixels() -> Seq<Option<Color>> {
    let b_ = Some([220u8, 210, 190]);
    let d_ = Some([160u8, 150, 130]);
    let e_ = Some([100u8, 90, 80]);
    let n_ = None::<Color>;
    let r_ = Some([200u8, 40, 40]);
    let w_ = Some([180u8, 180, 190]);
    seq![
        n_, n_, n_, b_, b_, b_, b_, n_, n_, n_,
        n_, n_, b_, b_, b_, b_, b_, b_, n_, n_,
        n_, n_, b_, r_, b_, b_, r_, b_, n_, n_,
        n_, n_, n_, b_, d_, d_, b_, n_, n_, n_,
        n_, n_, d_, b_, b_, b_, b_, d_, n_, n_,
        n_, n_, d_, b_, d_, b_, b_, d_, n_, n_,
        n_, n_, d_, b_, b_, b_, b_, d_, w_, n_,
        n_, n_, n_, b_, b_, b_, b_, n_, w_, n_,
        n_, n_, n_, d_, b_, b_, d_, n_, w_, n_,
        n_, n_, n_, n_, d_, d_, n_, n_, n_, n_,
        n_, n_, n_, n_, d_, n_, d_, n_, n_, n_,
        n_, n_, n_, n_, d_, n_, d_, n_, n_, n_,
        n_, n_, n_, n_, e_, n_, e_, n_, n_, n_,
        n_, n_, n_, e_, e_, n_, e_, e_, n_, n_,
    ]
}

/// The skeleton, idle 0, 10x14.
pub fn skel_idle_0() -> (s: SpriteData)
    ensures
        s.wf(),
        s.width == 10,
        s.height == 14,
        s.pixels@ == skel_idle_0_pixels(),
{
    SpriteData::new(10, 14, &[
        None, None, None, Some([220, 210, 190]), Some([220, 210, 190]), Some([220, 210, 190]), Some([220, 210, 190]), None, None, None,
        None, None, Some([220, 210, 190]), Some([220, 210, 190]), Some([220, 210, 190]), Some([220, 210, 190]), Some([220, 210, 190]), Some([220, 210, 190]), None, None,
        None, None, Some([220, 210, 190]), Some([200, 40, 40]), Some([220, 210, 190]), Some([220, 210, 190]), Some([200, 40, 40]), Some([220, 210, 190]), None, None,
        None, None, None, Some([220, 210, 190]), Some([160, 150, 130]), Some([160, 150, 130]), Some([220, 210, 190]), None, None, None,
        None, None, Some([160, 150, 130]), Some([220, 210, 190]), Some([220, 210, 190]), Some([220, 210, 190]), Some([220, 210, 190]), Some([160, 150, 130]), None, None,
        None, None, Some([160, 150, 130]), Some([220, 210, 190]), Some([160, 150, 130]), Some([220, 210, 190]), Some([220, 210, 190]), Some([160, 150, 130]), None, None,
        None, None, Some([160, 150, 130]), Some([220, 210, 190]), Some([220, 210, 190]), Some([220, 210, 190]), Some([220, 210, 190]), Some([160, 150, 130]), Some([180, 180, 190]), None,
        None, None, None, Some([220, 210, 190]), Some([220, 210, 190]), Some([220, 210, 190]), Some([220, 210, 190]), None, Some([180, 180, 190]), None,
        None, None, None, Some([160, 150, 130]), Some([220, 210, 190]), Some([220, 210, 190]), Some([160, 150, 130]), None, Some([180, 180, 190]), None,
        None, None, None, None, Some([160, 150, 130]), Some([160, 150, 130]), None, None, None, None,
        None, None, None, None, Some([160, 150, 130]), None, Some([160, 150, 130]), None, None, None,
        None, None, None, None, Some([160, 150, 130]), None, Some([160, 150, 130]), None, None, None,
        None, None, None, None, Some([100, 90, 80]), None, Some([100, 90, 80]), None, None, None,
        None, None, None, Some([100, 90, 80]), Some([100, 90, 80]), None, Some([100, 90, 80]), Some([100, 90, 80]), None, None,
    ])
}

/// Pixels of the skeleton, idle 1, row-major.
pub open spec fn skel_idle_1_pixels() -> Seq<Option<Color>> {
    let b_ = Some([220u8, 210, 190]);
    let d_ = Some([160u8, 150, 130]);
    let e_ = Some([100u8, 90, 80]);
    let n_ = None::<Color>;
    let r_ = Some([200u8, 40, 40]);
    let w_ = Some([180u8, 180, 190]);
    seq![
        n_, n_, b_, b_, b_, b_, b_, b_, n_, n_,
        n_, n_, b_, r_, b_, b_, r_, b_, n_, n_,
        n_, n_, n_, b_, d_, d_, b_, n_, n_, n_,
        n_, n_, d_, b_, b_, b_, b_, d_, n_, n_,
        n_, n_, d_, b_, d_, b_, b_, d_, n_, n_,
        n_, n_, d_, b_, b_, b_, b_, d_, n_, n_,
        n_, n_, n_, b_, b_, b_, b_, n_, w_, n_,
        n_, n_, n_, d_, b_, b_, d_, n_, w_, n_,
        n_, n_, n_, n_, d_, d_, n_, n_, w_, n_,
        n_, n_, n_, n_, d_, n_, d_, n_, n_, n_,
        n_, n_, n_, n_, d_, n_, d_, n_, n_, n_,
        n_, n_, n_, n_, e_, n_, e_, n_, n_, n_,
        n_, n_, n_, e_, e_, n_, e_, e_, n_, n_,
        n_, n_, n_, n_, n_, n_, n_, n_, n_, n_,
    ]
}

/// The skeleton, idle 1, 10x14.
pub fn skel_idle_1() -> (s: SpriteData)
    ensures
        s.wf(),
        s.width == 10,
        s.height == 14,
        s.pixels@ == skel_idle_1_pixels(),
{
    SpriteData::new(10, 14, &[
        None, None, Some([220, 210, 190]), Some([220, 210, 190]), Some([220, 210, 190]), Some([220, 210, 190]), Some([220, 210, 190]), Some([220, 210, 190]), None, None,
        None, None, Some([220, 210, 190]), Some([200, 40, 40]), Some([220, 210, 190]), Some([220, 210, 190]), Some([200, 40, 40]), Some([220, 210, 190]), None, None,
        None, None, None, Some([220, 210, 190]), Some([160, 150, 130]), Some([160, 150, 130]), Some([220, 210, 190]), None, None, None,
        None, None, Some([160, 150, 130]), Some([220, 210, 190]), Some([220, 210, 190]), Some([220, 210, 190]), Some([220, 210, 190]), Some([160, 150, 130]), None, None,
        None, None, Some([160, 150, 130]), Some([220, 210, 190]), Some([160, 150, 130]), Some([220, 210, 190]), Some([220, 210, 190]), Some([160, 150, 130]), None, None,
        None, None, Some([160, 150, 130]), Some([220, 210, 190]), Some([220, 210, 190]), Some([220, 210, 190]), Some([220, 210, 190]), Some([160, 150, 130]), None, None,
        None, None, None, Some([220, 210, 190]), Some([220, 210, 190]), Some([220, 210, 190]), Some([220, 210, 190]), None, Some([180, 180, 190]), None,
        None, None, None, Some([160, 150, 130]), Some([220, 210, 190]), Some([220, 210, 190]), Some([160, 150, 130]), None, Some([180, 180, 190]), None,
        None, None, None, None, Some([160, 150, 130]), Some([160, 150, 130]), None, None, Some([180, 180, 190]), None,
        None, None, None, None, Some([160, 150, 130]), None, Some([160, 150, 130]), None, None, None,
        None, None, None, None, Some([160, 150, 130]), None, Some([160, 150, 130]), None, None, None,
        None, None, None, None, Some([100, 90, 80]), None, Some([100, 90, 80]), None, None, None,
        None, None, None, Some([100, 90, 80]), Some([100, 90, 80]), None, Some([100, 90, 80]), Some([100, 90, 80]), None, None,
        None, None, None, None, None, None, None, None, None, None,
    ])
}

/// Pixels of the skeleton, walk 0, row-major.
pub open spec fn skel_walk_0_pixels() -> Seq<Option<Color>> {
    let b_ = Some([220u8, 210, 190]);
    let d_ = Some([160u8, 150, 130]);
    let e_ = Some([100u8, 90, 80]);
    let n_ = None::<Color>;
    let r_ = Some([200u8, 40, 40]);
    seq![
        n_, n_, n_, b_, b_, b_, b_, n_, n_, n_,
        n_, n_, b_, b_, b_, b_, b_, b_, n_, n_,
        n_, n_, b_, r_, b_, b_, r_, b_, n_, n_,
        n_, n_, n_, b_, d_, d_, b_, n_, n_, n_,
        n_, n_, d_, b_, b_, b_, b_, d_, n_, n_,
        n_, n_, d_, b_, d_, b_, b_, d_, n_, n_,
        n_, n_, d_, b_, b_, b_, b_, d_, n_, n_,
        n_, n_, n_, b_, b_, b_, b_, n_, n_, n_,
        n_, n_, n_, d_, b_, b_, d_, n_, n_, n_,
        n_, n_, n_, n_, d_, d_, n_, n_, n_, n_,
        n_, n_, n_, d_, n_, n_, n_, d_, n_, n_,
        n_, n_, n_, d_, n_, n_, n_, d_, n_, n_,
        n_, n_, n_, e_, n_, n_, n_, e_, n_, n_,
        n_, n_, e_, e_, n_, n_, n_, e_, e_, n_,
    ]
}

/// The skeleton, walk 0, 10x14.
pub fn skel_walk_0() -> (s: SpriteData)
    ensures
        s.wf(),
        s.width == 10,
        s.height == 14,
        s.pixels@ == skel_walk_0_pixels(),
{
    SpriteData::new(10, 14, &[
        None, None, None, Some([220, 210, 190]), Some([220, 210, 190]), Some([220, 210, 190]), Some([220, 210, 190]), None, None, None,
        None, None, Some([220, 210, 190]), Some([220, 210, 190]), Some([220, 210, 190]), Some([220, 210, 190]), Some([220, 210, 190]), Some([220, 210, 190]), None, None,
        None, None, Some([220, 210, 190]), Some([200, 40, 40]), Some([220, 210, 190]), Some([220, 210, 190]), Some([200, 40, 40]), Some([220, 210, 190]), None, None,
        None, None, None, Some([220, 210, 190]), Some([160, 150, 130]), Some([160, 150, 130]), Some([220, 210, 190]), None, None, None,
        None, None, Some([160, 150, 130]), Some([220, 210, 190]), Some([220, 210, 190]), Some([220, 210, 190]), Some([220, 210, 190]), Some([160, 150, 130]), None, None,
        None, None, Some([160, 150, 130]), Some([220, 210, 190]), Some([160, 150, 130]), Some([220, 210, 190]), Some([220, 210, 190]), Some([160, 150, 130]), None, None,
        None, None, Some([160, 150, 130]), Some([220, 210, 190]), Some([220, 210, 190]), Some([220, 210, 190]), Some([220, 210, 190]), Some([160, 150, 130]), None, None,
        None, None, None, Some([220, 210, 190]), Some([220, 210, 190]), Some([220, 210, 190]), Some([220, 210, 190]), None, None, None,
        None, None, None, Some([160, 150, 130]), Some([220, 210, 190]), Some([220, 210, 190]), Some([160, 150, 130]), None, None, None,
        None, None, None, None, Some([160, 150, 130]), Some([160, 150, 130]), None, None, None, None,
        None, None, None, Some([160, 150, 130]), None, None, None, Some([160, 150, 130]), None, None,
        None, None, None, Some([160, 150, 130]), None, None, None, Some([160, 150, 130]), None, None,
        None, None, None, Some([100, 90, 80]), None, None, None, Some([100, 90, 80]), None, None,
        None, None, Some([100, 90, 80]), Some([100, 90, 80]), None, None, None, Some([100, 90, 80]), Some([100, 90, 80]), None,
    ])
}

/// Pixels of the skeleton, walk 1, row-major.
pub open spec fn skel_walk_1_pixels() -> Seq<Option<Color>> {
    let b_ = Some([220u8, 210, 190]);
    let d_ = Some([160u8, 150, 130]);
    let e_ = Some([100u8, 90, 80]);
    let n_ = None::<Color>;
    let r_ = Some([200u8, 40, 40]);
    seq![
        n_, n_, n_, n_, n_, n_, n_, n_, n_, n_,
        n_, n_, n_, b_, b_, b_, b_, n_, n_, n_,
        n_, n_, b_, b_, b_, b_, b_, b_, n_, n_,
        n_, n_, b_, r_, b_, b_, r_, b_, n_, n_,
        n_, n_, n_, b_, d_, d_, b_, n_, n_, n_,
        n_, n_, d_, b_, b_, b_, b_, d_, n_, n_,
        n_, n_, d_, b_, d_, b_, b_, d_, n_, n_,
        n_, n_, d_, b_, b_, b_, b_, d_, n_, n_,
        n_, n_, n_, b_, b_, b_, b_, n_, n_, n_,
        n_, n_, n_, d_, b_, b_, d_, n_, n_, n_,
        n_, n_, n_, n_, d_, d_, n_, n_, n_, n_,
        n_, n_, n_, n_, d_, d_, n_, n_, n_, n_,
        n_, n_, n_, n_, e_, e_, n_, n_, n_, n_,
        n_, n_, n_, e_, e_, e_, e_, n_, n_, n_,
    ]
}

/// The skeleton, walk 1, 10x14.
pub fn skel_walk_1() -> (s: SpriteData)
    ensures
        s.wf(),
        s.width == 10,
        s.height == 14,
        s.pixels@ == skel_walk_1_pixels(),
{
    SpriteData::new(10, 14, &[
        None, None, None, None, None, None, None, None, None, None,
        None, None, None, Some([220, 210, 190]), Some([220, 210, 190]), Some([220, 210, 190]), Some([220, 210, 190]), None, None, None,
        None, None, Some([220, 210, 190]), Some([220, 210, 190]), Some([220, 210, 190]), Some([220, 210, 190]), Some([220, 210, 190]), Some([220, 210, 190]), None, None,
        None, None, Some([220, 210, 190]), Some([200, 40, 40]), Some([220, 210, 190]), Some([220, 210, 190]), Some([200, 40, 40]), Some([220, 210, 190]), None, None,
        None, None, None, Some([220, 210, 190]), Some([160, 150, 130]), Some([160, 150, 130]), Some([220, 210, 190]), None, None, None,
        None, None, Some([160, 150, 130]), Some([220, 210, 190]), Some([220, 210, 190]), Some([220, 210, 190]), Some([220, 210, 190]), Some([160, 150, 130]), None, None,
        None, None, Some([160, 150, 130]), Some([220, 210, 190]), Some([160, 150, 130]), Some([220, 210, 190]), Some([220, 210, 190]), Some([160, 150, 130]), None, None,
        None, None, Some([160, 150, 130]), Some([220, 210, 190]), Some([220, 210, 190]), Some([220, 210, 190]), Some([220, 210, 190]), Some([160, 150, 130]), None, None,
        None, None, None, Some([220, 210, 190]), Some([220, 210, 190]), Some([220, 210, 190]), Some([220, 210, 190]), None, None, None,
        None, None, None, Some([160, 150, 130]), Some([220, 210, 190]), Some([220, 210, 190]), Some([160, 150, 130]), None, None, None,
        None, None, None, None, Some([160, 150, 130]), Some([160, 150, 130]), None, None, None, None,
        None, None, None, None, Some([160, 150, 130]), Some([160, 150, 130]), None, None, None, None,
        None, None, None, None, Some([100, 90, 80]), Some([100, 90, 80]), None, None, None, None,
        None, None, None, Some([100, 90, 80]), Some([100, 90, 80]), Some([100, 90, 80]), Some([100, 90, 80]), None, None, None,
    ])
}

/// Pixels of the skeleton, windup 0, row-major.
pub open spec fn skel_windup_0_pixels() -> Seq<Option<Color>> {
    let b_ = Some([220u8, 210, 190]);
    let d_ = Some([160u8, 150, 130]);
    let e_ = Some([100u8, 90, 80]);
    let n_ = None::<Color>;
    let r_ = Some([200u8, 40, 40]);
    let w_ = Some([180u8, 180, 190]);
    let x_ = Some([220u8, 220, 230]);
    seq![
        n_, n_, n_, b_, b_, b_, b_, w_, n_, n_,
        n_, n_, b_, b_, b_, b_, b_, b_, x_, n_,
        n_, n_, b_, r_, b_, b_, r_, b_, n_, n_,
        n_, n_, n_, b_, d_, d_, b_, n_, n_, n_,
        n_, n_, d_, b_, b_, b_, b_, d_, n_, n_,
        n_, n_, d_, b_, d_, b_, b_, d_, n_, n_,
        n_, n_, d_, b_, b_, b_, b_, d_, n_, n_,
        n_, n_, n_, b_, b_, b_, b_, n_, n_, n_,
        n_, n_, n_, d_, b_, b_, d_, n_, n_, n_,
        n_, n_, n_, n_, d_, d_, n_, n_, n_, n_,
        n_, n_, n_, n_, d_, n_, d_, n_, n_, n_,
        n_, n_, n_, n_, d_, n_, d_, n_, n_, n_,
        n_, n_, n_, n_, e_, n_, e_, n_, n_, n_,
        n_, n_, n_, e_, e_, n_, e_, e_, n_, n_,
    ]
}

/// The skeleton, windup 0, 10x14.
pub fn skel_windup_0() -> (s: SpriteData)
    ensures
        s.wf(),
        s.width == 10,
        s.height == 14,
        s.pixels@ == skel_windup_0_pixels(),
{
    SpriteData::new(10, 14, &[
        None, None, None, Some([220, 210, 190]), Some([220, 210, 190]), Some([220, 210, 190]), Some([220, 210, 190]), Some([180, 180, 190]), None, None,
        None, None, Some([220, 210, 190]), Some([220, 210, 190]), Some([220, 210, 190]), Some([220, 210, 190]), Some([220, 210, 190]), Some([220, 210, 190]), Some([220, 220, 230]), None,
        None, None, Some([220, 210, 190]), Some([200, 40, 40]), Some([220, 210, 190]), Some([220, 210, 190]), Some([200, 40, 40]), Some([220, 210, 190]), None, None,
        None, None, None, Some([220, 210, 190]), Some([160, 150, 130]), Some([160, 150, 130]), Some([220, 210, 190]), None, None, None,
        None, None, Some([160, 150, 130]), Some([220, 210, 190]), Some([220, 210, 190]), Some([220, 210, 190]), Some([220, 210, 190]), Some([160, 150, 130]), None, None,
        None, None, Some([160, 150, 130]), Some([220, 210, 190]), Some([160, 150, 130]), Some([220, 210, 190]), Some([220, 210, 190]), Some([160, 150, 130]), None, None,
        None, None, Some([160, 150, 130]), Some([220, 210, 190]), Some([220, 210, 190]), Some([220, 210, 190]), Some([220, 210, 190]), Some([160, 150, 130]), None, None,
        None, None, None, Some([220, 210, 190]), Some([220, 210, 190]), Some([220, 210, 190]), Some([220, 210, 190]), None, None, None,
        None, None, None, Some([160, 150, 130]), Some([220, 210, 190]), Some([220, 210, 190]), Some([160, 150, 130]), None, None, None,
        None, None, None, None, Some([160, 150, 130]), Some([160, 150, 130]), None, None, None, None,
        None, None, None, None, Some([160, 150, 130]), None, Some([160, 150, 130]), None, None, None,
        None, None, None, None, Some([160, 150, 130]), None, Some([160, 150, 130]), None, None, None,
        None, None, None, None, Some([100, 90, 80]), None, Some([100, 90, 80]), None, None, None,
        None, None, None, Some([100, 90, 80]), Some([100, 90, 80]), None, Some([100, 90, 80]), Some([100, 90, 80]), None, None,
    ])
}

/// Pixels of the skeleton, windup 1, row-major.
pub open spec fn skel_windup_1_pixels() -> Seq<Option<Color>> {
    let b_ = Some([220u8, 210, 190]);
    let d_ = Some([160u8, 150, 130]);
    let e_ = Some([100u8, 90, 80]);
    let k_ = Some([255u8, 200, 50]);
    let n_ = None::<Color>;
    let r_ = Some([200u8, 40, 40]);
    let w_ = Some([180u8, 180, 190]);
    let x_ = Some([220u8, 220, 230]);
    seq![
        n_, n_, n_, b_, b_, b_, b_, x_, k_, n_,
        n_, n_, b_, b_, b_, b_, b_, b_, w_, n_,
        n_, n_, b_, r_, b_, b_, r_, b_, n_, n_,
        n_, n_, n_, b_, d_, d_, b_, n_, n_, n_,
        n_, n_, d_, b_, b_, b_, b_, d_, n_, n_,
        n_, n_, d_, b_, k_, b_, b_, d_, n_, n_,
        n_, n_, d_, b_, b_, b_, b_, d_, n_, n_,
        n_, n_, n_, b_, b_, b_, b_, n_, n_, n_,
        n_, n_, n_, d_, b_, b_, d_, n_, n_, n_,
        n_, n_, n_, n_, d_, d_, n_, n_, n_, n_,
        n_, n_, n_, n_, d_, n_, d_, n_, n_, n_,
        n_, n_, n_, n_, d_, n_, d_, n_, n_, n_,
        n_, n_, n_, n_, e_, n_, e_, n_, n_, n_,
        n_, n_, n_, e_, e_, n_, e_, e_, n_, n_,
    ]
}

/// The skeleton, windup 1, 10x14.
pub fn skel_windup_1() -> (s: SpriteData)
    ensures
        s.wf(),
        s.width == 10,
        s.height == 14,
        s.pixels@ == skel_windup_1_pixels(),
{
    SpriteData::new(10, 14, &[
        None, None, None, Some([220, 210, 190]), Some([220, 210, 190]), Some([220, 210, 190]), Some([220, 210, 190]), Some([220, 220, 230]), Some([255, 200, 50]), None,
        None, None, Some([220, 210, 190]), Some([220, 210, 190]), Some([220, 210, 190]), Some([220, 210, 190]), Some([220, 210, 190]), Some([220, 210, 190]), Some([180, 180, 190]), None,
        None, None, Some([220, 210, 190]), Some([200, 40, 40]), Some([220, 210, 190]), Some([220, 210, 190]), Some([200, 40, 40]), Some([220, 210, 190]), None, None,
        None, None, None, Some([220, 210, 190]), Some([160, 150, 130]), Some([160, 150, 130]), Some([220, 210, 190]), None, None, None,
        None, None, Some([160, 150, 130]), Some([220, 210, 190]), Some([220, 210, 190]), Some([220, 210, 190]), Some([220, 210, 190]), Some([160, 150, 130]), None, None,
        None, None, Some([160, 150, 130]), Some([220, 210, 190]), Some([255, 200, 50]), Some([220, 210, 190]), Some([220, 210, 190]), Some([160, 150, 130]), None, None,
        None, None, Some([160, 150, 130]), Some([220, 210, 190]), Some([220, 210, 190]), Some([220, 210, 190]), Some([220, 210, 190]), Some([160, 150, 130]), None, None,
        None, None, None, Some([220, 210, 190]), Some([220, 210, 190]), Some([220, 210, 190]), Some([220, 210, 190]), None, None, None,
        None, None, None, Some([160, 150, 130]), Some([220, 210, 190]), Some([220, 210, 190]), Some([160, 150, 130]), None, None, None,
        None, None, None, None, Some([160, 150, 130]), Some([160, 150, 130]), None, None, None, None,
        None, None, None, None, Some([160, 150, 130]), None, Some([160, 150, 130]), None, None, None,
        None, None, None, None, Some([160, 150, 130]), None, Some([160, 150, 130]), None, None, None,
        None, None, None, None, Some([100, 90, 80]), None, Some([100, 90, 80]), None, None, None,
        None, None, None, Some([100, 90, 80]), Some([100, 90, 80]), None, Some([100, 90, 80]), Some([100, 90, 80]), None, None,
    ])
}

/// Pixels of the skeleton, attack 0, row-major.
pub open spec fn skel_attack_0_pixels() -> Seq<Option<Color>> {
    let b_ = Some([220u8, 210, 190]);
    let d_ = Some([160u8, 150, 130]);
    let e_ = Some([100u8, 90, 80]);
    let n_ = None::<Color>;
    let r_ = Some([200u8, 40, 40]);
    let w_ = Some([180u8, 180, 190]);
    let x_ = Some([220u8, 220, 230]);
    seq![
        n_, n_, n_, b_, b_, b_, b_, n_, n_, n_,
        n_, n_, b_, b_, b_, b_, b_, b_, n_, n_,
        n_, n_, b_, r_, b_, b_, r_, b_, n_, n_,
        n_, n_, n_, b_, d_, d_, b_, n_, n_, n_,
        n_, n_, d_, b_, b_, b_, b_, d_, n_, n_,
        n_, n_, d_, b_, d_, b_, b_, d_, n_, n_,
        n_, n_, d_, b_, b_, b_, b_, d_, n_, n_,
        n_, n_, n_, b_, b_, b_, b_, w_, x_, x_,
        n_, n_, n_, d_, b_, b_, d_, n_, n_, n_,
        n_, n_, n_, n_, d_, d_, n_, n_, n_, n_,
        n_, n_, n_, n_, d_, n_, d_, n_, n_, n_,
        n_, n_, n_, n_, d_, n_, d_, n_, n_, n_,
        n_, n_, n_, n_, e_, n_, e_, n_, n_, n_,
        n_, n_, n_, e_, e_, n_, e_, e_, n_, n_,
    ]
}

/// The skeleton, attack 0, 10x14.
pub fn skel_attack_0() -> (s: SpriteData)
    ensures
        s.wf(),
        s.width == 10,
        s.height == 14,
        s.pixels@ == skel_attack_0_pixels(),
{
    SpriteData::new(10, 14, &[
        None, None, None, Some([220, 210, 190]), Some([220, 210, 190]), Some([220, 210, 190]), Some([220, 210, 190]), None, None, None,
        None, None, Some([220, 210, 190]), Some([220, 210, 190]), Some([220, 210, 190]), Some([220, 210, 190]), Some([220, 210, 190]), Some([220, 210, 190]), None, None,
        None, None, Some([220, 210, 190]), Some([200, 40, 40]), Some([220, 210, 190]), Some([220, 210, 190]), Some([200, 40, 40]), Some([220, 210, 190]), None, None,
        None, None, None, Some([220, 210, 190]), Some([160, 150, 130]), Some([160, 150, 130]), Some([220, 210, 190]), None, None, None,
        None, None, Some([160, 150, 130]), Some([220, 210, 190]), Some([220, 210, 190]), Some([220, 210, 190]), Some([220, 210, 190]), Some([160, 150, 130]), None, None,
        None, None, Some([160, 150, 130]), Some([220, 210, 190]), Some([160, 150, 130]), Some([220, 210, 190]), Some([220, 210, 190]), Some([160, 150, 130]), None, None,
        None, None, Some([160, 150, 130]), Some([220, 210, 190]), Some([220, 210, 190]), Some([220, 210, 190]), Some([220, 210, 190]), Some([160, 150, 130]), None, None,
        None, None, None, Some([220, 210, 190]), Some([220, 210, 190]), Some([220, 210, 190]), Some([220, 210, 190]), Some([180, 180, 190]), Some([220, 220, 230]), Some([220, 220, 230]),
        None, None, None, Some([160, 150, 130]), Some([220, 210, 190]), Some([220, 210, 190]), Some([160, 150, 130]), None, None, None,
        None, None, None, None, Some([160, 150, 130]), Some([160, 150, 130]), None, None, None, None,
        None, None, None, None, Some([160, 150, 130]), None, Some([160, 150, 130]), None, None, None,
        None, None, None, None, Some([160, 150, 130]), None, Some([160, 150, 130]), None, None, None,
        None, None, None, None, Some([100, 90, 80]), None, Some([100, 90, 80]), None, None, None,
        None, None, None, Some([100, 90, 80]), Some([100, 90, 80]), None, Some([100, 90, 80]), Some([100, 90, 80]), None, None,
    ])
}

/// Pixels of the skeleton, attack 1, row-major.
pub open spec fn skel_attack_1_pixels() -> Seq<Option<Color>> {
    let b_ = Some([220u8, 210, 190]);
    let d_ = Some([160u8, 150, 130]);
    let e_ = Some([100u8, 90, 80]);
    let n_ = None::<Color>;
    let r_ = Some([200u8, 40, 40]);
    let w_ = Some([180u8, 180, 190]);
    let x_ = Some([220u8, 220, 230]);
    seq![
        n_, n_, n_, b_, b_, b_, b_, n_, n_, n_,
        n_, n_, b_, b_, b_, b_, b_, b_, n_, n_,
        n_, n_, b_, r_, b_, b_, r_, b_, n_, n_,
        n_, n_, n_, b_, d_, d_, b_, n_, n_, n_,
        n_, n_, d_, b_, b_, b_, b_, d_, n_, n_,
        n_, n_, d_, b_, d_, b_, b_, d_, w_, x_,
        n_, n_, d_, b_, b_, b_, b_, d_, n_, n_,
        n_, n_, n_, b_, b_, b_, b_, n_, n_, n_,
        n_, n_, n_, d_, b_, b_, d_, n_, n_, n_,
        n_, n_, n_, n_, d_, d_, n_, n_, n_, n_,
        n_, n_, n_, n_, d_, n_, d_, n_, n_, n_,
        n_, n_, n_, n_, d_, n_, d_, n_, n_, n_,
        n_, n_, n_, n_, e_, n_, e_, n_, n_, n_,
        n_, n_, n_, e_, e_, n_, e_, e_, n_, n_,
    ]
}

/// The skeleton, attack 1, 10x14.
pub fn skel_attack_1() -> (s: SpriteData)
    ensures
        s.wf(),
        s.width == 10,
        s.height == 14,
        s.pixels@ == skel_attack_1_pixels(),
{
    SpriteData::new(10, 14, &[
        None, None, None, Some([220, 210, 190]), Some([220, 210, 190]), Some([220, 210, 190]), Some([220, 210, 190]), None, None, None,
        None, None, Some([220, 210, 190]), Some([220, 210, 190]), Some([220, 210, 190]), Some([220, 210, 190]), Some([220, 210, 190]), Some([220, 210, 190]), None, None,
        None, None, Some([220, 210, 190]), Some([200, 40, 40]), Some([220, 210, 190]), Some([220, 210, 190]), Some([200, 40, 40]), Some([220, 210, 190]), None, None,
        None, None, None, Some([220, 210, 190]), Some([160, 150, 130]), Some([160, 150, 130]), Some([220, 210, 190]), None, None, None,
        None, None, Some([160, 150, 130]), Some([220, 210, 190]), Some([220, 210, 190]), Some([220, 210, 190]), Some([220, 210, 190]), Some([160, 150, 130]), None, None,
        None, None, Some([160, 150, 130]), Some([220, 210, 190]), Some([160, 150, 130]), Some([220, 210, 190]), Some([220, 210, 190]), Some([160, 150, 130]), Some([180, 180, 190]), Some([220, 220, 230]),
        None, None, Some([160, 150, 130]), Some([220, 210, 190]), Some([220, 210, 190]), Some([220, 210, 190]), Some([220, 210, 190]), Some([160, 150, 130]), None, None,
        None, None, None, Some([220, 210, 190]), Some([220, 210, 190]), Some([220, 210, 190]), Some([220, 210, 190]), None, None, None,
        None, None, None, Some([160, 150, 130]), Some([220, 210, 190]), Some([220, 210, 190]), Some([160, 150, 130]), None, None, None,
        None, None, None, None, Some([160, 150, 130]), Some([160, 150, 130]), None, None, None, None,
        None, None, None, None, Some([160, 150, 130]), None, Some([160, 150, 130]), None, None, None,
        None, None, None, None, Some([160, 150, 130]), None, Some([160, 150, 130]), None, None, None,
        None, None, None, None, Some([100, 90, 80]), None, Some([100, 90, 80]), None, None, None,
        None, None, None, Some([100, 90, 80]), Some([100, 90, 80]), None, Some([100, 90, 80]), Some([100, 90, 80]), None, None,
    ])
}

/// Pixels of the skeleton, death 0, row-major.
pub open spec fn skel_death_0_pixels() -> Seq<Option<Color>> {
    let b_ = Some([220u8, 210, 190]);
    let d_ = Some([160u8, 150, 130]);
    let e_ = Some([100u8, 90, 80]);
    let n_ = None::<Color>;
    let r_ = Some([200u8, 40, 40]);
    seq![
        n_, n_, n_, n_, n_, n_, n_, n_, n_, n_,
        n_, n_, n_, n_, b_, b_, b_, b_, n_, n_,
        n_, n_, n_, b_, b_, b_, b_, b_, b_, n_,
        n_, n_, n_, b_, r_, b_, b_, r_, b_, n_,
        n_, n_, n_, n_, b_, d_, d_, b_, n_, n_,
        n_, n_, n_, d_, b_, b_, b_, b_, n_, n_,
        n_, n_, n_, d_, b_, b_, b_, d_, n_, n_,
        n_, n_, n_, n_, b_, b_, b_, n_, n_, n_,
        n_, n_, n_, n_, d_, b_, d_, n_, n_, n_,
        n_, n_, n_, n_, n_, d_, n_, n_, n_, n_,
        n_, n_, n_, n_, d_, n_, d_, n_, n_, n_,
        n_, n_, n_, n_, d_, n_, d_, n_, n_, n_,
        n_, n_, n_, n_, e_, n_, e_, n_, n_, n_,
        n_, n_, n_, e_, e_, n_, e_, e_, n_, n_,
    ]
}

/// The skeleton, death 0, 10x14.
pub fn skel_death_0() -> (s: SpriteData)
    ensures
        s.wf(),
        s.width == 10,
        s.height == 14,
        s.pixels@ == skel_death_0_pixels(),
{
    SpriteData::new(10, 14, &[
        None, None, None, None, None, None, None, None, None, None,
        None, None, None, None, Some([220, 210, 190]), Some([220, 210, 190]), Some([220, 210, 190]), Some([220, 210, 190]), None, None,
        None, None, None, Some([220, 210, 190]), Some([220, 210, 190]), Some([220, 210, 190]), Some([220, 210, 190]), Some([220, 210, 190]), Some([220, 210, 190]), None,
        None, None, None, Some([220, 210, 190]), Some([200, 40, 40]), Some([220, 210, 190]), Some([220, 210, 190]), Some([200, 40, 40]), Some([220, 210, 190]), None,
        None, None, None, None, Some([220, 210, 190]), Some([160, 150, 130]), Some([160, 150, 130]), Some([220, 210, 190]), None, None,
        None, None, None, Some([160, 150, 130]), Some([220, 210, 190]), Some([220, 210, 190]), Some([220, 210, 190]), Some([220, 210, 190]), None, None,
        None, None, None, Some([160, 150, 130]), Some([220, 210, 190]), Some([220, 210, 190]), Some([220, 210, 190]), Some([160, 150, 130]), None, None,
        None, None, None, None, Some([220, 210, 190]), Some([220, 210, 190]), Some([220, 210, 190]), None, None, None,
        None, None, None, None, Some([160, 150, 130]), Some([220, 210, 190]), Some([160, 150, 130]), None, None, None,
        None, None, None, None, None, Some([160, 150, 130]), None, None, None, None,
        None, None, None, None, Some([160, 150, 130]), None, Some([160, 150, 130]), None, None, None,
        None, None, None, None, Some([160, 150, 130]), None, Some([160, 150, 130]), None, None, None,
        None, None, None, None, Some([100, 90, 80]), None, Some([100, 90, 80]), None, None, None,
        None, None, None, Some([100, 90, 80]), Some([100, 90, 80]), None, Some([100, 90, 80]), Some([100, 90, 80]), None, None,
    ])
}

/// Pixels of the skeleton, death 1, row-major.
pub open spec fn skel_death_1_pixels() -> Seq<Option<Color>> {
    let b_ = Some([220u8, 210, 190]);
    let d_ = Some([160u8, 150, 130]);
    let e_ = Some([100u8, 90, 80]);
    let n_ = None::<Color>;
    seq![
        n_, n_, n_, n_, n_, n_, n_, n_, n_, n_,
        n_, n_, n_, n_, n_, n_, n_, n_, n_, n_,
        n_, n_, n_, n_, n_, n_, n_, n_, n_, n_,
        n_, n_, n_, n_, n_, n_, n_, n_, n_, n_,
        n_, n_, n_, n_, n_, n_, n_, n_, n_, n_,
        n_, n_, n_, n_, n_, n_, n_, n_, n_, n_,
        n_, n_, n_, n_, n_, n_, n_, n_, n_, n_,
        n_, n_, n_, n_, n_, n_, n_, n_, n_, n_,
        n_, n_, n_, b_, b_, b_, n_, n_, n_, n_,
        n_, n_, b_, d_, d_, b_, n_, n_, n_, n_,
        n_, n_, d_, b_, b_, b_, d_, n_, n_, n_,
        n_, n_, d_, b_, b_, b_, d_, n_, n_, n_,
        n_, n_, n_, e_, d_, e_, n_, n_, n_, n_,
        n_, n_, n_, e_, e_, e_, n_, n_, n_, n_,
    ]
}

/// The skeleton, death 1, 10x14.
pub fn skel_death_1() -> (s: SpriteData)
    ensures
        s.wf(),
        s.width == 10,
        s.height == 14,
        s.pixels@ == skel_death_1_pixels(),
{
    SpriteData::new(10, 14, &[
        None, None, None, None, None, None, None, None, None, None,
        None, None, None, None, None, None, None, None, None, None,
        None, None, None, None, None, None, None, None, None, None,
        None, None, None, None, None, None, None, None, None, None,
        None, None, None, None, None, None, None, None, None, None,
        None, None, None, None, None, None, None, None, None, None,
        None, None, None, None, None, None, None, None, None, None,
        None, None, None, None, None, None, None, None, None, None,
        None, None, None, Some([220, 210, 190]), Some([220, 210, 190]), Some([220, 210, 190]), None, None, None, None,
        None, None, Some([220, 210, 190]), Some([160, 150, 130]), Some([160, 150, 130]), Some([220, 210, 190]), None, None, None, None,
        None, None, Some([160, 150, 130]), Some([220, 210, 190]), Some([220, 210, 190]), Some([220, 210, 190]), Some([160, 150, 130]), None, None, None,
        None, None, Some([160, 150, 130]), Some([220, 210, 190]), Some([220, 210, 190]), Some([220, 210, 190]), Some([160, 150, 130]), None, None, None,
        None, None, None, Some([100, 90, 80]), Some([160, 150, 130]), Some([100, 90, 80]), None, None, None, None,
        None, None, None, Some([100, 90, 80]), Some([100, 90, 80]), Some([100, 90, 80]), None, None, None, None,
    ])
}

/// Pixels of the skeleton, death 2, row-major.
pub open spec fn skel_death_2_pixels() -> Seq<Option<Color>> {
    let b_ = Some([220u8, 210, 190]);
    let d_ = Some([160u8, 150, 130]);
    let e_ = Some([100u8, 90, 80]);
    let n_ = None::<Color>;
    seq![
        n_, n_, n_, n_, n_, n_, n_, n_, n_, n_,
        n_, n_, n_, n_, n_, n_, n_, n_, n_, n_,
        n_, n_, n_, n_, n_, n_, n_, n_, n_, n_,
        n_, n_, n_, n_, n_, n_, n_, n_, n_, n_,
        n_, n_, n_, n_, n_, n_, n_, n_, n_, n_,
        n_, n_, n_, n_, n_, n_, n_, n_, n_, n_,
        n_, n_, n_, n_, n_, n_, n_, n_, n_, n_,
        n_, n_, n_, n_, n_, n_, n_, n_, n_, n_,
        n_, n_, n_, n_, n_, n_, n_, n_, n_, n_,
        n_, n_, n_, n_, n_, n_, n_, n_, n_, n_,
        n_, n_, b_, n_, b_, d_, n_, b_, n_, n_,
        n_, n_, n_, d_, n_, n_, e_, n_, n_, n_,
        n_, n_, n_, n_, e_, n_, n_, n_, n_, n_,
        n_, n_, n_, n_, n_, n_, n_, n_, n_, n_,
    ]
}

/// The skeleton, death 2, 10x14.
pub fn skel_death_2() -> (s: SpriteData)
    ensures
        s.wf(),
        s.width == 10,
        s.height == 14,
        s.pixels@ == skel_death_2_pixels(),
{
    SpriteData::new(10, 14, &[
        None, None, None, None, None, None, None, None, None, None,
        None, None, None, None, None, None, None, None, None, None,
        None, None, None, None, None, None, None, None, None, None,
        None, None, None, None, None, None, None, None, None, None,
        None, None, None, None, None, None, None, None, None, None,
        None, None, None, None, None, None, None, None, None, None,
        None, None, None, None, None, None, None, None, None, None,
        None, None, None, None, None, None, None, None, None, None,
        None, None, None, None, None, None, None, None, None, None,
        None, None, None, None, None, None, None, None, None, None,
        None, None, Some([220, 210, 190]), None, Some([220, 210, 190]), Some([160, 150, 130]), None, Some([220, 210, 190]), None, None,
        None, None, None, Some([160, 150, 130]), None, None, Some([100, 90, 80]), None, None, None,
        None, None, None, None, Some([100, 90, 80]), None, None, None, None, None,
        None, None, None, None, None, None, None, None, None, None,
    ])
}

} // verus!
