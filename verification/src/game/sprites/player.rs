use vstd::prelude::*;
use crate::engine::color::Color;
use crate::engine::sprite::SpriteData;

verus! {

/// Pixels of the player, idle 0, row-major.
pub open spec fn idle_0_pixels() -> Seq<Option<Color>> {
    let a_ = Some([80u8, 140, 200]);
    let b_ = Some([100u8, 70, 45]);
    let d_ = Some([50u8, 100, 150]);
    let h_ = Some([60u8, 45, 30]);
    let l_ = Some([120u8, 180, 230]);
    let n_ = None::<Color>;
    let s_ = Some([240u8, 185, 140]);
    let w_ = Some([200u8, 200, 210]);
    seq![
        n_, n_, n_, h_, h_, h_, h_, n_, n_, n_,
        n_, n_, h_, h_, h_, h_, h_, h_, n_, n_,
        n_, n_, h_, s_, s_, s_, s_, h_, n_, n_,
        n_, n_, n_, s_, s_, s_, s_, n_, n_, n_,
        n_, n_, a_, a_, a_, a_, a_, a_, n_, n_,
        n_, n_, d_, a_, l_, a_, a_, d_, n_, n_,
        n_, n_, d_, a_, a_, a_, a_, d_, w_, n_,
        n_, n_, n_, a_, a_, a_, a_, n_, w_, n_,
        n_, n_, n_, d_, a_, a_, d_, n_, w_, n_,
        n_, n_, n_, n_, a_, a_, n_, n_, n_, n_,
        n_, n_, n_, n_, a_, n_, a_, n_, n_, n_,
        n_, n_, n_, n_, a_, n_, a_, n_, n_, n_,
        n_, n_, n_, n_, b_, n_, b_, n_, n_, n_,
        n_, n_, n_, b_, b_, n_, b_, b_, n_, n_,
    ]
}

/// The player, idle 0, 10x14.
pub fn idle_0() -> (s: SpriteData)
    ensures
        s.wf(),
        s.width == 10,
        s.height == 14,
        s.pixels@ == idle_0_pixels(),
{
    SpriteData::new(10, 14, &[
        None, None, None, Some([60, 45, 30]), Some([60, 45, 30]), Some([60, 45, 30]), Some([60, 45, 30]), None, None, None,
        None, None, Some([60, 45, 30]), Some([60, 45, 30]), Some([60, 45, 30]), Some([60, 45, 30]), Some([60, 45, 30]), Some([60, 45, 30]), None, None,
        None, None, Some([60, 45, 30]), Some([240, 185, 140]), Some([240, 185, 140]), Some([240, 185, 140]), Some([240, 185, 140]), Some([60, 45, 30]), None, None,
        None, None, None, Some([240, 185, 140]), Some([240, 185, 140]), Some([240, 185, 140]), Some([240, 185, 140]), None, None, None,
        None, None, Some([80, 140, 200]), Some([80, 140, 200]), Some([80, 140, 200]), Some([80, 140, 200]), Some([80, 140, 200]), Some([80, 140, 200]), None, None,
        None, None, Some([50, 100, 150]), Some([80, 140, 200]), Some([120, 180, 230]), Some([80, 140, 200]), Some([80, 140, 200]), Some([50, 100, 150]), None, None,
        None, None, Some([50, 100, 150]), Some([80, 140, 200]), Some([80, 140, 200]), Some([80, 140, 200]), Some([80, 140, 200]), Some([50, 100, 150]), Some([200, 200, 210]), None,
        None, None, None, Some([80, 140, 200]), Some([80, 140, 200]), Some([80, 140, 200]), Some([80, 140, 200]), None, Some([200, 200, 210]), None,
        None, None, None, Some([50, 100, 150]), Some([80, 140, 200]), Some([80, 140, 200]), Some([50, 100, 150]), None, Some([200, 200, 210]), None,
        None, None, None, None, Some([80, 140, 200]), Some([80, 140, 200]), None, None, None, None,
        None, None, None, None, Some([80, 140, 200]), None, Some([80, 140, 200]), None, None, None,
        None, None, None, None, Some([80, 140, 200]), None, Some([80, 140, 200]), None, None, None,
        None, None, None, None, Some([100, 70, 45]), None, Some([100, 70, 45]), None, None, None,
        None, None, None, Some([100, 70, 45]), Some([100, 70, 45]), None, Some([100, 70, 45]), Some([100, 70, 45]), None, None,
    ])
}

/// Pixels of the player, idle 1, row-major.
pub open spec fn idle_1_pixels() -> Seq<Option<Color>> {
    let a_ = Some([80u8, 140, 200]);
    let b_ = Some([100u8, 70, 45]);
    let d_ = Some([50u8, 100, 150]);
    let h_ = Some([60u8, 45, 30]);
    let l_ = Some([120u8, 180, 230]);
    let n_ = None::<Color>;
    let s_ = Some([240u8, 185, 140]);
    let w_ = Some([200u8, 200, 210]);
    seq![
        n_, n_, h_, h_, h_, h_, h_, h_, n_, n_,
        n_, n_, h_, s_, s_, s_, s_, h_, n_, n_,
        n_, n_, n_, s_, s_, s_, s_, n_, n_, n_,
        n_, n_, a_, a_, a_, a_, a_, a_, n_, n_,
        n_, n_, d_, a_, l_, a_, a_, d_, n_, n_,
        n_, n_, d_, a_, a_, a_, a_, d_, n_, n_,
        n_, n_, n_, a_, a_, a_, a_, n_, w_, n_,
        n_, n_, n_, d_, a_, a_, d_, n_, w_, n_,
        n_, n_, n_, n_, a_, a_, n_, n_, w_, n_,
        n_, n_, n_, n_, a_, n_, a_, n_, n_, n_,
        n_, n_, n_, n_, a_, n_, a_, n_, n_, n_,
        n_, n_, n_, n_, b_, n_, b_, n_, n_, n_,
        n_, n_, n_, b_, b_, n_, b_, b_, n_, n_,
        n_, n_, n_, n_, n_, n_, n_, n_, n_, n_,
    ]
}

/// The player, idle 1, 10x14.
pub fn idle_1() -> (s: SpriteData)
    ensures
        s.wf(),
        s.width == 10,
        s.height == 14,
        s.pixels@ == idle_1_pixels(),
{
    SpriteData::new(10, 14, &[
        None, None, Some([60, 45, 30]), Some([60, 45, 30]), Some([60, 45, 30]), Some([60, 45, 30]), Some([60, 45, 30]), Some([60, 45, 30]), None, None,
        None, None, Some([60, 45, 30]), Some([240, 185, 140]), Some([240, 185, 140]), Some([240, 185, 140]), Some([240, 185, 140]), Some([60, 45, 30]), None, None,
        None, None, None, Some([240, 185, 140]), Some([240, 185, 140]), Some([240, 185, 140]), Some([240, 185, 140]), None, None, None,
        None, None, Some([80, 140, 200]), Some([80, 140, 200]), Some([80, 140, 200]), Some([80, 140, 200]), Some([80, 140, 200]), Some([80, 140, 200]), None, None,
        None, None, Some([50, 100, 150]), Some([80, 140, 200]), Some([120, 180, 230]), Some([80, 140, 200]), Some([80, 140, 200]), Some([50, 100, 150]), None, None,
        None, None, Some([50, 100, 150]), Some([80, 140, 200]), Some([80, 140, 200]), Some([80, 140, 200]), Some([80, 140, 200]), Some([50, 100, 150]), None, None,
        None, None, None, Some([80, 140, 200]), Some([80, 140, 200]), Some([80, 140, 200]), Some([80, 140, 200]), None, Some([200, 200, 210]), None,
        None, None, None, Some([50, 100, 150]), Some([80, 140, 200]), Some([80, 140, 200]), Some([50, 100, 150]), None, Some([200, 200, 210]), None,
        None, None, None, None, Some([80, 140, 200]), Some([80, 140, 200]), None, None, Some([200, 200, 210]), None,
        None, None, None, None, Some([80, 140, 200]), None, Some([80, 140, 200]), None, None, None,
        None, None, None, None, Some([80, 140, 200]), None, Some([80, 140, 200]), None, None, None,
        None, None, None, None, Some([100, 70, 45]), None, Some([100, 70, 45]), None, None, None,
        None, None, None, Some([100, 70, 45]), Some([100, 70, 45]), None, Some([100, 70, 45]), Some([100, 70, 45]), None, None,
        None, None, None, None, None, None, None, None, None, None,
    ])
}

/// Pixels of the player, walk 0, row-major.
pub open spec fn walk_0_pixels() -> Seq<Option<Color>> {
    let a_ = Some([80u8, 140, 200]);
    let b_ = Some([100u8, 70, 45]);
    let d_ = Some([50u8, 100, 150]);
    let h_ = Some([60u8, 45, 30]);
    let l_ = Some([120u8, 180, 230]);
    let n_ = None::<Color>;
    let s_ = Some([240u8, 185, 140]);
    seq![
        n_, n_, n_, h_, h_, h_, h_, n_, n_, n_,
        n_, n_, h_, h_, h_, h_, h_, h_, n_, n_,
        n_, n_, h_, s_, s_, s_, s_, h_, n_, n_,
        n_, n_, n_, s_, s_, s_, s_, n_, n_, n_,
        n_, n_, a_, a_, a_, a_, a_, a_, n_, n_,
        n_, n_, d_, a_, l_, a_, a_, d_, n_, n_,
        n_, n_, d_, a_, a_, a_, a_, d_, n_, n_,
        n_, n_, n_, a_, a_, a_, a_, n_, n_, n_,
        n_, n_, n_, d_, a_, a_, d_, n_, n_, n_,
        n_, n_, n_, n_, a_, a_, n_, n_, n_, n_,
        n_, n_, n_, a_, n_, n_, n_, a_, n_, n_,
        n_, n_, n_, a_, n_, n_, n_, a_, n_, n_,
        n_, n_, n_, b_, n_, n_, n_, b_, n_, n_,
        n_, n_, b_, b_, n_, n_, n_, b_, b_, n_,
    ]
}

/// The player, walk 0, 10x14.
pub fn walk_0() -> (s: SpriteData)
    ensures
        s.wf(),
        s.width == 10,
        s.height == 14,
        s.pixels@ == walk_0_pixels(),
{
    SpriteData::new(10, 14, &[
        None, None, None, Some([60, 45, 30]), Some([60, 45, 30]), Some([60, 45, 30]), Some([60, 45, 30]), None, None, None,
        None, None, Some([60, 45, 30]), Some([60, 45, 30]), Some([60, 45, 30]), Some([60, 45, 30]), Some([60, 45, 30]), Some([60, 45, 30]), None, None,
        None, None, Some([60, 45, 30]), Some([240, 185, 140]), Some([240, 185, 140]), Some([240, 185, 140]), Some([240, 185, 140]), Some([60, 45, 30]), None, None,
        None, None, None, Some([240, 185, 140]), Some([240, 185, 140]), Some([240, 185, 140]), Some([240, 185, 140]), None, None, None,
        None, None, Some([80, 140, 200]), Some([80, 140, 200]), Some([80, 140, 200]), Some([80, 140, 200]), Some([80, 140, 200]), Some([80, 140, 200]), None, None,
        None, None, Some([50, 100, 150]), Some([80, 140, 200]), Some([120, 180, 230]), Some([80, 140, 200]), Some([80, 140, 200]), Some([50, 100, 150]), None, None,
        None, None, Some([50, 100, 150]), Some([80, 140, 200]), Some([80, 140, 200]), Some([80, 140, 200]), Some([80, 140, 200]), Some([50, 100, 150]), None, None,
        None, None, None, Some([80, 140, 200]), Some([80, 140, 200]), Some([80, 140, 200]), Some([80, 140, 200]), None, None, None,
        None, None, None, Some([50, 100, 150]), Some([80, 140, 200]), Some([80, 140, 200]), Some([50, 100, 150]), None, None, None,
        None, None, None, None, Some([80, 140, 200]), Some([80, 140, 200]), None, None, None, None,
        None, None, None, Some([80, 140, 200]), None, None, None, Some([80, 140, 200]), None, None,
        None, None, None, Some([80, 140, 200]), None, None, None, Some([80, 140, 200]), None, None,
        None, None, None, Some([100, 70, 45]), None, None, None, Some([100, 70, 45]), None, None,
        None, None, Some([100, 70, 45]), Some([100, 70, 45]), None, None, None, Some([100, 70, 45]), Some([100, 70, 45]), None,
    ])
}

/// Pixels of the player, walk 1, row-major.
pub open spec fn walk_1_pixels() -> Seq<Option<Color>> {
    let a_ = Some([80u8, 140, 200]);
    let b_ = Some([100u8, 70, 45]);
    let d_ = Some([50u8, 100, 150]);
    let h_ = Some([60u8, 45, 30]);
    let l_ = Some([120u8, 180, 230]);
    let n_ = None::<Color>;
    let s_ = Some([240u8, 185, 140]);
    seq![
        n_, n_, n_, n_, n_, n_, n_, n_, n_, n_,
        n_, n_, n_, h_, h_, h_, h_, n_, n_, n_,
        n_, n_, h_, h_, h_, h_, h_, h_, n_, n_,
        n_, n_, h_, s_, s_, s_, s_, h_, n_, n_,
        n_, n_, n_, s_, s_, s_, s_, n_, n_, n_,
        n_, n_, a_, a_, a_, a_, a_, a_, n_, n_,
        n_, n_, d_, a_, l_, a_, a_, d_, n_, n_,
        n_, n_, d_, a_, a_, a_, a_, d_, n_, n_,
        n_, n_, n_, a_, a_, a_, a_, n_, n_, n_,
        n_, n_, n_, d_, a_, a_, d_, n_, n_, n_,
        n_, n_, n_, n_, a_, a_, n_, n_, n_, n_,
        n_, n_, n_, n_, a_, a_, n_, n_, n_, n_,
        n_, n_, n_, n_, b_, b_, n_, n_, n_, n_,
        n_, n_, n_, b_, b_, b_, b_, n_, n_, n_,
    ]
}

/// The player, walk 1, 10x14.
pub fn walk_1() -> (s: SpriteData)
    ensures
        s.wf(),
        s.width == 10,
        s.height == 14,
        s.pixels@ == walk_1_pixels(),
{
    SpriteData::new(10, 14, &[
        None, None, None, None, None, None, None, None, None, None,
        None, None, None, Some([60, 45, 30]), Some([60, 45, 30]), Some([60, 45, 30]), Some([60, 45, 30]), None, None, None,
        None, None, Some([60, 45, 30]), Some([60, 45, 30]), Some([60, 45, 30]), Some([60, 45, 30]), Some([60, 45, 30]), Some([60, 45, 30]), None, None,
        None, None, Some([60, 45, 30]), Some([240, 185, 140]), Some([240, 185, 140]), Some([240, 185, 140]), Some([240, 185, 140]), Some([60, 45, 30]), None, None,
        None, None, None, Some([240, 185, 140]), Some([240, 185, 140]), Some([240, 185, 140]), Some([240, 185, 140]), None, None, None,
        None, None, Some([80, 140, 200]), Some([80, 140, 200]), Some([80, 140, 200]), Some([80, 140, 200]), Some([80, 140, 200]), Some([80, 140, 200]), None, None,
        None, None, Some([50, 100, 150]), Some([80, 140, 200]), Some([120, 180, 230]), Some([80, 140, 200]), Some([80, 140, 200]), Some([50, 100, 150]), None, None,
        None, None, Some([50, 100, 150]), Some([80, 140, 200]), Some([80, 140, 200]), Some([80, 140, 200]), Some([80, 140, 200]), Some([50, 100, 150]), None, None,
        None, None, None, Some([80, 140, 200]), Some([80, 140, 200]), Some([80, 140, 200]), Some([80, 140, 200]), None, None, None,
        None, None, None, Some([50, 100, 150]), Some([80, 140, 200]), Some([80, 140, 200]), Some([50, 100, 150]), None, None, None,
        None, None, None, None, Some([80, 140, 200]), Some([80, 140, 200]), None, None, None, None,
        None, None, None, None, Some([80, 140, 200]), Some([80, 140, 200]), None, None, None, None,
        None, None, None, None, Some([100, 70, 45]), Some([100, 70, 45]), None, None, None, None,
        None, None, None, Some([100, 70, 45]), Some([100, 70, 45]), Some([100, 70, 45]), Some([100, 70, 45]), None, None, None,
    ])
}

/// Pixels of the player, walk 2, row-major.
pub open spec fn walk_2_pixels() -> Seq<Option<Color>> {
    let a_ = Some([80u8, 140, 200]);
    let b_ = Some([100u8, 70, 45]);
    let d_ = Some([50u8, 100, 150]);
    let h_ = Some([60u8, 45, 30]);
    let l_ = Some([120u8, 180, 230]);
    let n_ = None::<Color>;
    let s_ = Some([240u8, 185, 140]);
    seq![
        n_, n_, n_, h_, h_, h_, h_, n_, n_, n_,
        n_, n_, h_, h_, h_, h_, h_, h_, n_, n_,
        n_, n_, h_, s_, s_, s_, s_, h_, n_, n_,
        n_, n_, n_, s_, s_, s_, s_, n_, n_, n_,
        n_, n_, a_, a_, a_, a_, a_, a_, n_, n_,
        n_, n_, d_, a_, l_, a_, a_, d_, n_, n_,
        n_, n_, d_, a_, a_, a_, a_, d_, n_, n_,
        n_, n_, n_, a_, a_, a_, a_, n_, n_, n_,
        n_, n_, n_, d_, a_, a_, d_, n_, n_, n_,
        n_, n_, n_, n_, a_, a_, n_, n_, n_, n_,
        n_, n_, a_, n_, n_, n_, a_, n_, n_, n_,
        n_, n_, a_, n_, n_, n_, a_, n_, n_, n_,
        n_, n_, b_, n_, n_, n_, b_, n_, n_, n_,
        n_, b_, b_, n_, n_, n_, b_, b_, n_, n_,
    ]
}

/// The player, walk 2, 10x14.
pub fn walk_2() -> (s: SpriteData)
    ensures
        s.wf(),
        s.width == 10,
        s.height == 14,
        s.pixels@ == walk_2_pixels(),
{
    SpriteData::new(10, 14, &[
        None, None, None, Some([60, 45, 30]), Some([60, 45, 30]), Some([60, 45, 30]), Some([60, 45, 30]), None, None, None,
        None, None, Some([60, 45, 30]), Some([60, 45, 30]), Some([60, 45, 30]), Some([60, 45, 30]), Some([60, 45, 30]), Some([60, 45, 30]), None, None,
        None, None, Some([60, 45, 30]), Some([240, 185, 140]), Some([240, 185, 140]), Some([240, 185, 140]), Some([240, 185, 140]), Some([60, 45, 30]), None, None,
        None, None, None, Some([240, 185, 140]), Some([240, 185, 140]), Some([240, 185, 140]), Some([240, 185, 140]), None, None, None,
        None, None, Some([80, 140, 200]), Some([80, 140, 200]), Some([80, 140, 200]), Some([80, 140, 200]), Some([80, 140, 200]), Some([80, 140, 200]), None, None,
        None, None, Some([50, 100, 150]), Some([80, 140, 200]), Some([120, 180, 230]), Some([80, 140, 200]), Some([80, 140, 200]), Some([50, 100, 150]), None, None,
        None, None, Some([50, 100, 150]), Some([80, 140, 200]), Some([80, 140, 200]), Some([80, 140, 200]), Some([80, 140, 200]), Some([50, 100, 150]), None, None,
        None, None, None, Some([80, 140, 200]), Some([80, 140, 200]), Some([80, 140, 200]), Some([80, 140, 200]), None, None, None,
        None, None, None, Some([50, 100, 150]), Some([80, 140, 200]), Some([80, 140, 200]), Some([50, 100, 150]), None, None, None,
        None, None, None, None, Some([80, 140, 200]), Some([80, 140, 200]), None, None, None, None,
        None, None, Some([80, 140, 200]), None, None, None, Some([80, 140, 200]), None, None, None,
        None, None, Some([80, 140, 200]), None, None, None, Some([80, 140, 200]), None, None, None,
        None, None, Some([100, 70, 45]), None, None, None, Some([100, 70, 45]), None, None, None,
        None, Some([100, 70, 45]), Some([100, 70, 45]), None, None, None, Some([100, 70, 45]), Some([100, 70, 45]), None, None,
    ])
}

/// Pixels of the player, dash 0, row-major.
pub open spec fn dash_0_pixels() -> Seq<Option<Color>> {
    let a_ = Some([80u8, 140, 200]);
    let b_ = Some([100u8, 70, 45]);
    let d_ = Some([50u8, 100, 150]);
    let h_ = Some([60u8, 45, 30]);
    let l_ = Some([120u8, 180, 230]);
    let n_ = None::<Color>;
    let s_ = Some([240u8, 185, 140]);
    seq![
        n_, n_, n_, n_, n_, n_, n_, n_, n_, n_,
        n_, n_, n_, n_, n_, n_, n_, n_, n_, n_,
        n_, n_, n_, h_, h_, h_, h_, n_, n_, n_,
        n_, n_, h_, h_, h_, h_, h_, h_, n_, n_,
        n_, n_, h_, s_, s_, s_, s_, h_, n_, n_,
        n_, n_, n_, s_, s_, s_, s_, n_, n_, n_,
        n_, n_, a_, a_, a_, a_, a_, a_, n_, n_,
        n_, n_, d_, a_, l_, a_, a_, d_, n_, n_,
        n_, n_, d_, a_, a_, a_, a_, d_, n_, n_,
        n_, n_, n_, a_, a_, a_, a_, n_, n_, n_,
        n_, n_, n_, d_, a_, a_, d_, n_, n_, n_,
        n_, n_, n_, a_, n_, n_, a_, n_, n_, n_,
        n_, n_, n_, b_, n_, n_, b_, n_, n_, n_,
        n_, n_, b_, b_, n_, n_, b_, b_, n_, n_,
    ]
}

/// The player, dash 0, 10x14.
pub fn dash_0() -> (s: SpriteData)
    ensures
        s.wf(),
        s.width == 10,
        s.height == 14,
        s.pixels@ == dash_0_pixels(),
{
    SpriteData::new(10, 14, &[
        None, None, None, None, None, None, None, None, None, None,
        None, None, None, None, None, None, None, None, None, None,
        None, None, None, Some([60, 45, 30]), Some([60, 45, 30]), Some([60, 45, 30]), Some([60, 45, 30]), None, None, None,
        None, None, Some([60, 45, 30]), Some([60, 45, 30]), Some([60, 45, 30]), Some([60, 45, 30]), Some([60, 45, 30]), Some([60, 45, 30]), None, None,
        None, None, Some([60, 45, 30]), Some([240, 185, 140]), Some([240, 185, 140]), Some([240, 185, 140]), Some([240, 185, 140]), Some([60, 45, 30]), None, None,
        None, None, None, Some([240, 185, 140]), Some([240, 185, 140]), Some([240, 185, 140]), Some([240, 185, 140]), None, None, None,
        None, None, Some([80, 140, 200]), Some([80, 140, 200]), Some([80, 140, 200]), Some([80, 140, 200]), Some([80, 140, 200]), Some([80, 140, 200]), None, None,
        None, None, Some([50, 100, 150]), Some([80, 140, 200]), Some([120, 180, 230]), Some([80, 140, 200]), Some([80, 140, 200]), Some([50, 100, 150]), None, None,
        None, None, Some([50, 100, 150]), Some([80, 140, 200]), Some([80, 140, 200]), Some([80, 140, 200]), Some([80, 140, 200]), Some([50, 100, 150]), None, None,
        None, None, None, Some([80, 140, 200]), Some([80, 140, 200]), Some([80, 140, 200]), Some([80, 140, 200]), None, None, None,
        None, None, None, Some([50, 100, 150]), Some([80, 140, 200]), Some([80, 140, 200]), Some([50, 100, 150]), None, None, None,
        None, None, None, Some([80, 140, 200]), None, None, Some([80, 140, 200]), None, None, None,
        None, None, None, Some([100, 70, 45]), None, None, Some([100, 70, 45]), None, None, None,
        None, None, Some([100, 70, 45]), Some([100, 70, 45]), None, None, Some([100, 70, 45]), Some([100, 70, 45]), None, None,
    ])
}

/// Pixels of the player, dash 1, row-major.
pub open spec fn dash_1_pixels() -> Seq<Option<Color>> {
    let a_ = Some([80u8, 140, 200]);
    let b_ = Some([100u8, 70, 45]);
    let d_ = Some([50u8, 100, 150]);
    let h_ = Some([60u8, 45, 30]);
    let l_ = Some([120u8, 180, 230]);
    let n_ = None::<Color>;
    let s_ = Some([240u8, 185, 140]);
    seq![
        n_, n_, n_, n_, n_, n_, n_, n_, n_, n_,
        n_, n_, n_, n_, n_, n_, n_, n_, n_, n_,
        n_, n_, n_, n_, n_, n_, n_, n_, n_, n_,
        n_, n_, n_, n_, h_, h_, h_, h_, n_, n_,
        n_, n_, n_, h_, h_, h_, h_, h_, h_, n_,
        n_, n_, n_, h_, s_, s_, s_, s_, h_, n_,
        n_, n_, n_, n_, s_, s_, s_, s_, n_, n_,
        n_, n_, n_, a_, a_, a_, a_, a_, a_, n_,
        n_, n_, n_, d_, a_, l_, a_, a_, d_, n_,
        n_, n_, n_, d_, a_, a_, a_, a_, d_, n_,
        n_, n_, n_, n_, a_, a_, a_, n_, n_, n_,
        n_, n_, n_, a_, n_, n_, n_, a_, n_, n_,
        n_, n_, n_, b_, n_, n_, n_, b_, n_, n_,
        n_, n_, b_, b_, n_, n_, n_, b_, b_, n_,
    ]
}

/// The player, dash 1, 10x14.
pub fn dash_1() -> (s: SpriteData)
    ensures
        s.wf(),
        s.width == 10,
        s.height == 14,
        s.pixels@ == dash_1_pixels(),
{
    SpriteData::new(10, 14, &[
        None, None, None, None, None, None, None, None, None, None,
        None, None, None, None, None, None, None, None, None, None,
        None, None, None, None, None, None, None, None, None, None,
        None, None, None, None, Some([60, 45, 30]), Some([60, 45, 30]), Some([60, 45, 30]), Some([60, 45, 30]), None, None,
        None, None, None, Some([60, 45, 30]), Some([60, 45, 30]), Some([60, 45, 30]), Some([60, 45, 30]), Some([60, 45, 30]), Some([60, 45, 30]), None,
        None, None, None, Some([60, 45, 30]), Some([240, 185, 140]), Some([240, 185, 140]), Some([240, 185, 140]), Some([240, 185, 140]), Some([60, 45, 30]), None,
        None, None, None, None, Some([240, 185, 140]), Some([240, 185, 140]), Some([240, 185, 140]), Some([240, 185, 140]), None, None,
        None, None, None, Some([80, 140, 200]), Some([80, 140, 200]), Some([80, 140, 200]), Some([80, 140, 200]), Some([80, 140, 200]), Some([80, 140, 200]), None,
        None, None, None, Some([50, 100, 150]), Some([80, 140, 200]), Some([120, 180, 230]), Some([80, 140, 200]), Some([80, 140, 200]), Some([50, 100, 150]), None,
        None, None, None, Some([50, 100, 150]), Some([80, 140, 200]), Some([80, 140, 200]), Some([80, 140, 200]), Some([80, 140, 200]), Some([50, 100, 150]), None,
        None, None, None, None, Some([80, 140, 200]), Some([80, 140, 200]), Some([80, 140, 200]), None, None, None,
        None, None, None, Some([80, 140, 200]), None, None, None, Some([80, 140, 200]), None, None,
        None, None, None, Some([100, 70, 45]), None, None, None, Some([100, 70, 45]), None, None,
        None, None, Some([100, 70, 45]), Some([100, 70, 45]), None, None, None, Some([100, 70, 45]), Some([100, 70, 45]), None,
    ])
}

/// Pixels of the player, attack 0, row-major.
pub open spec fn attack_0_pixels() -> Seq<Option<Color>> {
    let a_ = Some([80u8, 140, 200]);
    let b_ = Some([100u8, 70, 45]);
    let d_ = Some([50u8, 100, 150]);
    let h_ = Some([60u8, 45, 30]);
    let l_ = Some([120u8, 180, 230]);
    let n_ = None::<Color>;
    let s_ = Some([240u8, 185, 140]);
    let w_ = Some([200u8, 200, 210]);
    seq![
        n_, n_, n_, h_, h_, h_, h_, w_, n_, n_,
        n_, n_, h_, h_, h_, h_, h_, h_, w_, n_,
        n_, n_, h_, s_, s_, s_, s_, h_, n_, n_,
        n_, n_, n_, s_, s_, s_, s_, n_, n_, n_,
        n_, n_, a_, a_, a_, a_, a_, a_, n_, n_,
        n_, n_, d_, a_, l_, a_, a_, d_, n_, n_,
        n_, n_, d_, a_, a_, a_, a_, d_, n_, n_,
        n_, n_, n_, a_, a_, a_, a_, n_, n_, n_,
        n_, n_, n_, d_, a_, a_, d_, n_, n_, n_,
        n_, n_, n_, n_, a_, a_, n_, n_, n_, n_,
        n_, n_, n_, n_, a_, n_, a_, n_, n_, n_,
        n_, n_, n_, n_, a_, n_, a_, n_, n_, n_,
        n_, n_, n_, n_, b_, n_, b_, n_, n_, n_,
        n_, n_, n_, b_, b_, n_, b_, b_, n_, n_,
    ]
}

/// The player, attack 0, 10x14.
pub fn attack_0() -> (s: SpriteData)
    ensures
        s.wf(),
        s.width == 10,
        s.height == 14,
        s.pixels@ == attack_0_pixels(),
{
    SpriteData::new(10, 14, &[
        None, None, None, Some([60, 45, 30]), Some([60, 45, 30]), Some([60, 45, 30]), Some([60, 45, 30]), Some([200, 200, 210]), None, None,
        None, None, Some([60, 45, 30]), Some([60, 45, 30]), Some([60, 45, 30]), Some([60, 45, 30]), Some([60, 45, 30]), Some([60, 45, 30]), Some([200, 200, 210]), None,
        None, None, Some([60, 45, 30]), Some([240, 185, 140]), Some([240, 185, 140]), Some([240, 185, 140]), Some([240, 185, 140]), Some([60, 45, 30]), None, None,
        None, None, None, Some([240, 185, 140]), Some([240, 185, 140]), Some([240, 185, 140]), Some([240, 185, 140]), None, None, None,
        None, None, Some([80, 140, 200]), Some([80, 140, 200]), Some([80, 140, 200]), Some([80, 140, 200]), Some([80, 140, 200]), Some([80, 140, 200]), None, None,
        None, None, Some([50, 100, 150]), Some([80, 140, 200]), Some([120, 180, 230]), Some([80, 140, 200]), Some([80, 140, 200]), Some([50, 100, 150]), None, None,
        None, None, Some([50, 100, 150]), Some([80, 140, 200]), Some([80, 140, 200]), Some([80, 140, 200]), Some([80, 140, 200]), Some([50, 100, 150]), None, None,
        None, None, None, Some([80, 140, 200]), Some([80, 140, 200]), Some([80, 140, 200]), Some([80, 140, 200]), None, None, None,
        None, None, None, Some([50, 100, 150]), Some([80, 140, 200]), Some([80, 140, 200]), Some([50, 100, 150]), None, None, None,
        None, None, None, None, Some([80, 140, 200]), Some([80, 140, 200]), None, None, None, None,
        None, None, None, None, Some([80, 140, 200]), None, Some([80, 140, 200]), None, None, None,
        None, None, None, None, Some([80, 140, 200]), None, Some([80, 140, 200]), None, None, None,
        None, None, None, None, Some([100, 70, 45]), None, Some([100, 70, 45]), None, None, None,
        None, None, None, Some([100, 70, 45]), Some([100, 70, 45]), None, Some([100, 70, 45]), Some([100, 70, 45]), None, None,
    ])
}

/// Pixels of the player, attack 1, row-major.
pub open spec fn attack_1_pixels() -> Seq<Option<Color>> {
    let a_ = Some([80u8, 140, 200]);
    let b_ = Some([100u8, 70, 45]);
    let d_ = Some([50u8, 100, 150]);
    let h_ = Some([60u8, 45, 30]);
    let l_ = Some([120u8, 180, 230]);
    let n_ = None::<Color>;
    let s_ = Some([240u8, 185, 140]);
    let w_ = Some([200u8, 200, 210]);
    let x_ = Some([240u8, 240, 255]);
    seq![
        n_, n_, n_, h_, h_, h_, h_, n_, n_, n_,
        n_, n_, h_, h_, h_, h_, h_, h_, n_, n_,
        n_, n_, h_, s_, s_, s_, s_, h_, n_, n_,
        n_, n_, n_, s_, s_, s_, s_, n_, n_, n_,
        n_, n_, a_, a_, a_, a_, a_, a_, n_, n_,
        n_, n_, d_, a_, l_, a_, a_, d_, w_, x_,
        n_, n_, d_, a_, a_, a_, a_, d_, n_, n_,
        n_, n_, n_, a_, a_, a_, a_, n_, n_, n_,
        n_, n_, n_, d_, a_, a_, d_, n_, n_, n_,
        n_, n_, n_, n_, a_, a_, n_, n_, n_, n_,
        n_, n_, n_, n_, a_, n_, a_, n_, n_, n_,
        n_, n_, n_, n_, a_, n_, a_, n_, n_, n_,
        n_, n_, n_, n_, b_, n_, b_, n_, n_, n_,
        n_, n_, n_, b_, b_, n_, b_, b_, n_, n_,
    ]
}

/// The player, attack 1, 10x14.
pub fn attack_1() -> (s: SpriteData)
    ensures
        s.wf(),
        s.width == 10,
        s.height == 14,
        s.pixels@ == attack_1_pixels(),
{
    SpriteData::new(10, 14, &[
        None, None, None, Some([60, 45, 30]), Some([60, 45, 30]), Some([60, 45, 30]), Some([60, 45, 30]), None, None, None,
        None, None, Some([60, 45, 30]), Some([60, 45, 30]), Some([60, 45, 30]), Some([60, 45, 30]), Some([60, 45, 30]), Some([60, 45, 30]), None, None,
        None, None, Some([60, 45, 30]), Some([240, 185, 140]), Some([240, 185, 140]), Some([240, 185, 140]), Some([240, 185, 140]), Some([60, 45, 30]), None, None,
        None, None, None, Some([240, 185, 140]), Some([240, 185, 140]), Some([240, 185, 140]), Some([240, 185, 140]), None, None, None,
        None, None, Some([80, 140, 200]), Some([80, 140, 200]), Some([80, 140, 200]), Some([80, 140, 200]), Some([80, 140, 200]), Some([80, 140, 200]), None, None,
        None, None, Some([50, 100, 150]), Some([80, 140, 200]), Some([120, 180, 230]), Some([80, 140, 200]), Some([80, 140, 200]), Some([50, 100, 150]), Some([200, 200, 210]), Some([240, 240, 255]),
        None, None, Some([50, 100, 150]), Some([80, 140, 200]), Some([80, 140, 200]), Some([80, 140, 200]), Some([80, 140, 200]), Some([50, 100, 150]), None, None,
        None, None, None, Some([80, 140, 200]), Some([80, 140, 200]), Some([80, 140, 200]), Some([80, 140, 200]), None, None, None,
        None, None, None, Some([50, 100, 150]), Some([80, 140, 200]), Some([80, 140, 200]), Some([50, 100, 150]), None, None, None,
        None, None, None, None, Some([80, 140, 200]), Some([80, 140, 200]), None, None, None, None,
        None, None, None, None, Some([80, 140, 200]), None, Some([80, 140, 200]), None, None, None,
        None, None, None, None, Some([80, 140, 200]), None, Some([80, 140, 200]), None, None, None,
        None, None, None, None, Some([100, 70, 45]), None, Some([100, 70, 45]), None, None, None,
        None, None, None, Some([100, 70, 45]), Some([100, 70, 45]), None, Some([100, 70, 45]), Some([100, 70, 45]), None, None,
    ])
}

/// Pixels of the player, attack 2, row-major.
pub open spec fn attack_2_pixels() -> Seq<Option<Color>> {
    let a_ = Some([80u8, 140, 200]);
    let b_ = Some([100u8, 70, 45]);
    let d_ = Some([50u8, 100, 150]);
    let h_ = Some([60u8, 45, 30]);
    let l_ = Some([120u8, 180, 230]);
    let n_ = None::<Color>;
    let s_ = Some([240u8, 185, 140]);
    let w_ = Some([200u8, 200, 210]);
    let x_ = Some([240u8, 240, 255]);
    seq![
        n_, n_, n_, h_, h_, h_, h_, n_, n_, n_,
        n_, n_, h_, h_, h_, h_, h_, h_, n_, n_,
        n_, n_, h_, s_, s_, s_, s_, h_, n_, n_,
        n_, n_, n_, s_, s_, s_, s_, n_, n_, n_,
        n_, n_, a_, a_, a_, a_, a_, a_, n_, n_,
        n_, n_, d_, a_, l_, a_, a_, d_, n_, n_,
        n_, n_, d_, a_, a_, a_, a_, d_, n_, n_,
        n_, n_, n_, a_, a_, a_, a_, w_, x_, x_,
        n_, n_, n_, d_, a_, a_, d_, n_, n_, n_,
        n_, n_, n_, n_, a_, a_, n_, n_, n_, n_,
        n_, n_, n_, n_, a_, n_, a_, n_, n_, n_,
        n_, n_, n_, n_, a_, n_, a_, n_, n_, n_,
        n_, n_, n_, n_, b_, n_, b_, n_, n_, n_,
        n_, n_, n_, b_, b_, n_, b_, b_, n_, n_,
    ]
}

/// The player, attack 2, 10x14.
pub fn attack_2() -> (s: SpriteData)
    ensures
        s.wf(),
        s.width == 10,
        s.height == 14,
        s.pixels@ == attack_2_pixels(),
{
    SpriteData::new(10, 14, &[
        None, None, None, Some([60, 45, 30]), Some([60, 45, 30]), Some([60, 45, 30]), Some([60, 45, 30]), None, None, None,
        None, None, Some([60, 45, 30]), Some([60, 45, 30]), Some([60, 45, 30]), Some([60, 45, 30]), Some([60, 45, 30]), Some([60, 45, 30]), None, None,
        None, None, Some([60, 45, 30]), Some([240, 185, 140]), Some([240, 185, 140]), Some([240, 185, 140]), Some([240, 185, 140]), Some([60, 45, 30]), None, None,
        None, None, None, Some([240, 185, 140]), Some([240, 185, 140]), Some([240, 185, 140]), Some([240, 185, 140]), None, None, None,
        None, None, Some([80, 140, 200]), Some([80, 140, 200]), Some([80, 140, 200]), Some([80, 140, 200]), Some([80, 140, 200]), Some([80, 140, 200]), None, None,
        None, None, Some([50, 100, 150]), Some([80, 140, 200]), Some([120, 180, 230]), Some([80, 140, 200]), Some([80, 140, 200]), Some([50, 100, 150]), None, None,
        None, None, Some([50, 100, 150]), Some([80, 140, 200]), Some([80, 140, 200]), Some([80, 140, 200]), Some([80, 140, 200]), Some([50, 100, 150]), None, None,
        None, None, None, Some([80, 140, 200]), Some([80, 140, 200]), Some([80, 140, 200]), Some([80, 140, 200]), Some([200, 200, 210]), Some([240, 240, 255]), Some([240, 240, 255]),
        None, None, None, Some([50, 100, 150]), Some([80, 140, 200]), Some([80, 140, 200]), Some([50, 100, 150]), None, None, None,
        None, None, None, None, Some([80, 140, 200]), Some([80, 140, 200]), None, None, None, None,
        None, None, None, None, Some([80, 140, 200]), None, Some([80, 140, 200]), None, None, None,
        None, None, None, None, Some([80, 140, 200]), None, Some([80, 140, 200]), None, None, None,
        None, None, None, None, Some([100, 70, 45]), None, Some([100, 70, 45]), None, None, None,
        None, None, None, Some([100, 70, 45]), Some([100, 70, 45]), None, Some([100, 70, 45]), Some([100, 70, 45]), None, None,
    ])
}

/// Pixels of the player, attack 3, row-major.
pub open spec fn attack_3_pixels() -> Seq<Option<Color>> {
    let a_ = Some([80u8, 140, 200]);
    let b_ = Some([100u8, 70, 45]);
    let d_ = Some([50u8, 100, 150]);
    let h_ = Some([60u8, 45, 30]);
    let l_ = Some([120u8, 180, 230]);
    let n_ = None::<Color>;
    let s_ = Some([240u8, 185, 140]);
    let w_ = Some([200u8, 200, 210]);
    seq![
        n_, n_, n_, h_, h_, h_, h_, n_, n_, n_,
        n_, n_, h_, h_, h_, h_, h_, h_, n_, n_,
        n_, n_, h_, s_, s_, s_, s_, h_, n_, n_,
        n_, n_, n_, s_, s_, s_, s_, n_, n_, n_,
        n_, n_, a_, a_, a_, a_, a_, a_, n_, n_,
        n_, n_, d_, a_, l_, a_, a_, d_, n_, n_,
        n_, n_, d_, a_, a_, a_, a_, d_, n_, n_,
        n_, n_, n_, a_, a_, a_, a_, n_, n_, n_,
        n_, n_, n_, d_, a_, a_, d_, w_, n_, n_,
        n_, n_, n_, n_, a_, a_, n_, w_, n_, n_,
        n_, n_, n_, n_, a_, n_, a_, n_, n_, n_,
        n_, n_, n_, n_, a_, n_, a_, n_, n_, n_,
        n_, n_, n_, n_, b_, n_, b_, n_, n_, n_,
        n_, n_, n_, b_, b_, n_, b_, b_, n_, n_,
    ]
}

/// The player, attack 3, 10x14.
pub fn attack_3() -> (s: SpriteData)
    ensures
        s.wf(),
        s.width == 10,
        s.height == 14,
        s.pixels@ == attack_3_pixels(),
{
    SpriteData::new(10, 14, &[
        None, None, None, Some([60, 45, 30]), Some([60, 45, 30]), Some([60, 45, 30]), Some([60, 45, 30]), None, None, None,
        None, None, Some([60, 45, 30]), Some([60, 45, 30]), Some([60, 45, 30]), Some([60, 45, 30]), Some([60, 45, 30]), Some([60, 45, 30]), None, None,
        None, None, Some([60, 45, 30]), Some([240, 185, 140]), Some([240, 185, 140]), Some([240, 185, 140]), Some([240, 185, 140]), Some([60, 45, 30]), None, None,
        None, None, None, Some([240, 185, 140]), Some([240, 185, 140]), Some([240, 185, 140]), Some([240, 185, 140]), None, None, None,
        None, None, Some([80, 140, 200]), Some([80, 140, 200]), Some([80, 140, 200]), Some([80, 140, 200]), Some([80, 140, 200]), Some([80, 140, 200]), None, None,
        None, None, Some([50, 100, 150]), Some([80, 140, 200]), Some([120, 180, 230]), Some([80, 140, 200]), Some([80, 140, 200]), Some([50, 100, 150]), None, None,
        None, None, Some([50, 100, 150]), Some([80, 140, 200]), Some([80, 140, 200]), Some([80, 140, 200]), Some([80, 140, 200]), Some([50, 100, 150]), None, None,
        None, None, None, Some([80, 140, 200]), Some([80, 140, 200]), Some([80, 140, 200]), Some([80, 140, 200]), None, None, None,
        None, None, None, Some([50, 100, 150]), Some([80, 140, 200]), Some([80, 140, 200]), Some([50, 100, 150]), Some([200, 200, 210]), None, None,
        None, None, None, None, Some([80, 140, 200]), Some([80, 140, 200]), None, Some([200, 200, 210]), None, None,
        None, None, None, None, Some([80, 140, 200]), None, Some([80, 140, 200]), None, None, None,
        None, None, None, None, Some([80, 140, 200]), None, Some([80, 140, 200]), None, None, None,
        None, None, None, None, Some([100, 70, 45]), None, Some([100, 70, 45]), None, None, None,
        None, None, None, Some([100, 70, 45]), Some([100, 70, 45]), None, Some([100, 70, 45]), Some([100, 70, 45]), None, None,
    ])
}

/// Pixels of the player, hit 0, row-major.
pub open spec fn hit_0_pixels() -> Seq<Option<Color>> {
    let a_ = Some([80u8, 140, 200]);
    let b_ = Some([100u8, 70, 45]);
    let d_ = Some([50u8, 100, 150]);
    let h_ = Some([60u8, 45, 30]);
    let l_ = Some([120u8, 180, 230]);
    let n_ = None::<Color>;
    let s_ = Some([240u8, 185, 140]);
    seq![
        n_, n_, h_, h_, h_, h_, n_, n_, n_, n_,
        n_, h_, h_, h_, h_, h_, h_, n_, n_, n_,
        n_, h_, s_, s_, s_, s_, h_, n_, n_, n_,
        n_, n_, s_, s_, s_, s_, n_, n_, n_, n_,
        n_, a_, a_, a_, a_, a_, a_, n_, n_, n_,
        n_, d_, a_, l_, a_, a_, d_, n_, n_, n_,
        n_, d_, a_, a_, a_, a_, d_, n_, n_, n_,
        n_, n_, a_, a_, a_, a_, n_, n_, n_, n_,
        n_, n_, d_, a_, a_, d_, n_, n_, n_, n_,
        n_, n_, n_, a_, a_, n_, n_, n_, n_, n_,
        n_, n_, n_, a_, n_, a_, n_, n_, n_, n_,
        n_, n_, n_, a_, n_, a_, n_, n_, n_, n_,
        n_, n_, n_, b_, n_, b_, n_, n_, n_, n_,
        n_, n_, b_, b_, n_, b_, b_, n_, n_, n_,
    ]
}

/// The player, hit 0, 10x14.
pub fn hit_0() -> (s: SpriteData)
    ensures
        s.wf(),
        s.width == 10,
        s.height == 14,
        s.pixels@ == hit_0_pixels(),
{
    SpriteData::new(10, 14, &[
        None, None, Some([60, 45, 30]), Some([60, 45, 30]), Some([60, 45, 30]), Some([60, 45, 30]), None, None, None, None,
        None, Some([60, 45, 30]), Some([60, 45, 30]), Some([60, 45, 30]), Some([60, 45, 30]), Some([60, 45, 30]), Some([60, 45, 30]), None, None, None,
        None, Some([60, 45, 30]), Some([240, 185, 140]), Some([240, 185, 140]), Some([240, 185, 140]), Some([240, 185, 140]), Some([60, 45, 30]), None, None, None,
        None, None, Some([240, 185, 140]), Some([240, 185, 140]), Some([240, 185, 140]), Some([240, 185, 140]), None, None, None, None,
        None, Some([80, 140, 200]), Some([80, 140, 200]), Some([80, 140, 200]), Some([80, 140, 200]), Some([80, 140, 200]), Some([80, 140, 200]), None, None, None,
        None, Some([50, 100, 150]), Some([80, 140, 200]), Some([120, 180, 230]), Some([80, 140, 200]), Some([80, 140, 200]), Some([50, 100, 150]), None, None, None,
        None, Some([50, 100, 150]), Some([80, 140, 200]), Some([80, 140, 200]), Some([80, 140, 200]), Some([80, 140, 200]), Some([50, 100, 150]), None, None, None,
        None, None, Some([80, 140, 200]), Some([80, 140, 200]), Some([80, 140, 200]), Some([80, 140, 200]), None, None, None, None,
        None, None, Some([50, 100, 150]), Some([80, 140, 200]), Some([80, 140, 200]), Some([50, 100, 150]), None, None, None, None,
        None, None, None, Some([80, 140, 200]), Some([80, 140, 200]), None, None, None, None, None,
        None, None, None, Some([80, 140, 200]), None, Some([80, 140, 200]), None, None, None, None,
        None, None, None, Some([80, 140, 200]), None, Some([80, 140, 200]), None, None, None, None,
        None, None, None, Some([100, 70, 45]), None, Some([100, 70, 45]), None, None, None, None,
        None, None, Some([100, 70, 45]), Some([100, 70, 45]), None, Some([100, 70, 45]), Some([100, 70, 45]), None, None, None,
    ])
}

/// Pixels of the player, hit 1, row-major.
pub open spec fn hit_1_pixels() -> Seq<Option<Color>> {
    let a_ = Some([80u8, 140, 200]);
    let b_ = Some([100u8, 70, 45]);
    let d_ = Some([50u8, 100, 150]);
    let h_ = Some([60u8, 45, 30]);
    let l_ = Some([120u8, 180, 230]);
    let n_ = None::<Color>;
    let s_ = Some([240u8, 185, 140]);
    seq![
        n_, n_, n_, h_, h_, h_, h_, n_, n_, n_,
        n_, n_, h_, h_, h_, h_, h_, h_, n_, n_,
        n_, n_, h_, s_, s_, s_, s_, h_, n_, n_,
        n_, n_, n_, s_, s_, s_, s_, n_, n_, n_,
        n_, n_, a_, a_, a_, a_, a_, a_, n_, n_,
        n_, n_, d_, a_, l_, a_, a_, d_, n_, n_,
        n_, n_, d_, a_, a_, a_, a_, d_, n_, n_,
        n_, n_, n_, a_, a_, a_, a_, n_, n_, n_,
        n_, n_, n_, d_, a_, a_, d_, n_, n_, n_,
        n_, n_, n_, n_, a_, a_, n_, n_, n_, n_,
        n_, n_, n_, n_, a_, n_, a_, n_, n_, n_,
        n_, n_, n_, n_, a_, n_, a_, n_, n_, n_,
        n_, n_, n_, n_, b_, n_, b_, n_, n_, n_,
        n_, n_, n_, b_, b_, n_, b_, b_, n_, n_,
    ]
}

/// The player, hit 1, 10x14.
pub fn hit_1() -> (s: SpriteData)
    ensures
        s.wf(),
        s.width == 10,
        s.height == 14,
        s.pixels@ == hit_1_pixels(),
{
    SpriteData::new(10, 14, &[
        None, None, None, Some([60, 45, 30]), Some([60, 45, 30]), Some([60, 45, 30]), Some([60, 45, 30]), None, None, None,
        None, None, Some([60, 45, 30]), Some([60, 45, 30]), Some([60, 45, 30]), Some([60, 45, 30]), Some([60, 45, 30]), Some([60, 45, 30]), None, None,
        None, None, Some([60, 45, 30]), Some([240, 185, 140]), Some([240, 185, 140]), Some([240, 185, 140]), Some([240, 185, 140]), Some([60, 45, 30]), None, None,
        None, None, None, Some([240, 185, 140]), Some([240, 185, 140]), Some([240, 185, 140]), Some([240, 185, 140]), None, None, None,
        None, None, Some([80, 140, 200]), Some([80, 140, 200]), Some([80, 140, 200]), Some([80, 140, 200]), Some([80, 140, 200]), Some([80, 140, 200]), None, None,
        None, None, Some([50, 100, 150]), Some([80, 140, 200]), Some([120, 180, 230]), Some([80, 140, 200]), Some([80, 140, 200]), Some([50, 100, 150]), None, None,
        None, None, Some([50, 100, 150]), Some([80, 140, 200]), Some([80, 140, 200]), Some([80, 140, 200]), Some([80, 140, 200]), Some([50, 100, 150]), None, None,
        None, None, None, Some([80, 140, 200]), Some([80, 140, 200]), Some([80, 140, 200]), Some([80, 140, 200]), None, None, None,
        None, None, None, Some([50, 100, 150]), Some([80, 140, 200]), Some([80, 140, 200]), Some([50, 100, 150]), None, None, None,
        None, None, None, None, Some([80, 140, 200]), Some([80, 140, 200]), None, None, None, None,
        None, None, None, None, Some([80, 140, 200]), None, Some([80, 140, 200]), None, None, None,
        None, None, None, None, Some([80, 140, 200]), None, Some([80, 140, 200]), None, None, None,
        None, None, None, None, Some([100, 70, 45]), None, Some([100, 70, 45]), None, None, None,
        None, None, None, Some([100, 70, 45]), Some([100, 70, 45]), None, Some([100, 70, 45]), Some([100, 70, 45]), None, None,
    ])
}

/// Pixels of the player, death 0, row-major.
pub open spec fn death_0_pixels() -> Seq<Option<Color>> {
    let a_ = Some([80u8, 140, 200]);
    let b_ = Some([100u8, 70, 45]);
    let d_ = Some([50u8, 100, 150]);
    let h_ = Some([60u8, 45, 30]);
    let l_ = Some([120u8, 180, 230]);
    let n_ = None::<Color>;
    let s_ = Some([240u8, 185, 140]);
    seq![
        n_, n_, n_, n_, h_, h_, h_, h_, n_, n_,
        n_, n_, n_, h_, h_, h_, h_, h_, h_, n_,
        n_, n_, n_, h_, s_, s_, s_, s_, h_, n_,
        n_, n_, n_, n_, s_, s_, s_, s_, n_, n_,
        n_, n_, n_, a_, a_, a_, a_, a_, n_, n_,
        n_, n_, n_, d_, a_, l_, a_, a_, n_, n_,
        n_, n_, n_, d_, a_, a_, a_, a_, n_, n_,
        n_, n_, n_, n_, a_, a_, a_, n_, n_, n_,
        n_, n_, n_, n_, d_, a_, a_, n_, n_, n_,
        n_, n_, n_, n_, n_, a_, a_, n_, n_, n_,
        n_, n_, n_, n_, a_, n_, a_, n_, n_, n_,
        n_, n_, n_, n_, a_, n_, a_, n_, n_, n_,
        n_, n_, n_, n_, b_, n_, b_, n_, n_, n_,
        n_, n_, n_, b_, b_, n_, b_, b_, n_, n_,
    ]
}

/// The player, death 0, 10x14.
pub fn death_0() -> (s: SpriteData)
    ensures
        s.wf(),
        s.width == 10,
        s.height == 14,
        s.pixels@ == death_0_pixels(),
{
    SpriteData::new(10, 14, &[
        None, None, None, None, Some([60, 45, 30]), Some([60, 45, 30]), Some([60, 45, 30]), Some([60, 45, 30]), None, None,
        None, None, None, Some([60, 45, 30]), Some([60, 45, 30]), Some([60, 45, 30]), Some([60, 45, 30]), Some([60, 45, 30]), Some([60, 45, 30]), None,
        None, None, None, Some([60, 45, 30]), Some([240, 185, 140]), Some([240, 185, 140]), Some([240, 185, 140]), Some([240, 185, 140]), Some([60, 45, 30]), None,
        None, None, None, None, Some([240, 185, 140]), Some([240, 185, 140]), Some([240, 185, 140]), Some([240, 185, 140]), None, None,
        None, None, None, Some([80, 140, 200]), Some([80, 140, 200]), Some([80, 140, 200]), Some([80, 140, 200]), Some([80, 140, 200]), None, None,
        None, None, None, Some([50, 100, 150]), Some([80, 140, 200]), Some([120, 180, 230]), Some([80, 140, 200]), Some([80, 140, 200]), None, None,
        None, None, None, Some([50, 100, 150]), Some([80, 140, 200]), Some([80, 140, 200]), Some([80, 140, 200]), Some([80, 140, 200]), None, None,
        None, None, None, None, Some([80, 140, 200]), Some([80, 140, 200]), Some([80, 140, 200]), None, None, None,
        None, None, None, None, Some([50, 100, 150]), Some([80, 140, 200]), Some([80, 140, 200]), None, None, None,
        None, None, None, None, None, Some([80, 140, 200]), Some([80, 140, 200]), None, None, None,
        None, None, None, None, Some([80, 140, 200]), None, Some([80, 140, 200]), None, None, None,
        None, None, None, None, Some([80, 140, 200]), None, Some([80, 140, 200]), None, None, None,
        None, None, None, None, Some([100, 70, 45]), None, Some([100, 70, 45]), None, None, None,
        None, None, None, Some([100, 70, 45]), Some([100, 70, 45]), None, Some([100, 70, 45]), Some([100, 70, 45]), None, None,
    ])
}

/// Pixels of the player, death 1, row-major.
pub open spec fn death_1_pixels() -> Seq<Option<Color>> {
    let a_ = Some([80u8, 140, 200]);
    let b_ = Some([100u8, 70, 45]);
    let d_ = Some([50u8, 100, 150]);
    let h_ = Some([60u8, 45, 30]);
    let l_ = Some([120u8, 180, 230]);
    let n_ = None::<Color>;
    let s_ = Some([240u8, 185, 140]);
    seq![
        n_, n_, n_, n_, n_, h_, h_, h_, h_, n_,
        n_, n_, n_, n_, h_, h_, h_, h_, h_, n_,
        n_, n_, n_, n_, h_, s_, s_, s_, h_, n_,
        n_, n_, n_, n_, n_, s_, s_, s_, n_, n_,
        n_, n_, n_, n_, a_, a_, a_, a_, n_, n_,
        n_, n_, n_, n_, d_, a_, l_, a_, n_, n_,
        n_, n_, n_, n_, d_, a_, a_, a_, n_, n_,
        n_, n_, n_, n_, n_, a_, a_, a_, n_, n_,
        n_, n_, n_, n_, n_, d_, a_, n_, n_, n_,
        n_, n_, n_, n_, n_, a_, a_, n_, n_, n_,
        n_, n_, n_, n_, a_, n_, a_, n_, n_, n_,
        n_, n_, n_, n_, a_, n_, a_, n_, n_, n_,
        n_, n_, n_, n_, b_, n_, b_, n_, n_, n_,
        n_, n_, n_, b_, b_, n_, b_, b_, n_, n_,
    ]
}

/// The player, death 1, 10x14.
pub fn death_1() -> (s: SpriteData)
    ensures
        s.wf(),
        s.width == 10,
        s.height == 14,
        s.pixels@ == death_1_pixels(),
{
    SpriteData::new(10, 14, &[
        None, None, None, None, None, Some([60, 45, 30]), Some([60, 45, 30]), Some([60, 45, 30]), Some([60, 45, 30]), None,
        None, None, None, None, Some([60, 45, 30]), Some([60, 45, 30]), Some([60, 45, 30]), Some([60, 45, 30]), Some([60, 45, 30]), None,
        None, None, None, None, Some([60, 45, 30]), Some([240, 185, 140]), Some([240, 185, 140]), Some([240, 185, 140]), Some([60, 45, 30]), None,
        None, None, None, None, None, Some([240, 185, 140]), Some([240, 185, 140]), Some([240, 185, 140]), None, None,
        None, None, None, None, Some([80, 140, 200]), Some([80, 140, 200]), Some([80, 140, 200]), Some([80, 140, 200]), None, None,
        None, None, None, None, Some([50, 100, 150]), Some([80, 140, 200]), Some([120, 180, 230]), Some([80, 140, 200]), None, None,
        None, None, None, None, Some([50, 100, 150]), Some([80, 140, 200]), Some([80, 140, 200]), Some([80, 140, 200]), None, None,
        None, None, None, None, None, Some([80, 140, 200]), Some([80, 140, 200]), Some([80, 140, 200]), None, None,
        None, None, None, None, None, Some([50, 100, 150]), Some([80, 140, 200]), None, None, None,
        None, None, None, None, None, Some([80, 140, 200]), Some([80, 140, 200]), None, None, None,
        None, None, None, None, Some([80, 140, 200]), None, Some([80, 140, 200]), None, None, None,
        None, None, None, None, Some([80, 140, 200]), None, Some([80, 140, 200]), None, None, None,
        None, None, None, None, Some([100, 70, 45]), None, Some([100, 70, 45]), None, None, None,
        None, None, None, Some([100, 70, 45]), Some([100, 70, 45]), None, Some([100, 70, 45]), Some([100, 70, 45]), None, None,
    ])
}

/// Pixels of the player, death 2, row-major.
pub open spec fn death_2_pixels() -> Seq<Option<Color>> {
    let a_ = Some([80u8, 140, 200]);
    let b_ = Some([100u8, 70, 45]);
    let d_ = Some([50u8, 100, 150]);
    let h_ = Some([60u8, 45, 30]);
    let n_ = None::<Color>;
    let s_ = Some([240u8, 185, 140]);
    seq![
        n_, n_, n_, n_, n_, n_, n_, n_, n_, n_,
        n_, n_, n_, n_, n_, n_, n_, n_, n_, n_,
        n_, n_, n_, n_, n_, n_, n_, n_, n_, n_,
        n_, n_, n_, n_, n_, n_, n_, n_, n_, n_,
        n_, n_, n_, n_, n_, n_, n_, n_, n_, n_,
        n_, n_, n_, n_, n_, n_, n_, n_, n_, n_,
        n_, n_, n_, n_, n_, n_, n_, n_, n_, n_,
        n_, n_, n_, n_, n_, n_, n_, n_, n_, n_,
        n_, n_, n_, h_, h_, h_, n_, n_, n_, n_,
        n_, n_, h_, s_, s_, h_, n_, n_, n_, n_,
        n_, n_, a_, a_, a_, a_, a_, n_, n_, n_,
        n_, n_, d_, a_, a_, a_, d_, n_, n_, n_,
        n_, n_, n_, b_, a_, b_, n_, n_, n_, n_,
        n_, n_, n_, b_, b_, b_, n_, n_, n_, n_,
    ]
}

/// The player, death 2, 10x14.
pub fn death_2() -> (s: SpriteData)
    ensures
        s.wf(),
        s.width == 10,
        s.height == 14,
        s.pixels@ == death_2_pixels(),
{
    SpriteData::new(10, 14, &[
        None, None, None, None, None, None, None, None, None, None,
        None, None, None, None, None, None, None, None, None, None,
        None, None, None, None, None, None, None, None, None, None,
        None, None, None, None, None, None, None, None, None, None,
        None, None, None, None, None, None, None, None, None, None,
        None, None, None, None, None, None, None, None, None, None,
        None, None, None, None, None, None, None, None, None, None,
        None, None, None, None, None, None, None, None, None, None,
        None, None, None, Some([60, 45, 30]), Some([60, 45, 30]), Some([60, 45, 30]), None, None, None, None,
        None, None, Some([60, 45, 30]), Some([240, 185, 140]), Some([240, 185, 140]), Some([60, 45, 30]), None, None, None, None,
        None, None, Some([80, 140, 200]), Some([80, 140, 200]), Some([80, 140, 200]), Some([80, 140, 200]), Some([80, 140, 200]), None, None, None,
        None, None, Some([50, 100, 150]), Some([80, 140, 200]), Some([80, 140, 200]), Some([80, 140, 200]), Some([50, 100, 150]), None, None, None,
        None, None, None, Some([100, 70, 45]), Some([80, 140, 200]), Some([100, 70, 45]), None, None, None, None,
        None, None, None, Some([100, 70, 45]), Some([100, 70, 45]), Some([100, 70, 45]), None, None, None, None,
    ])
}

/// Pixels of the player, death 3, row-major.
pub open spec fn death_3_pixels() -> Seq<Option<Color>> {
    let n_ = None::<Color>;
    let x_ = Some([240u8, 240, 255]);
    seq![
        n_, n_, n_, n_, n_, n_, n_, n_, n_, n_,
        n_, n_, n_, n_, n_, n_, n_, n_, n_, n_,
        n_, n_, n_, n_, n_, n_, n_, n_, n_, n_,
        n_, n_, n_, n_, n_, n_, n_, n_, n_, n_,
        n_, n_, n_, n_, n_, n_, n_, n_, n_, n_,
        n_, n_, n_, n_, n_, n_, n_, n_, n_, n_,
        n_, n_, n_, n_, n_, n_, n_, n_, n_, n_,
        n_, n_, n_, n_, n_, n_, n_, n_, n_, n_,
        n_, n_, n_, x_, x_, x_, n_, n_, n_, n_,
        n_, n_, x_, x_, x_, x_, n_, n_, n_, n_,
        n_, n_, x_, x_, x_, x_, x_, n_, n_, n_,
        n_, n_, x_, x_, x_, x_, x_, n_, n_, n_,
        n_, n_, n_, x_, x_, x_, n_, n_, n_, n_,
        n_, n_, n_, x_, x_, x_, n_, n_, n_, n_,
    ]
}

/// The player, death 3, 10x14.
pub fn death_3() -> (s: SpriteData)
    ensures
        s.wf(),
        s.width == 10,
        s.height == 14,
        s.pixels@ == death_3_pixels(),
{
    SpriteData::new(10, 14, &[
        None, None, None, None, None, None, None, None, None, None,
        None, None, None, None, None, None, None, None, None, None,
        None, None, None, None, None, None, None, None, None, None,
        None, None, None, None, None, None, None, None, None, None,
        None, None, None, None, None, None, None, None, None, None,
        None, None, None, None, None, None, None, None, None, None,
        None, None, None, None, None, None, None, None, None, None,
        None, None, None, None, None, None, None, None, None, None,
        None, None, None, Some([240, 240, 255]), Some([240, 240, 255]), Some([240, 240, 255]), None, None, None, None,
        None, None, Some([240, 240, 255]), Some([240, 240, 255]), Some([240, 240, 255]), Some([240, 240, 255]), None, None, None, None,
        None, None, Some([240, 240, 255]), Some([240, 240, 255]), Some([240, 240, 255]), Some([240, 240, 255]), Some([240, 240, 255]), None, None, None,
        None, None, Some([240, 240, 255]), Some([240, 240, 255]), Some([240, 240, 255]), Some([240, 240, 255]), Some([240, 240, 255]), None, None, None,
        None, None, None, Some([240, 240, 255]), Some([240, 240, 255]), Some([240, 240, 255]), None, None, None, None,
        None, None, None, Some([240, 240, 255]), Some([240, 240, 255]), Some([240, 240, 255]), None, None, None, None,
    ])
}

} // verus!
