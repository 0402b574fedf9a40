use vstd::prelude::*;
use crate::engine::color::Color;
use crate::engine::sprite::SpriteData;

verus! {

/// Pixels of the Bone King, idle, row-major.
pub open spec fn bone_king_idle_pixels() -> Seq<Option<Color>> {
    let b_ = Some([230u8, 220, 200]);
    let d_ = Some([200u8, 190, 170]);
    let e_ = Some([160u8, 150, 130]);
    let f_ = Some([255u8, 40, 40]);
    let g_ = Some([255u8, 200, 50]);
    let k_ = Some([200u8, 160, 30]);
    let m_ = Some([80u8, 15, 15]);
    let n_ = None::<Color>;
    let r_ = Some([100u8, 20, 20]);
    let w_ = Some([190u8, 185, 175]);
    let x_ = Some([220u8, 215, 205]);
    seq![
        n_, n_, n_, n_, n_, n_, k_, g_, g_, g_, g_, g_, g_, k_, n_, n_, n_, n_, n_, n_,
        n_, n_, n_, n_, n_, n_, g_, g_, k_, g_, g_, k_, g_, g_, n_, n_, n_, n_, n_, n_,
        n_, n_, n_, n_, n_, n_, k_, g_, g_, g_, g_, g_, g_, k_, n_, n_, n_, n_, n_, n_,
        n_, n_, n_, n_, n_, b_, b_, b_, b_, b_, b_, b_, b_, b_, b_, n_, n_, n_, n_, n_,
        n_, n_, n_, n_, b_, b_, b_, b_, b_, b_, b_, b_, b_, b_, b_, b_, n_, n_, n_, n_,
        n_, n_, n_, n_, b_, b_, f_, b_, b_, b_, b_, b_, b_, f_, b_, b_, n_, n_, n_, n_,
        n_, n_, n_, n_, n_, b_, b_, b_, d_, d_, d_, d_, b_, b_, b_, n_, n_, n_, n_, n_,
        n_, n_, n_, n_, n_, b_, d_, b_, b_, b_, b_, b_, b_, d_, b_, n_, n_, n_, n_, n_,
        n_, n_, n_, n_, n_, n_, d_, d_, e_, d_, d_, e_, d_, d_, n_, n_, n_, n_, n_, n_,
        n_, n_, n_, n_, n_, r_, r_, r_, r_, r_, r_, r_, r_, r_, r_, n_, n_, n_, n_, n_,
        n_, n_, n_, n_, r_, r_, m_, r_, r_, r_, r_, r_, r_, m_, r_, r_, n_, n_, n_, n_,
        n_, n_, n_, b_, r_, r_, m_, r_, r_, r_, r_, r_, r_, m_, r_, r_, b_, n_, n_, n_,
        n_, n_, n_, d_, r_, r_, r_, r_, r_, r_, r_, r_, r_, r_, r_, r_, d_, w_, n_, n_,
        n_, n_, n_, e_, r_, r_, r_, r_, m_, r_, r_, m_, r_, r_, r_, r_, e_, w_, n_, n_,
        n_, n_, n_, n_, b_, r_, r_, r_, r_, r_, r_, r_, r_, r_, r_, b_, n_, w_, n_, n_,
        n_, n_, n_, n_, d_, r_, r_, r_, r_, r_, r_, r_, r_, r_, r_, d_, n_, x_, n_, n_,
        n_, n_, n_, n_, n_, r_, r_, r_, m_, r_, r_, m_, r_, r_, r_, n_, n_, w_, n_, n_,
        n_, n_, n_, n_, n_, m_, r_, r_, r_, r_, r_, r_, r_, r_, m_, n_, n_, x_, n_, n_,
        n_, n_, n_, n_, n_, n_, d_, b_, d_, n_, n_, d_, b_, d_, n_, n_, n_, w_, n_, n_,
        n_, n_, n_, n_, n_, n_, d_, b_, d_, n_, n_, d_, b_, d_, n_, n_, n_, n_, n_, n_,
        n_, n_, n_, n_, n_, n_, d_, b_, d_, n_, n_, d_, b_, d_, n_, n_, n_, n_, n_, n_,
        n_, n_, n_, n_, n_, n_, e_, b_, e_, n_, n_, e_, b_, e_, n_, n_, n_, n_, n_, n_,
        n_, n_, n_, n_, n_, e_, e_, b_, e_, e_, e_, e_, b_, e_, e_, n_, n_, n_, n_, n_,
        n_, n_, n_, n_, n_, e_, e_, e_, e_, e_, e_, e_, e_, e_, e_, n_, n_, n_, n_, n_,
    ]
}

/// The Bone King, idle, 20x24.
pub fn bone_king_idle() -> (s: SpriteData)
    ensures
        s.wf(),
        s.width == 20,
        s.height == 24,
        s.pixels@ == bone_king_idle_pixels(),
{
    SpriteData::new(20, 24, &[
        None, None, None, None, None, None, Some([200, 160, 30]), Some([255, 200, 50]), Some([255, 200, 50]), Some([255, 200, 50]), Some([255, 200, 50]), Some([255, 200, 50]), Some([255, 200, 50]), Some([200, 160, 30]), None, None, None, None, None, None,
        None, None, None, None, None, None, Some([255, 200, 50]), Some([255, 200, 50]), Some([200, 160, 30]), Some([255, 200, 50]), Some([255, 200, 50]), Some([200, 160, 30]), Some([255, 200, 50]), Some([255, 200, 50]), None, None, None, None, None, None,
        None, None, None, None, None, None, Some([200, 160, 30]), Some([255, 200, 50]), Some([255, 200, 50]), Some([255, 200, 50]), Some([255, 200, 50]), Some([255, 200, 50]), Some([255, 200, 50]), Some([200, 160, 30]), None, None, None, None, None, None,
        None, None, None, None, None, Some([230, 220, 200]), Some([230, 220, 200]), Some([230, 220, 200]), Some([230, 220, 200]), Some([230, 220, 200]), Some([230, 220, 200]), Some([230, 220, 200]), Some([230, 220, 200]), Some([230, 220, 200]), Some([230, 220, 200]), None, None, None, None, None,
        None, None, None, None, Some([230, 220, 200]), Some([230, 220, 200]), Some([230, 220, 200]), Some([230, 220, 200]), Some([230, 220, 200]), Some([230, 220, 200]), Some([230, 220, 200]), Some([230, 220, 200]), Some([230, 220, 200]), Some([230, 220, 200]), Some([230, 220, 200]), Some([230, 220, 200]), None, None, None, None,
        None, None, None, None, Some([230, 220, 200]), Some([230, 220, 200]), Some([255, 40, 40]), Some([230, 220, 200]), Some([230, 220, 200]), Some([230, 220, 200]), Some([230, 220, 200]), Some([230, 220, 200]), Some([230, 220, 200]), Some([255, 40, 40]), Some([230, 220, 200]), Some([230, 220, 200]), None, None, None, None,
        None, None, None, None, None, Some([230, 220, 200]), Some([230, 220, 200]), Some([230, 220, 200]), Some([200, 190, 170]), Some([200, 190, 170]), Some([200, 190, 170]), Some([200, 190, 170]), Some([230, 220, 200]), Some([230, 220, 200]), Some([230, 220, 200]), None, None, None, None, None,
        None, None, None, None, None, Some([230, 220, 200]), Some([200, 190, 170]), Some([230, 220, 200]), Some([230, 220, 200]), Some([230, 220, 200]), Some([230, 220, 200]), Some([230, 220, 200]), Some([230, 220, 200]), Some([200, 190, 170]), Some([230, 220, 200]), None, None, None, None, None,
        None, None, None, None, None, None, Some([200, 190, 170]), Some([200, 190, 170]), Some([160, 150, 130]), Some([200, 190, 170]), Some([200, 190, 170]), Some([160, 150, 130]), Some([200, 190, 170]), Some([200, 190, 170]), None, None, None, None, None, None,
        None, None, None, None, None, Some([100, 20, 20]), Some([100, 20, 20]), Some([100, 20, 20]), Some([100, 20, 20]), Some([100, 20, 20]), Some([100, 20, 20]), Some([100, 20, 20]), Some([100, 20, 20]), Some([100, 20, 20]), Some([100, 20, 20]), None, None, None, None, None,
        None, None, None, None, Some([100, 20, 20]), Some([100, 20, 20]), Some([80, 15, 15]), Some([100, 20, 20]), Some([100, 20, 20]), Some([100, 20, 20]), Some([100, 20, 20]), Some([100, 20, 20]), Some([100, 20, 20]), Some([80, 15, 15]), Some([100, 20, 20]), Some([100, 20, 20]), None, None, None, None,
        None, None, None, Some([230, 220, 200]), Some([100, 20, 20]), Some([100, 20, 20]), Some([80, 15, 15]), Some([100, 20, 20]), Some([100, 20, 20]), Some([100, 20, 20]), Some([100, 20, 20]), Some([100, 20, 20]), Some([100, 20, 20]), Some([80, 15, 15]), Some([100, 20, 20]), Some([100, 20, 20]), Some([230, 220, 200]), None, None, None,
        None, None, None, Some([200, 190, 170]), Some([100, 20, 20]), Some([100, 20, 20]), Some([100, 20, 20]), Some([100, 20, 20]), Some([100, 20, 20]), Some([100, 20, 20]), Some([100, 20, 20]), Some([100, 20, 20]), Some([100, 20, 20]), Some([100, 20, 20]), Some([100, 20, 20]), Some([100, 20, 20]), Some([200, 190, 170]), Some([190, 185, 175]), None, None,
        None, None, None, Some([160, 150, 130]), Some([100, 20, 20]), Some([100, 20, 20]), Some([100, 20, 20]), Some([100, 20, 20]), Some([80, 15, 15]), Some([100, 20, 20]), Some([100, 20, 20]), Some([80, 15, 15]), Some([100, 20, 20]), Some([100, 20, 20]), Some([100, 20, 20]), Some([100, 20, 20]), Some([160, 150, 130]), Some([190, 185, 175]), None, None,
        None, None, None, None, Some([230, 220, 200]), Some([100, 20, 20]), Some([100, 20, 20]), Some([100, 20, 20]), Some([100, 20, 20]), Some([100, 20, 20]), Some([100, 20, 20]), Some([100, 20, 20]), Some([100, 20, 20]), Some([100, 20, 20]), Some([100, 20, 20]), Some([230, 220, 200]), None, Some([190, 185, 175]), None, None,
        None, None, None, None, Some([200, 190, 170]), Some([100, 20, 20]), Some([100, 20, 20]), Some([100, 20, 20]), Some([100, 20, 20]), Some([100, 20, 20]), Some([100, 20, 20]), Some([100, 20, 20]), Some([100, 20, 20]), Some([100, 20, 20]), Some([100, 20, 20]), Some([200, 190, 170]), None, Some([220, 215, 205]), None, None,
        None, None, None, None, None, Some([100, 20, 20]), Some([100, 20, 20]), Some([100, 20, 20]), Some([80, 15, 15]), Some([100, 20, 20]), Some([100, 20, 20]), Some([80, 15, 15]), Some([100, 20, 20]), Some([100, 20, 20]), Some([100, 20, 20]), None, None, Some([190, 185, 175]), None, None,
        None, None, None, None, None, Some([80, 15, 15]), Some([100, 20, 20]), Some([100, 20, 20]), Some([100, 20, 20]), Some([100, 20, 20]), Some([100, 20, 20]), Some([100, 20, 20]), Some([100, 20, 20]), Some([100, 20, 20]), Some([80, 15, 15]), None, None, Some([220, 215, 205]), None, None,
        None, None, None, None, None, None, Some([200, 190, 170]), Some([230, 220, 200]), Some([200, 190, 170]), None, None, Some([200, 190, 170]), Some([230, 220, 200]), Some([200, 190, 170]), None, None, None, Some([190, 185, 175]), None, None,
        None, None, None, None, None, None, Some([200, 190, 170]), Some([230, 220, 200]), Some([200, 190, 170]), None, None, Some([200, 190, 170]), Some([230, 220, 200]), Some([200, 190, 170]), None, None, None, None, None, None,
        None, None, None, None, None, None, Some([200, 190, 170]), Some([230, 220, 200]), Some([200, 190, 170]), None, None, Some([200, 190, 170]), Some([230, 220, 200]), Some([200, 190, 170]), None, None, None, None, None, None,
        None, None, None, None, None, None, Some([160, 150, 130]), Some([230, 220, 200]), Some([160, 150, 130]), None, None, Some([160, 150, 130]), Some([230, 220, 200]), Some([160, 150, 130]), None, None, None, None, None, None,
        None, None, None, None, None, Some([160, 150, 130]), Some([160, 150, 130]), Some([230, 220, 200]), Some([160, 150, 130]), Some([160, 150, 130]), Some([160, 150, 130]), Some([160, 150, 130]), Some([230, 220, 200]), Some([160, 150, 130]), Some([160, 150, 130]), None, None, None, None, None,
        None, None, None, None, None, Some([160, 150, 130]), Some([160, 150, 130]), Some([160, 150, 130]), Some([160, 150, 130]), Some([160, 150, 130]), Some([160, 150, 130]), Some([160, 150, 130]), Some([160, 150, 130]), Some([160, 150, 130]), Some([160, 150, 130]), None, None, None, None, None,
    ])
}

/// Pixels of the Bone King, slam, row-major.
pub open spec fn bone_king_slam_pixels() -> Seq<Option<Color>> {
    let b_ = Some([230u8, 220, 200]);
    let d_ = Some([200u8, 190, 170]);
    let e_ = Some([160u8, 150, 130]);
    let f_ = Some([255u8, 40, 40]);
    let g_ = Some([255u8, 200, 50]);
    let k_ = Some([200u8, 160, 30]);
    let m_ = Some([80u8, 15, 15]);
    let n_ = None::<Color>;
    let r_ = Some([100u8, 20, 20]);
    let w_ = Some([190u8, 185, 175]);
    let x_ = Some([220u8, 215, 205]);
    seq![
        n_, n_, n_, n_, n_, n_, n_, n_, n_, x_, w_, x_, n_, n_, n_, n_, n_, n_, n_, n_,
        n_, n_, n_, n_, n_, n_, n_, n_, n_, w_, x_, w_, n_, n_, n_, n_, n_, n_, n_, n_,
        n_, n_, n_, n_, n_, n_, n_, n_, n_, w_, w_, w_, n_, n_, n_, n_, n_, n_, n_, n_,
        n_, n_, n_, n_, n_, n_, k_, g_, g_, g_, g_, g_, g_, k_, n_, n_, n_, n_, n_, n_,
        n_, n_, n_, n_, n_, n_, g_, g_, k_, g_, g_, k_, g_, g_, n_, n_, n_, n_, n_, n_,
        n_, n_, n_, n_, n_, n_, k_, g_, g_, g_, g_, g_, g_, k_, n_, n_, n_, n_, n_, n_,
        n_, n_, n_, n_, n_, b_, b_, b_, b_, b_, b_, b_, b_, b_, b_, n_, n_, n_, n_, n_,
        n_, n_, n_, n_, b_, b_, b_, b_, b_, b_, b_, b_, b_, b_, b_, b_, n_, n_, n_, n_,
        n_, n_, n_, n_, b_, b_, f_, b_, b_, b_, b_, b_, b_, f_, b_, b_, n_, n_, n_, n_,
        n_, n_, n_, n_, n_, b_, b_, b_, d_, d_, d_, d_, b_, b_, b_, n_, n_, n_, n_, n_,
        n_, n_, n_, n_, n_, b_, d_, b_, b_, b_, b_, b_, b_, d_, b_, n_, n_, n_, n_, n_,
        n_, n_, n_, n_, n_, r_, r_, r_, r_, r_, r_, r_, r_, r_, r_, n_, n_, n_, n_, n_,
        n_, n_, n_, n_, r_, r_, m_, r_, r_, r_, r_, r_, r_, m_, r_, r_, n_, n_, n_, n_,
        n_, n_, n_, b_, d_, r_, r_, r_, r_, r_, r_, r_, r_, r_, r_, d_, b_, n_, n_, n_,
        n_, n_, n_, n_, r_, r_, r_, r_, r_, r_, r_, r_, r_, r_, r_, r_, n_, n_, n_, n_,
        n_, n_, n_, n_, r_, r_, r_, r_, m_, r_, r_, m_, r_, r_, r_, r_, n_, n_, n_, n_,
        n_, n_, n_, n_, n_, r_, r_, r_, r_, r_, r_, r_, r_, r_, r_, n_, n_, n_, n_, n_,
        n_, n_, n_, n_, n_, m_, r_, r_, r_, r_, r_, r_, r_, r_, m_, n_, n_, n_, n_, n_,
        n_, n_, n_, n_, n_, n_, d_, b_, d_, n_, n_, d_, b_, d_, n_, n_, n_, n_, n_, n_,
        n_, n_, n_, n_, n_, n_, d_, b_, d_, n_, n_, d_, b_, d_, n_, n_, n_, n_, n_, n_,
        n_, n_, n_, n_, n_, n_, d_, b_, d_, n_, n_, d_, b_, d_, n_, n_, n_, n_, n_, n_,
        n_, n_, n_, n_, n_, n_, e_, b_, e_, n_, n_, e_, b_, e_, n_, n_, n_, n_, n_, n_,
        n_, n_, n_, n_, n_, e_, e_, b_, e_, e_, e_, e_, b_, e_, e_, n_, n_, n_, n_, n_,
        n_, n_, n_, n_, n_, e_, e_, e_, e_, e_, e_, e_, e_, e_, e_, n_, n_, n_, n_, n_,
    ]
}

/// The Bone King, slam, 20x24.
pub fn bone_king_slam() -> (s: SpriteData)
    ensures
        s.wf(),
        s.width == 20,
        s.height == 24,
        s.pixels@ == bone_king_slam_pixels(),
{
    SpriteData::new(20, 24, &[
        None, None, None, None, None, None, None, None, None, Some([220, 215, 205]), Some([190, 185, 175]), Some([220, 215, 205]), None, None, None, None, None, None, None, None,
        None, None, None, None, None, None, None, None, None, Some([190, 185, 175]), Some([220, 215, 205]), Some([190, 185, 175]), None, None, None, None, None, None, None, None,
        None, None, None, None, None, None, None, None, None, Some([190, 185, 175]), Some([190, 185, 175]), Some([190, 185, 175]), None, None, None, None, None, None, None, None,
        None, None, None, None, None, None, Some([200, 160, 30]), Some([255, 200, 50]), Some([255, 200, 50]), Some([255, 200, 50]), Some([255, 200, 50]), Some([255, 200, 50]), Some([255, 200, 50]), Some([200, 160, 30]), None, None, None, None, None, None,
        None, None, None, None, None, None, Some([255, 200, 50]), Some([255, 200, 50]), Some([200, 160, 30]), Some([255, 200, 50]), Some([255, 200, 50]), Some([200, 160, 30]), Some([255, 200, 50]), Some([255, 200, 50]), None, None, None, None, None, None,
        None, None, None, None, None, None, Some([200, 160, 30]), Some([255, 200, 50]), Some([255, 200, 50]), Some([255, 200, 50]), Some([255, 200, 50]), Some([255, 200, 50]), Some([255, 200, 50]), Some([200, 160, 30]), None, None, None, None, None, None,
        None, None, None, None, None, Some([230, 220, 200]), Some([230, 220, 200]), Some([230, 220, 200]), Some([230, 220, 200]), Some([230, 220, 200]), Some([230, 220, 200]), Some([230, 220, 200]), Some([230, 220, 200]), Some([230, 220, 200]), Some([230, 220, 200]), None, None, None, None, None,
        None, None, None, None, Some([230, 220, 200]), Some([230, 220, 200]), Some([230, 220, 200]), Some([230, 220, 200]), Some([230, 220, 200]), Some([230, 220, 200]), Some([230, 220, 200]), Some([230, 220, 200]), Some([230, 220, 200]), Some([230, 220, 200]), Some([230, 220, 200]), Some([230, 220, 200]), None, None, None, None,
        None, None, None, None, Some([230, 220, 200]), Some([230, 220, 200]), Some([255, 40, 40]), Some([230, 220, 200]), Some([230, 220, 200]), Some([230, 220, 200]), Some([230, 220, 200]), Some([230, 220, 200]), Some([230, 220, 200]), Some([255, 40, 40]), Some([230, 220, 200]), Some([230, 220, 200]), None, None, None, None,
        None, None, None, None, None, Some([230, 220, 200]), Some([230, 220, 200]), Some([230, 220, 200]), Some([200, 190, 170]), Some([200, 190, 170]), Some([200, 190, 170]), Some([200, 190, 170]), Some([230, 220, 200]), Some([230, 220, 200]), Some([230, 220, 200]), None, None, None, None, None,
        None, None, None, None, None, Some([230, 220, 200]), Some([200, 190, 170]), Some([230, 220, 200]), Some([230, 220, 200]), Some([230, 220, 200]), Some([230, 220, 200]), Some([230, 220, 200]), Some([230, 220, 200]), Some([200, 190, 170]), Some([230, 220, 200]), None, None, None, None, None,
        None, None, None, None, None, Some([100, 20, 20]), Some([100, 20, 20]), Some([100, 20, 20]), Some([100, 20, 20]), Some([100, 20, 20]), Some([100, 20, 20]), Some([100, 20, 20]), Some([100, 20, 20]), Some([100, 20, 20]), Some([100, 20, 20]), None, None, None, None, None,
        None, None, None, None, Some([100, 20, 20]), Some([100, 20, 20]), Some([80, 15, 15]), Some([100, 20, 20]), Some([100, 20, 20]), Some([100, 20, 20]), Some([100, 20, 20]), Some([100, 20, 20]), Some([100, 20, 20]), Some([80, 15, 15]), Some([100, 20, 20]), Some([100, 20, 20]), None, None, None, None,
        None, None, None, Some([230, 220, 200]), Some([200, 190, 170]), Some([100, 20, 20]), Some([100, 20, 20]), Some([100, 20, 20]), Some([100, 20, 20]), Some([100, 20, 20]), Some([100, 20, 20]), Some([100, 20, 20]), Some([100, 20, 20]), Some([100, 20, 20]), Some([100, 20, 20]), Some([200, 190, 170]), Some([230, 220, 200]), None, None, None,
        None, None, None, None, Some([100, 20, 20]), Some([100, 20, 20]), Some([100, 20, 20]), Some([100, 20, 20]), Some([100, 20, 20]), Some([100, 20, 20]), Some([100, 20, 20]), Some([100, 20, 20]), Some([100, 20, 20]), Some([100, 20, 20]), Some([100, 20, 20]), Some([100, 20, 20]), None, None, None, None,
        None, None, None, None, Some([100, 20, 20]), Some([100, 20, 20]), Some([100, 20, 20]), Some([100, 20, 20]), Some([80, 15, 15]), Some([100, 20, 20]), Some([100, 20, 20]), Some([80, 15, 15]), Some([100, 20, 20]), Some([100, 20, 20]), Some([100, 20, 20]), Some([100, 20, 20]), None, None, None, None,
        None, None, None, None, None, Some([100, 20, 20]), Some([100, 20, 20]), Some([100, 20, 20]), Some([100, 20, 20]), Some([100, 20, 20]), Some([100, 20, 20]), Some([100, 20, 20]), Some([100, 20, 20]), Some([100, 20, 20]), Some([100, 20, 20]), None, None, None, None, None,
        None, None, None, None, None, Some([80, 15, 15]), Some([100, 20, 20]), Some([100, 20, 20]), Some([100, 20, 20]), Some([100, 20, 20]), Some([100, 20, 20]), Some([100, 20, 20]), Some([100, 20, 20]), Some([100, 20, 20]), Some([80, 15, 15]), None, None, None, None, None,
        None, None, None, None, None, None, Some([200, 190, 170]), Some([230, 220, 200]), Some([200, 190, 170]), None, None, Some([200, 190, 170]), Some([230, 220, 200]), Some([200, 190, 170]), None, None, None, None, None, None,
        None, None, None, None, None, None, Some([200, 190, 170]), Some([230, 220, 200]), Some([200, 190, 170]), None, None, Some([200, 190, 170]), Some([230, 220, 200]), Some([200, 190, 170]), None, None, None, None, None, None,
        None, None, None, None, None, None, Some([200, 190, 170]), Some([230, 220, 200]), Some([200, 190, 170]), None, None, Some([200, 190, 170]), Some([230, 220, 200]), Some([200, 190, 170]), None, None, None, None, None, None,
        None, None, None, None, None, None, Some([160, 150, 130]), Some([230, 220, 200]), Some([160, 150, 130]), None, None, Some([160, 150, 130]), Some([230, 220, 200]), Some([160, 150, 130]), None, None, None, None, None, None,
        None, None, None, None, None, Some([160, 150, 130]), Some([160, 150, 130]), Some([230, 220, 200]), Some([160, 150, 130]), Some([160, 150, 130]), Some([160, 150, 130]), Some([160, 150, 130]), Some([230, 220, 200]), Some([160, 150, 130]), Some([160, 150, 130]), None, None, None, None, None,
        None, None, None, None, None, Some([160, 150, 130]), Some([160, 150, 130]), Some([160, 150, 130]), Some([160, 150, 130]), Some([160, 150, 130]), Some([160, 150, 130]), Some([160, 150, 130]), Some([160, 150, 130]), Some([160, 150, 130]), Some([160, 150, 130]), None, None, None, None, None,
    ])
}

/// Pixels of the Bone King, sweep, row-major.
pub open spec fn bone_king_sweep_pixels() -> Seq<Option<Color>> {
    let b_ = Some([230u8, 220, 200]);
    let d_ = Some([200u8, 190, 170]);
    let e_ = Some([160u8, 150, 130]);
    let f_ = Some([255u8, 40, 40]);
    let g_ = Some([255u8, 200, 50]);
    let k_ = Some([200u8, 160, 30]);
    let m_ = Some([80u8, 15, 15]);
    let n_ = None::<Color>;
    let r_ = Some([100u8, 20, 20]);
    let w_ = Some([190u8, 185, 175]);
    let x_ = Some([220u8, 215, 205]);
    seq![
        n_, n_, n_, n_, n_, n_, n_, k_, g_, g_, g_, g_, g_, g_, k_, n_, n_, n_, n_, n_, n_, n_,
        n_, n_, n_, n_, n_, n_, n_, g_, g_, k_, g_, g_, k_, g_, g_, n_, n_, n_, n_, n_, n_, n_,
        n_, n_, n_, n_, n_, n_, n_, k_, g_, g_, g_, g_, g_, g_, k_, n_, n_, n_, n_, n_, n_, n_,
        n_, n_, n_, n_, n_, n_, b_, b_, b_, b_, b_, b_, b_, b_, b_, b_, n_, n_, n_, n_, n_, n_,
        n_, n_, n_, n_, n_, b_, b_, b_, b_, b_, b_, b_, b_, b_, b_, b_, b_, n_, n_, n_, n_, n_,
        n_, n_, n_, n_, n_, b_, b_, f_, b_, b_, b_, b_, b_, b_, f_, b_, b_, n_, n_, n_, n_, n_,
        n_, n_, n_, n_, n_, n_, b_, b_, b_, d_, d_, d_, d_, b_, b_, b_, n_, n_, n_, n_, n_, n_,
        n_, n_, n_, n_, n_, n_, b_, d_, b_, b_, b_, b_, b_, b_, d_, b_, n_, n_, n_, n_, n_, n_,
        n_, n_, n_, n_, n_, n_, n_, d_, d_, e_, d_, d_, e_, d_, d_, n_, n_, n_, n_, n_, n_, n_,
        n_, n_, n_, n_, n_, n_, r_, r_, r_, r_, r_, r_, r_, r_, r_, r_, n_, n_, n_, n_, n_, n_,
        n_, n_, n_, n_, n_, r_, r_, m_, r_, r_, r_, r_, r_, r_, m_, r_, r_, n_, n_, n_, n_, n_,
        x_, w_, x_, w_, b_, d_, r_, r_, r_, r_, r_, r_, r_, r_, r_, r_, d_, b_, n_, n_, n_, n_,
        n_, n_, n_, n_, n_, e_, r_, r_, r_, r_, r_, r_, r_, r_, r_, r_, e_, n_, n_, n_, n_, n_,
        n_, n_, n_, n_, n_, n_, r_, r_, r_, m_, r_, r_, m_, r_, r_, r_, n_, n_, n_, n_, n_, n_,
        n_, n_, n_, n_, n_, n_, r_, r_, r_, r_, r_, r_, r_, r_, r_, r_, n_, n_, n_, n_, n_, n_,
        n_, n_, n_, n_, n_, n_, m_, r_, r_, r_, r_, r_, r_, r_, r_, m_, n_, n_, n_, n_, n_, n_,
        n_, n_, n_, n_, n_, n_, n_, r_, r_, m_, r_, r_, m_, r_, r_, n_, n_, n_, n_, n_, n_, n_,
        n_, n_, n_, n_, n_, n_, n_, m_, r_, r_, r_, r_, r_, r_, m_, n_, n_, n_, n_, n_, n_, n_,
        n_, n_, n_, n_, n_, n_, n_, d_, b_, d_, n_, n_, d_, b_, d_, n_, n_, n_, n_, n_, n_, n_,
        n_, n_, n_, n_, n_, n_, n_, d_, b_, d_, n_, n_, d_, b_, d_, n_, n_, n_, n_, n_, n_, n_,
        n_, n_, n_, n_, n_, n_, n_, d_, b_, d_, n_, n_, d_, b_, d_, n_, n_, n_, n_, n_, n_, n_,
        n_, n_, n_, n_, n_, n_, n_, e_, b_, e_, n_, n_, e_, b_, e_, n_, n_, n_, n_, n_, n_, n_,
        n_, n_, n_, n_, n_, n_, e_, e_, b_, e_, e_, e_, e_, b_, e_, e_, n_, n_, n_, n_, n_, n_,
        n_, n_, n_, n_, n_, n_, e_, e_, e_, e_, e_, e_, e_, e_, e_, e_, n_, n_, n_, n_, n_, n_,
    ]
}

/// The Bone King, sweep, 22x24.
pub fn bone_king_sweep() -> (s: SpriteData)
    ensures
        s.wf(),
        s.width == 22,
        s.height == 24,
        s.pixels@ == bone_king_sweep_pixels(),
{
    SpriteData::new(22, 24, &[
        None, None, None, None, None, None, None, Some([200, 160, 30]), Some([255, 200, 50]), Some([255, 200, 50]), Some([255, 200, 50]), Some([255, 200, 50]), Some([255, 200, 50]), Some([255, 200, 50]), Some([200, 160, 30]), None, None, None, None, None, None, None,
        None, None, None, None, None, None, None, Some([255, 200, 50]), Some([255, 200, 50]), Some([200, 160, 30]), Some([255, 200, 50]), Some([255, 200, 50]), Some([200, 160, 30]), Some([255, 200, 50]), Some([255, 200, 50]), None, None, None, None, None, None, None,
        None, None, None, None, None, None, None, Some([200, 160, 30]), Some([255, 200, 50]), Some([255, 200, 50]), Some([255, 200, 50]), Some([255, 200, 50]), Some([255, 200, 50]), Some([255, 200, 50]), Some([200, 160, 30]), None, None, None, None, None, None, None,
        None, None, None, None, None, None, Some([230, 220, 200]), Some([230, 220, 200]), Some([230, 220, 200]), Some([230, 220, 200]), Some([230, 220, 200]), Some([230, 220, 200]), Some([230, 220, 200]), Some([230, 220, 200]), Some([230, 220, 200]), Some([230, 220, 200]), None, None, None, None, None, None,
        None, None, None, None, None, Some([230, 220, 200]), Some([230, 220, 200]), Some([230, 220, 200]), Some([230, 220, 200]), Some([230, 220, 200]), Some([230, 220, 200]), Some([230, 220, 200]), Some([230, 220, 200]), Some([230, 220, 200]), Some([230, 220, 200]), Some([230, 220, 200]), Some([230, 220, 200]), None, None, None, None, None,
        None, None, None, None, None, Some([230, 220, 200]), Some([230, 220, 200]), Some([255, 40, 40]), Some([230, 220, 200]), Some([230, 220, 200]), Some([230, 220, 200]), Some([230, 220, 200]), Some([230, 220, 200]), Some([230, 220, 200]), Some([255, 40, 40]), Some([230, 220, 200]), Some([230, 220, 200]), None, None, None, None, None,
        None, None, None, None, None, None, Some([230, 220, 200]), Some([230, 220, 200]), Some([230, 220, 200]), Some([200, 190, 170]), Some([200, 190, 170]), Some([200, 190, 170]), Some([200, 190, 170]), Some([230, 220, 200]), Some([230, 220, 200]), Some([230, 220, 200]), None, None, None, None, None, None,
        None, None, None, None, None, None, Some([230, 220, 200]), Some([200, 190, 170]), Some([230, 220, 200]), Some([230, 220, 200]), Some([230, 220, 200]), Some([230, 220, 200]), Some([230, 220, 200]), Some([230, 220, 200]), Some([200, 190, 170]), Some([230, 220, 200]), None, None, None, None, None, None,
        None, None, None, None, None, None, None, Some([200, 190, 170]), Some([200, 190, 170]), Some([160, 150, 130]), Some([200, 190, 170]), Some([200, 190, 170]), Some([160, 150, 130]), Some([200, 190, 170]), Some([200, 190, 170]), None, None, None, None, None, None, None,
        None, None, None, None, None, None, Some([100, 20, 20]), Some([100, 20, 20]), Some([100, 20, 20]), Some([100, 20, 20]), Some([100, 20, 20]), Some([100, 20, 20]), Some([100, 20, 20]), Some([100, 20, 20]), Some([100, 20, 20]), Some([100, 20, 20]), None, None, None, None, None, None,
        None, None, None, None, None, Some([100, 20, 20]), Some([100, 20, 20]), Some([80, 15, 15]), Some([100, 20, 20]), Some([100, 20, 20]), Some([100, 20, 20]), Some([100, 20, 20]), Some([100, 20, 20]), Some([100, 20, 20]), Some([80, 15, 15]), Some([100, 20, 20]), Some([100, 20, 20]), None, None, None, None, None,
        Some([220, 215, 205]), Some([190, 185, 175]), Some([220, 215, 205]), Some([190, 185, 175]), Some([230, 220, 200]), Some([200, 190, 170]), Some([100, 20, 20]), Some([100, 20, 20]), Some([100, 20, 20]), Some([100, 20, 20]), Some([100, 20, 20]), Some([100, 20, 20]), Some([100, 20, 20]), Some([100, 20, 20]), Some([100, 20, 20]), Some([100, 20, 20]), Some([200, 190, 170]), Some([230, 220, 200]), None, None, None, None,
        None, None, None, None, None, Some([160, 150, 130]), Some([100, 20, 20]), Some([100, 20, 20]), Some([100, 20, 20]), Some([100, 20, 20]), Some([100, 20, 20]), Some([100, 20, 20]), Some([100, 20, 20]), Some([100, 20, 20]), Some([100, 20, 20]), Some([100, 20, 20]), Some([160, 150, 130]), None, None, None, None, None,
        None, None, None, None, None, None, Some([100, 20, 20]), Some([100, 20, 20]), Some([100, 20, 20]), Some([80, 15, 15]), Some([100, 20, 20]), Some([100, 20, 20]), Some([80, 15, 15]), Some([100, 20, 20]), Some([100, 20, 20]), Some([100, 20, 20]), None, None, None, None, None, None,
        None, None, None, None, None, None, Some([100, 20, 20]), Some([100, 20, 20]), Some([100, 20, 20]), Some([100, 20, 20]), Some([100, 20, 20]), Some([100, 20, 20]), Some([100, 20, 20]), Some([100, 20, 20]), Some([100, 20, 20]), Some([100, 20, 20]), None, None, None, None, None, None,
        None, None, None, None, None, None, Some([80, 15, 15]), Some([100, 20, 20]), Some([100, 20, 20]), Some([100, 20, 20]), Some([100, 20, 20]), Some([100, 20, 20]), Some([100, 20, 20]), Some([100, 20, 20]), Some([100, 20, 20]), Some([80, 15, 15]), None, None, None, None, None, None,
        None, None, None, None, None, None, None, Some([100, 20, 20]), Some([100, 20, 20]), Some([80, 15, 15]), Some([100, 20, 20]), Some([100, 20, 20]), Some([80, 15, 15]), Some([100, 20, 20]), Some([100, 20, 20]), None, None, None, None, None, None, None,
        None, None, None, None, None, None, None, Some([80, 15, 15]), Some([100, 20, 20]), Some([100, 20, 20]), Some([100, 20, 20]), Some([100, 20, 20]), Some([100, 20, 20]), Some([100, 20, 20]), Some([80, 15, 15]), None, None, None, None, None, None, None,
        None, None, None, None, None, None, None, Some([200, 190, 170]), Some([230, 220, 200]), Some([200, 190, 170]), None, None, Some([200, 190, 170]), Some([230, 220, 200]), Some([200, 190, 170]), None, None, None, None, None, None, None,
        None, None, None, None, None, None, None, Some([200, 190, 170]), Some([230, 220, 200]), Some([200, 190, 170]), None, None, Some([200, 190, 170]), Some([230, 220, 200]), Some([200, 190, 170]), None, None, None, None, None, None, None,
        None, None, None, None, None, None, None, Some([200, 190, 170]), Some([230, 220, 200]), Some([200, 190, 170]), None, None, Some([200, 190, 170]), Some([230, 220, 200]), Some([200, 190, 170]), None, None, None, None, None, None, None,
        None, None, None, None, None, None, None, Some([160, 150, 130]), Some([230, 220, 200]), Some([160, 150, 130]), None, None, Some([160, 150, 130]), Some([230, 220, 200]), Some([160, 150, 130]), None, None, None, None, None, None, None,
        None, None, None, None, None, None, Some([160, 150, 130]), Some([160, 150, 130]), Some([230, 220, 200]), Some([160, 150, 130]), Some([160, 150, 130]), Some([160, 150, 130]), Some([160, 150, 130]), Some([230, 220, 200]), Some([160, 150, 130]), Some([160, 150, 130]), None, None, None, None, None, None,
        None, None, None, None, None, None, Some([160, 150, 130]), Some([160, 150, 130]), Some([160, 150, 130]), Some([160, 150, 130]), Some([160, 150, 130]), Some([160, 150, 130]), Some([160, 150, 130]), Some([160, 150, 130]), Some([160, 150, 130]), Some([160, 150, 130]), None, None, None, None, None, None,
    ])
}

/// Pixels of the Bone King, charge, row-major.
pub open spec fn bone_king_charge_pixels() -> Seq<Option<Color>> {
    let b_ = Some([230u8, 220, 200]);
    let d_ = Some([200u8, 190, 170]);
    let e_ = Some([160u8, 150, 130]);
    let f_ = Some([255u8, 40, 40]);
    let g_ = Some([255u8, 200, 50]);
    let k_ = Some([200u8, 160, 30]);
    let m_ = Some([80u8, 15, 15]);
    let n_ = None::<Color>;
    let r_ = Some([100u8, 20, 20]);
    let w_ = Some([190u8, 185, 175]);
    let x_ = Some([220u8, 215, 205]);
    seq![
        n_, n_, n_, n_, n_, n_, n_, n_, n_, n_, n_, n_, n_, n_, n_, n_, n_, n_, n_, n_,
        n_, n_, n_, n_, n_, n_, n_, n_, k_, g_, g_, g_, g_, k_, n_, n_, n_, n_, n_, n_,
        n_, n_, n_, n_, n_, n_, n_, n_, g_, g_, k_, g_, k_, g_, g_, n_, n_, n_, n_, n_,
        n_, n_, n_, n_, n_, n_, n_, k_, g_, g_, g_, g_, g_, g_, k_, n_, n_, n_, n_, n_,
        n_, n_, n_, n_, n_, n_, n_, b_, b_, b_, b_, b_, b_, b_, b_, b_, n_, n_, n_, n_,
        n_, n_, n_, n_, n_, n_, b_, b_, b_, b_, b_, b_, b_, b_, b_, b_, b_, n_, n_, n_,
        n_, n_, n_, n_, n_, n_, b_, b_, f_, b_, b_, b_, b_, b_, f_, b_, b_, n_, n_, n_,
        n_, n_, n_, n_, n_, n_, n_, b_, b_, d_, d_, d_, d_, b_, b_, n_, n_, n_, n_, n_,
        n_, n_, n_, n_, n_, n_, n_, b_, d_, b_, b_, b_, b_, d_, b_, n_, n_, n_, n_, n_,
        n_, n_, n_, n_, n_, n_, r_, r_, r_, r_, r_, r_, r_, r_, r_, r_, n_, n_, n_, n_,
        n_, n_, n_, n_, n_, r_, r_, m_, r_, r_, r_, r_, r_, r_, m_, r_, r_, n_, n_, n_,
        n_, n_, n_, n_, b_, r_, r_, r_, r_, r_, r_, r_, r_, r_, r_, r_, b_, w_, n_, n_,
        n_, n_, n_, n_, d_, r_, r_, r_, r_, r_, r_, r_, r_, r_, r_, r_, d_, w_, n_, n_,
        n_, n_, n_, n_, n_, r_, r_, r_, m_, r_, r_, m_, r_, r_, r_, r_, n_, x_, n_, n_,
        n_, n_, n_, n_, n_, r_, r_, r_, r_, r_, r_, r_, r_, r_, r_, n_, n_, w_, n_, n_,
        n_, n_, n_, n_, n_, m_, r_, r_, r_, r_, r_, r_, r_, r_, m_, n_, n_, n_, n_, n_,
        n_, n_, n_, n_, n_, n_, r_, r_, m_, r_, r_, m_, r_, r_, n_, n_, n_, n_, n_, n_,
        n_, n_, n_, n_, n_, n_, d_, b_, d_, n_, n_, d_, b_, d_, n_, n_, n_, n_, n_, n_,
        n_, n_, n_, n_, n_, d_, b_, d_, n_, n_, n_, n_, d_, b_, d_, n_, n_, n_, n_, n_,
        n_, n_, n_, n_, n_, d_, b_, d_, n_, n_, n_, n_, d_, b_, d_, n_, n_, n_, n_, n_,
        n_, n_, n_, n_, d_, b_, d_, n_, n_, n_, n_, n_, n_, d_, b_, d_, n_, n_, n_, n_,
        n_, n_, n_, n_, e_, b_, e_, n_, n_, n_, n_, n_, n_, e_, b_, e_, n_, n_, n_, n_,
        n_, n_, n_, e_, e_, b_, e_, e_, n_, n_, n_, n_, e_, e_, b_, e_, e_, n_, n_, n_,
        n_, n_, n_, e_, e_, e_, e_, e_, n_, n_, n_, n_, e_, e_, e_, e_, e_, n_, n_, n_,
    ]
}

/// The Bone King, charge, 20x24.
pub fn bone_king_charge() -> (s: SpriteData)
    ensures
        s.wf(),
        s.width == 20,
        s.height == 24,
        s.pixels@ == bone_king_charge_pixels(),
{
    SpriteData::new(20, 24, &[
        None, None, None, None, None, None, None, None, None, None, None, None, None, None, None, None, None, None, None, None,
        None, None, None, None, None, None, None, None, Some([200, 160, 30]), Some([255, 200, 50]), Some([255, 200, 50]), Some([255, 200, 50]), Some([255, 200, 50]), Some([200, 160, 30]), None, None, None, None, None, None,
        None, None, None, None, None, None, None, None, Some([255, 200, 50]), Some([255, 200, 50]), Some([200, 160, 30]), Some([255, 200, 50]), Some([200, 160, 30]), Some([255, 200, 50]), Some([255, 200, 50]), None, None, None, None, None,
        None, None, None, None, None, None, None, Some([200, 160, 30]), Some([255, 200, 50]), Some([255, 200, 50]), Some([255, 200, 50]), Some([255, 200, 50]), Some([255, 200, 50]), Some([255, 200, 50]), Some([200, 160, 30]), None, None, None, None, None,
        None, None, None, None, None, None, None, Some([230, 220, 200]), Some([230, 220, 200]), Some([230, 220, 200]), Some([230, 220, 200]), Some([230, 220, 200]), Some([230, 220, 200]), Some([230, 220, 200]), Some([230, 220, 200]), Some([230, 220, 200]), None, None, None, None,
        None, None, None, None, None, None, Some([230, 220, 200]), Some([230, 220, 200]), Some([230, 220, 200]), Some([230, 220, 200]), Some([230, 220, 200]), Some([230, 220, 200]), Some([230, 220, 200]), Some([230, 220, 200]), Some([230, 220, 200]), Some([230, 220, 200]), Some([230, 220, 200]), None, None, None,
        None, None, None, None, None, None, Some([230, 220, 200]), Some([230, 220, 200]), Some([255, 40, 40]), Some([230, 220, 200]), Some([230, 220, 200]), Some([230, 220, 200]), Some([230, 220, 200]), Some([230, 220, 200]), Some([255, 40, 40]), Some([230, 220, 200]), Some([230, 220, 200]), None, None, None,
        None, None, None, None, None, None, None, Some([230, 220, 200]), Some([230, 220, 200]), Some([200, 190, 170]), Some([200, 190, 170]), Some([200, 190, 170]), Some([200, 190, 170]), Some([230, 220, 200]), Some([230, 220, 200]), None, None, None, None, None,
        None, None, None, None, None, None, None, Some([230, 220, 200]), Some([200, 190, 170]), Some([230, 220, 200]), Some([230, 220, 200]), Some([230, 220, 200]), Some([230, 220, 200]), Some([200, 190, 170]), Some([230, 220, 200]), None, None, None, None, None,
        None, None, None, None, None, None, Some([100, 20, 20]), Some([100, 20, 20]), Some([100, 20, 20]), Some([100, 20, 20]), Some([100, 20, 20]), Some([100, 20, 20]), Some([100, 20, 20]), Some([100, 20, 20]), Some([100, 20, 20]), Some([100, 20, 20]), None, None, None, None,
        None, None, None, None, None, Some([100, 20, 20]), Some([100, 20, 20]), Some([80, 15, 15]), Some([100, 20, 20]), Some([100, 20, 20]), Some([100, 20, 20]), Some([100, 20, 20]), Some([100, 20, 20]), Some([100, 20, 20]), Some([80, 15, 15]), Some([100, 20, 20]), Some([100, 20, 20]), None, None, None,
        None, None, None, None, Some([230, 220, 200]), Some([100, 20, 20]), Some([100, 20, 20]), Some([100, 20, 20]), Some([100, 20, 20]), Some([100, 20, 20]), Some([100, 20, 20]), Some([100, 20, 20]), Some([100, 20, 20]), Some([100, 20, 20]), Some([100, 20, 20]), Some([100, 20, 20]), Some([230, 220, 200]), Some([190, 185, 175]), None, None,
        None, None, None, None, Some([200, 190, 170]), Some([100, 20, 20]), Some([100, 20, 20]), Some([100, 20, 20]), Some([100, 20, 20]), Some([100, 20, 20]), Some([100, 20, 20]), Some([100, 20, 20]), Some([100, 20, 20]), Some([100, 20, 20]), Some([100, 20, 20]), Some([100, 20, 20]), Some([200, 190, 170]), Some([190, 185, 175]), None, None,
        None, None, None, None, None, Some([100, 20, 20]), Some([100, 20, 20]), Some([100, 20, 20]), Some([80, 15, 15]), Some([100, 20, 20]), Some([100, 20, 20]), Some([80, 15, 15]), Some([100, 20, 20]), Some([100, 20, 20]), Some([100, 20, 20]), Some([100, 20, 20]), None, Some([220, 215, 205]), None, None,
        None, None, None, None, None, Some([100, 20, 20]), Some([100, 20, 20]), Some([100, 20, 20]), Some([100, 20, 20]), Some([100, 20, 20]), Some([100, 20, 20]), Some([100, 20, 20]), Some([100, 20, 20]), Some([100, 20, 20]), Some([100, 20, 20]), None, None, Some([190, 185, 175]), None, None,
        None, None, None, None, None, Some([80, 15, 15]), Some([100, 20, 20]), Some([100, 20, 20]), Some([100, 20, 20]), Some([100, 20, 20]), Some([100, 20, 20]), Some([100, 20, 20]), Some([100, 20, 20]), Some([100, 20, 20]), Some([80, 15, 15]), None, None, None, None, None,
        None, None, None, None, None, None, Some([100, 20, 20]), Some([100, 20, 20]), Some([80, 15, 15]), Some([100, 20, 20]), Some([100, 20, 20]), Some([80, 15, 15]), Some([100, 20, 20]), Some([100, 20, 20]), None, None, None, None, None, None,
        None, None, None, None, None, None, Some([200, 190, 170]), Some([230, 220, 200]), Some([200, 190, 170]), None, None, Some([200, 190, 170]), Some([230, 220, 200]), Some([200, 190, 170]), None, None, None, None, None, None,
        None, None, None, None, None, Some([200, 190, 170]), Some([230, 220, 200]), Some([200, 190, 170]), None, None, None, None, Some([200, 190, 170]), Some([230, 220, 200]), Some([200, 190, 170]), None, None, None, None, None,
        None, None, None, None, None, Some([200, 190, 170]), Some([230, 220, 200]), Some([200, 190, 170]), None, None, None, None, Some([200, 190, 170]), Some([230, 220, 200]), Some([200, 190, 170]), None, None, None, None, None,
        None, None, None, None, Some([200, 190, 170]), Some([230, 220, 200]), Some([200, 190, 170]), None, None, None, None, None, None, Some([200, 190, 170]), Some([230, 220, 200]), Some([200, 190, 170]), None, None, None, None,
        None, None, None, None, Some([160, 150, 130]), Some([230, 220, 200]), Some([160, 150, 130]), None, None, None, None, None, None, Some([160, 150, 130]), Some([230, 220, 200]), Some([160, 150, 130]), None, None, None, None,
        None, None, None, Some([160, 150, 130]), Some([160, 150, 130]), Some([230, 220, 200]), Some([160, 150, 130]), Some([160, 150, 130]), None, None, None, None, Some([160, 150, 130]), Some([160, 150, 130]), Some([230, 220, 200]), Some([160, 150, 130]), Some([160, 150, 130]), None, None, None,
        None, None, None, Some([160, 150, 130]), Some([160, 150, 130]), Some([160, 150, 130]), Some([160, 150, 130]), Some([160, 150, 130]), None, None, None, None, Some([160, 150, 130]), Some([160, 150, 130]), Some([160, 150, 130]), Some([160, 150, 130]), Some([160, 150, 130]), None, None, None,
    ])
}

/// Pixels of the Bone King, stunned, row-major.
pub open spec fn bone_king_stunned_pixels() -> Seq<Option<Color>> {
    let b_ = Some([230u8, 220, 200]);
    let d_ = Some([200u8, 190, 170]);
    let e_ = Some([160u8, 150, 130]);
    let f_ = Some([255u8, 40, 40]);
    let g_ = Some([255u8, 200, 50]);
    let k_ = Some([200u8, 160, 30]);
    let m_ = Some([80u8, 15, 15]);
    let n_ = None::<Color>;
    let r_ = Some([100u8, 20, 20]);
    let w_ = Some([190u8, 185, 175]);
    let x_ = Some([220u8, 215, 205]);
    seq![
        n_, n_, n_, n_, n_, n_, n_, n_, g_, n_, n_, n_, g_, n_, n_, n_, n_, n_, n_, n_,
        n_, n_, n_, n_, n_, k_, g_, g_, g_, g_, g_, g_, g_, k_, n_, n_, n_, n_, n_, n_,
        n_, n_, n_, n_, n_, g_, g_, k_, g_, g_, k_, g_, g_, n_, n_, n_, n_, n_, n_, n_,
        n_, n_, n_, n_, b_, b_, b_, b_, b_, b_, b_, b_, b_, b_, n_, n_, n_, n_, n_, n_,
        n_, n_, n_, b_, b_, b_, b_, b_, b_, b_, b_, b_, b_, b_, b_, n_, n_, n_, n_, n_,
        n_, n_, n_, b_, b_, f_, b_, b_, b_, b_, b_, b_, f_, b_, b_, n_, n_, n_, n_, n_,
        n_, n_, n_, n_, b_, b_, b_, d_, d_, d_, d_, b_, b_, b_, n_, n_, n_, n_, n_, n_,
        n_, n_, n_, n_, b_, d_, b_, b_, b_, b_, b_, b_, d_, b_, n_, n_, n_, n_, n_, n_,
        n_, n_, n_, n_, n_, d_, d_, e_, d_, d_, e_, d_, d_, n_, n_, n_, n_, n_, n_, n_,
        n_, n_, n_, n_, r_, r_, r_, r_, r_, r_, r_, r_, r_, r_, n_, n_, n_, n_, n_, n_,
        n_, n_, n_, r_, r_, m_, r_, r_, r_, r_, r_, r_, m_, r_, r_, n_, n_, n_, n_, n_,
        n_, n_, b_, d_, r_, r_, r_, r_, r_, r_, r_, r_, r_, r_, d_, b_, n_, n_, n_, n_,
        n_, n_, e_, n_, r_, r_, r_, r_, r_, r_, r_, r_, r_, r_, n_, e_, n_, n_, n_, n_,
        n_, n_, n_, n_, r_, r_, r_, m_, r_, r_, m_, r_, r_, r_, n_, n_, n_, n_, n_, n_,
        n_, n_, n_, n_, n_, r_, r_, r_, r_, r_, r_, r_, r_, n_, n_, n_, w_, n_, n_, n_,
        n_, n_, n_, n_, n_, r_, r_, r_, r_, r_, r_, r_, r_, n_, n_, n_, w_, n_, n_, n_,
        n_, n_, n_, n_, n_, m_, r_, r_, m_, r_, m_, r_, r_, m_, n_, n_, x_, n_, n_, n_,
        n_, n_, n_, n_, n_, n_, d_, b_, d_, n_, d_, b_, d_, n_, n_, n_, w_, n_, n_, n_,
        n_, n_, n_, n_, n_, n_, d_, b_, d_, n_, d_, b_, d_, n_, n_, n_, n_, n_, n_, n_,
        n_, n_, n_, n_, n_, n_, d_, b_, d_, n_, d_, b_, d_, n_, n_, n_, n_, n_, n_, n_,
        n_, n_, n_, n_, n_, n_, d_, b_, d_, n_, d_, b_, d_, n_, n_, n_, n_, n_, n_, n_,
        n_, n_, n_, n_, n_, n_, e_, b_, e_, n_, e_, b_, e_, n_, n_, n_, n_, n_, n_, n_,
        n_, n_, n_, n_, n_, e_, e_, b_, e_, e_, e_, b_, e_, e_, n_, n_, n_, n_, n_, n_,
        n_, n_, n_, n_, n_, e_, e_, e_, e_, e_, e_, e_, e_, e_, n_, n_, n_, n_, n_, n_,
    ]
}

/// The Bone King, stunned, 20x24.
pub fn bone_king_stunned() -> (s: SpriteData)
    ensures
        s.wf(),
        s.width == 20,
        s.height == 24,
        s.pixels@ == bone_king_stunned_pixels(),
{
    SpriteData::new(20, 24, &[
        None, None, None, None, None, None, None, None, Some([255, 200, 50]), None, None, None, Some([255, 200, 50]), None, None, None, None, None, None, None,
        None, None, None, None, None, Some([200, 160, 30]), Some([255, 200, 50]), Some([255, 200, 50]), Some([255, 200, 50]), Some([255, 200, 50]), Some([255, 200, 50]), Some([255, 200, 50]), Some([255, 200, 50]), Some([200, 160, 30]), None, None, None, None, None, None,
        None, None, None, None, None, Some([255, 200, 50]), Some([255, 200, 50]), Some([200, 160, 30]), Some([255, 200, 50]), Some([255, 200, 50]), Some([200, 160, 30]), Some([255, 200, 50]), Some([255, 200, 50]), None, None, None, None, None, None, None,
        None, None, None, None, Some([230, 220, 200]), Some([230, 220, 200]), Some([230, 220, 200]), Some([230, 220, 200]), Some([230, 220, 200]), Some([230, 220, 200]), Some([230, 220, 200]), Some([230, 220, 200]), Some([230, 220, 200]), Some([230, 220, 200]), None, None, None, None, None, None,
        None, None, None, Some([230, 220, 200]), Some([230, 220, 200]), Some([230, 220, 200]), Some([230, 220, 200]), Some([230, 220, 200]), Some([230, 220, 200]), Some([230, 220, 200]), Some([230, 220, 200]), Some([230, 220, 200]), Some([230, 220, 200]), Some([230, 220, 200]), Some([230, 220, 200]), None, None, None, None, None,
        None, None, None, Some([230, 220, 200]), Some([230, 220, 200]), Some([255, 40, 40]), Some([230, 220, 200]), Some([230, 220, 200]), Some([230, 220, 200]), Some([230, 220, 200]), Some([230, 220, 200]), Some([230, 220, 200]), Some([255, 40, 40]), Some([230, 220, 200]), Some([230, 220, 200]), None, None, None, None, None,
        None, None, None, None, Some([230, 220, 200]), Some([230, 220, 200]), Some([230, 220, 200]), Some([200, 190, 170]), Some([200, 190, 170]), Some([200, 190, 170]), Some([200, 190, 170]), Some([230, 220, 200]), Some([230, 220, 200]), Some([230, 220, 200]), None, None, None, None, None, None,
        None, None, None, None, Some([230, 220, 200]), Some([200, 190, 170]), Some([230, 220, 200]), Some([230, 220, 200]), Some([230, 220, 200]), Some([230, 220, 200]), Some([230, 220, 200]), Some([230, 220, 200]), Some([200, 190, 170]), Some([230, 220, 200]), None, None, None, None, None, None,
        None, None, None, None, None, Some([200, 190, 170]), Some([200, 190, 170]), Some([160, 150, 130]), Some([200, 190, 170]), Some([200, 190, 170]), Some([160, 150, 130]), Some([200, 190, 170]), Some([200, 190, 170]), None, None, None, None, None, None, None,
        None, None, None, None, Some([100, 20, 20]), Some([100, 20, 20]), Some([100, 20, 20]), Some([100, 20, 20]), Some([100, 20, 20]), Some([100, 20, 20]), Some([100, 20, 20]), Some([100, 20, 20]), Some([100, 20, 20]), Some([100, 20, 20]), None, None, None, None, None, None,
        None, None, None, Some([100, 20, 20]), Some([100, 20, 20]), Some([80, 15, 15]), Some([100, 20, 20]), Some([100, 20, 20]), Some([100, 20, 20]), Some([100, 20, 20]), Some([100, 20, 20]), Some([100, 20, 20]), Some([80, 15, 15]), Some([100, 20, 20]), Some([100, 20, 20]), None, None, None, None, None,
        None, None, Some([230, 220, 200]), Some([200, 190, 170]), Some([100, 20, 20]), Some([100, 20, 20]), Some([100, 20, 20]), Some([100, 20, 20]), Some([100, 20, 20]), Some([100, 20, 20]), Some([100, 20, 20]), Some([100, 20, 20]), Some([100, 20, 20]), Some([100, 20, 20]), Some([200, 190, 170]), Some([230, 220, 200]), None, None, None, None,
        None, None, Some([160, 150, 130]), None, Some([100, 20, 20]), Some([100, 20, 20]), Some([100, 20, 20]), Some([100, 20, 20]), Some([100, 20, 20]), Some([100, 20, 20]), Some([100, 20, 20]), Some([100, 20, 20]), Some([100, 20, 20]), Some([100, 20, 20]), None, Some([160, 150, 130]), None, None, None, None,
        None, None, None, None, Some([100, 20, 20]), Some([100, 20, 20]), Some([100, 20, 20]), Some([80, 15, 15]), Some([100, 20, 20]), Some([100, 20, 20]), Some([80, 15, 15]), Some([100, 20, 20]), Some([100, 20, 20]), Some([100, 20, 20]), None, None, None, None, None, None,
        None, None, None, None, None, Some([100, 20, 20]), Some([100, 20, 20]), Some([100, 20, 20]), Some([100, 20, 20]), Some([100, 20, 20]), Some([100, 20, 20]), Some([100, 20, 20]), Some([100, 20, 20]), None, None, None, Some([190, 185, 175]), None, None, None,
        None, None, None, None, None, Some([100, 20, 20]), Some([100, 20, 20]), Some([100, 20, 20]), Some([100, 20, 20]), Some([100, 20, 20]), Some([100, 20, 20]), Some([100, 20, 20]), Some([100, 20, 20]), None, None, None, Some([190, 185, 175]), None, None, None,
        None, None, None, None, None, Some([80, 15, 15]), Some([100, 20, 20]), Some([100, 20, 20]), Some([80, 15, 15]), Some([100, 20, 20]), Some([80, 15, 15]), Some([100, 20, 20]), Some([100, 20, 20]), Some([80, 15, 15]), None, None, Some([220, 215, 205]), None, None, None,
        None, None, None, None, None, None, Some([200, 190, 170]), Some([230, 220, 200]), Some([200, 190, 170]), None, Some([200, 190, 170]), Some([230, 220, 200]), Some([200, 190, 170]), None, None, None, Some([190, 185, 175]), None, None, None,
        None, None, None, None, None, None, Some([200, 190, 170]), Some([230, 220, 200]), Some([200, 190, 170]), None, Some([200, 190, 170]), Some([230, 220, 200]), Some([200, 190, 170]), None, None, None, None, None, None, None,
        None, None, None, None, None, None, Some([200, 190, 170]), Some([230, 220, 200]), Some([200, 190, 170]), None, Some([200, 190, 170]), Some([230, 220, 200]), Some([200, 190, 170]), None, None, None, None, None, None, None,
        None, None, None, None, None, None, Some([200, 190, 170]), Some([230, 220, 200]), Some([200, 190, 170]), None, Some([200, 190, 170]), Some([230, 220, 200]), Some([200, 190, 170]), None, None, None, None, None, None, None,
        None, None, None, None, None, None, Some([160, 150, 130]), Some([230, 220, 200]), Some([160, 150, 130]), None, Some([160, 150, 130]), Some([230, 220, 200]), Some([160, 150, 130]), None, None, None, None, None, None, None,
        None, None, None, None, None, Some([160, 150, 130]), Some([160, 150, 130]), Some([230, 220, 200]), Some([160, 150, 130]), Some([160, 150, 130]), Some([160, 150, 130]), Some([230, 220, 200]), Some([160, 150, 130]), Some([160, 150, 130]), None, None, None, None, None, None,
        None, None, None, None, None, Some([160, 150, 130]), Some([160, 150, 130]), Some([160, 150, 130]), Some([160, 150, 130]), Some([160, 150, 130]), Some([160, 150, 130]), Some([160, 150, 130]), Some([160, 150, 130]), Some([160, 150, 130]), None, None, None, None, None, None,
    ])
}

/// Pixels of the Bone King, roar, row-major.
pub open spec fn bone_king_roar_pixels() -> Seq<Option<Color>> {
    let b_ = Some([230u8, 220, 200]);
    let d_ = Some([200u8, 190, 170]);
    let e_ = Some([160u8, 150, 130]);
    let f_ = Some([255u8, 40, 40]);
    let g_ = Some([255u8, 200, 50]);
    let k_ = Some([200u8, 160, 30]);
    let m_ = Some([80u8, 15, 15]);
    let n_ = None::<Color>;
    let r_ = Some([100u8, 20, 20]);
    seq![
        n_, n_, n_, n_, n_, n_, n_, g_, k_, g_, g_, k_, g_, n_, n_, n_, n_, n_, n_, n_,
        n_, n_, n_, n_, n_, n_, k_, g_, g_, g_, g_, g_, g_, k_, n_, n_, n_, n_, n_, n_,
        n_, n_, n_, n_, n_, n_, g_, g_, k_, g_, g_, k_, g_, g_, n_, n_, n_, n_, n_, n_,
        n_, n_, n_, n_, n_, b_, b_, b_, b_, b_, b_, b_, b_, b_, b_, n_, n_, n_, n_, n_,
        n_, n_, n_, n_, b_, b_, b_, b_, b_, b_, b_, b_, b_, b_, b_, b_, n_, n_, n_, n_,
        n_, n_, n_, n_, b_, b_, f_, b_, b_, b_, b_, b_, b_, f_, b_, b_, n_, n_, n_, n_,
        n_, n_, n_, n_, n_, b_, b_, d_, d_, d_, d_, d_, d_, b_, b_, n_, n_, n_, n_, n_,
        n_, n_, n_, n_, b_, d_, b_, b_, b_, b_, b_, b_, b_, b_, d_, b_, n_, n_, n_, n_,
        n_, n_, n_, n_, n_, b_, e_, e_, d_, d_, d_, d_, e_, e_, b_, n_, n_, n_, n_, n_,
        n_, n_, n_, n_, n_, n_, d_, b_, b_, e_, e_, b_, b_, d_, n_, n_, n_, n_, n_, n_,
        n_, n_, n_, n_, n_, r_, r_, r_, r_, r_, r_, r_, r_, r_, r_, n_, n_, n_, n_, n_,
        n_, n_, n_, b_, r_, r_, m_, r_, r_, r_, r_, r_, r_, m_, r_, r_, b_, n_, n_, n_,
        n_, n_, b_, d_, r_, r_, r_, r_, r_, r_, r_, r_, r_, r_, r_, r_, d_, b_, n_, n_,
        n_, n_, e_, n_, r_, r_, r_, r_, r_, r_, r_, r_, r_, r_, r_, r_, n_, e_, n_, n_,
        n_, n_, n_, n_, r_, r_, r_, r_, m_, r_, r_, m_, r_, r_, r_, r_, n_, n_, n_, n_,
        n_, n_, n_, n_, n_, r_, r_, r_, r_, r_, r_, r_, r_, r_, r_, n_, n_, n_, n_, n_,
        n_, n_, n_, n_, n_, m_, r_, r_, r_, r_, r_, r_, r_, r_, m_, n_, n_, n_, n_, n_,
        n_, n_, n_, n_, n_, n_, r_, r_, m_, r_, r_, m_, r_, r_, n_, n_, n_, n_, n_, n_,
        n_, n_, n_, n_, n_, n_, d_, b_, d_, n_, n_, d_, b_, d_, n_, n_, n_, n_, n_, n_,
        n_, n_, n_, n_, n_, n_, d_, b_, d_, n_, n_, d_, b_, d_, n_, n_, n_, n_, n_, n_,
        n_, n_, n_, n_, n_, n_, d_, b_, d_, n_, n_, d_, b_, d_, n_, n_, n_, n_, n_, n_,
        n_, n_, n_, n_, n_, n_, e_, b_, e_, n_, n_, e_, b_, e_, n_, n_, n_, n_, n_, n_,
        n_, n_, n_, n_, n_, e_, e_, b_, e_, e_, e_, e_, b_, e_, e_, n_, n_, n_, n_, n_,
        n_, n_, n_, n_, n_, e_, e_, e_, e_, e_, e_, e_, e_, e_, e_, n_, n_, n_, n_, n_,
    ]
}

/// The Bone King, roar, 20x24.
pub fn bone_king_roar() -> (s: SpriteData)
    ensures
        s.wf(),
        s.width == 20,
        s.height == 24,
        s.pixels@ == bone_king_roar_pixels(),
{
    SpriteData::new(20, 24, &[
        None, None, None, None, None, None, None, Some([255, 200, 50]), Some([200, 160, 30]), Some([255, 200, 50]), Some([255, 200, 50]), Some([200, 160, 30]), Some([255, 200, 50]), None, None, None, None, None, None, None,
        None, None, None, None, None, None, Some([200, 160, 30]), Some([255, 200, 50]), Some([255, 200, 50]), Some([255, 200, 50]), Some([255, 200, 50]), Some([255, 200, 50]), Some([255, 200, 50]), Some([200, 160, 30]), None, None, None, None, None, None,
        None, None, None, None, None, None, Some([255, 200, 50]), Some([255, 200, 50]), Some([200, 160, 30]), Some([255, 200, 50]), Some([255, 200, 50]), Some([200, 160, 30]), Some([255, 200, 50]), Some([255, 200, 50]), None, None, None, None, None, None,
        None, None, None, None, None, Some([230, 220, 200]), Some([230, 220, 200]), Some([230, 220, 200]), Some([230, 220, 200]), Some([230, 220, 200]), Some([230, 220, 200]), Some([230, 220, 200]), Some([230, 220, 200]), Some([230, 220, 200]), Some([230, 220, 200]), None, None, None, None, None,
        None, None, None, None, Some([230, 220, 200]), Some([230, 220, 200]), Some([230, 220, 200]), Some([230, 220, 200]), Some([230, 220, 200]), Some([230, 220, 200]), Some([230, 220, 200]), Some([230, 220, 200]), Some([230, 220, 200]), Some([230, 220, 200]), Some([230, 220, 200]), Some([230, 220, 200]), None, None, None, None,
        None, None, None, None, Some([230, 220, 200]), Some([230, 220, 200]), Some([255, 40, 40]), Some([230, 220, 200]), Some([230, 220, 200]), Some([230, 220, 200]), Some([230, 220, 200]), Some([230, 220, 200]), Some([230, 220, 200]), Some([255, 40, 40]), Some([230, 220, 200]), Some([230, 220, 200]), None, None, None, None,
        None, None, None, None, None, Some([230, 220, 200]), Some([230, 220, 200]), Some([200, 190, 170]), Some([200, 190, 170]), Some([200, 190, 170]), Some([200, 190, 170]), Some([200, 190, 170]), Some([200, 190, 170]), Some([230, 220, 200]), Some([230, 220, 200]), None, None, None, None, None,
        None, None, None, None, Some([230, 220, 200]), Some([200, 190, 170]), Some([230, 220, 200]), Some([230, 220, 200]), Some([230, 220, 200]), Some([230, 220, 200]), Some([230, 220, 200]), Some([230, 220, 200]), Some([230, 220, 200]), Some([230, 220, 200]), Some([200, 190, 170]), Some([230, 220, 200]), None, None, None, None,
        None, None, None, None, None, Some([230, 220, 200]), Some([160, 150, 130]), Some([160, 150, 130]), Some([200, 190, 170]), Some([200, 190, 170]), Some([200, 190, 170]), Some([200, 190, 170]), Some([160, 150, 130]), Some([160, 150, 130]), Some([230, 220, 200]), None, None, None, None, None,
        None, None, None, None, None, None, Some([200, 190, 170]), Some([230, 220, 200]), Some([230, 220, 200]), Some([160, 150, 130]), Some([160, 150, 130]), Some([230, 220, 200]), Some([230, 220, 200]), Some([200, 190, 170]), None, None, None, None, None, None,
        None, None, None, None, None, Some([100, 20, 20]), Some([100, 20, 20]), Some([100, 20, 20]), Some([100, 20, 20]), Some([100, 20, 20]), Some([100, 20, 20]), Some([100, 20, 20]), Some([100, 20, 20]), Some([100, 20, 20]), Some([100, 20, 20]), None, None, None, None, None,
        None, None, None, Some([230, 220, 200]), Some([100, 20, 20]), Some([100, 20, 20]), Some([80, 15, 15]), Some([100, 20, 20]), Some([100, 20, 20]), Some([100, 20, 20]), Some([100, 20, 20]), Some([100, 20, 20]), Some([100, 20, 20]), Some([80, 15, 15]), Some([100, 20, 20]), Some([100, 20, 20]), Some([230, 220, 200]), None, None, None,
        None, None, Some([230, 220, 200]), Some([200, 190, 170]), Some([100, 20, 20]), Some([100, 20, 20]), Some([100, 20, 20]), Some([100, 20, 20]), Some([100, 20, 20]), Some([100, 20, 20]), Some([100, 20, 20]), Some([100, 20, 20]), Some([100, 20, 20]), Some([100, 20, 20]), Some([100, 20, 20]), Some([100, 20, 20]), Some([200, 190, 170]), Some([230, 220, 200]), None, None,
        None, None, Some([160, 150, 130]), None, Some([100, 20, 20]), Some([100, 20, 20]), Some([100, 20, 20]), Some([100, 20, 20]), Some([100, 20, 20]), Some([100, 20, 20]), Some([100, 20, 20]), Some([100, 20, 20]), Some([100, 20, 20]), Some([100, 20, 20]), Some([100, 20, 20]), Some([100, 20, 20]), None, Some([160, 150, 130]), None, None,
        None, None, None, None, Some([100, 20, 20]), Some([100, 20, 20]), Some([100, 20, 20]), Some([100, 20, 20]), Some([80, 15, 15]), Some([100, 20, 20]), Some([100, 20, 20]), Some([80, 15, 15]), Some([100, 20, 20]), Some([100, 20, 20]), Some([100, 20, 20]), Some([100, 20, 20]), None, None, None, None,
        None, None, None, None, None, Some([100, 20, 20]), Some([100, 20, 20]), Some([100, 20, 20]), Some([100, 20, 20]), Some([100, 20, 20]), Some([100, 20, 20]), Some([100, 20, 20]), Some([100, 20, 20]), Some([100, 20, 20]), Some([100, 20, 20]), None, None, None, None, None,
        None, None, None, None, None, Some([80, 15, 15]), Some([100, 20, 20]), Some([100, 20, 20]), Some([100, 20, 20]), Some([100, 20, 20]), Some([100, 20, 20]), Some([100, 20, 20]), Some([100, 20, 20]), Some([100, 20, 20]), Some([80, 15, 15]), None, None, None, None, None,
        None, None, None, None, None, None, Some([100, 20, 20]), Some([100, 20, 20]), Some([80, 15, 15]), Some([100, 20, 20]), Some([100, 20, 20]), Some([80, 15, 15]), Some([100, 20, 20]), Some([100, 20, 20]), None, None, None, None, None, None,
        None, None, None, None, None, None, Some([200, 190, 170]), Some([230, 220, 200]), Some([200, 190, 170]), None, None, Some([200, 190, 170]), Some([230, 220, 200]), Some([200, 190, 170]), None, None, None, None, None, None,
        None, None, None, None, None, None, Some([200, 190, 170]), Some([230, 220, 200]), Some([200, 190, 170]), None, None, Some([200, 190, 170]), Some([230, 220, 200]), Some([200, 190, 170]), None, None, None, None, None, None,
        None, None, None, None, None, None, Some([200, 190, 170]), Some([230, 220, 200]), Some([200, 190, 170]), None, None, Some([200, 190, 170]), Some([230, 220, 200]), Some([200, 190, 170]), None, None, None, None, None, None,
        None, None, None, None, None, None, Some([160, 150, 130]), Some([230, 220, 200]), Some([160, 150, 130]), None, None, Some([160, 150, 130]), Some([230, 220, 200]), Some([160, 150, 130]), None, None, None, None, None, None,
        None, None, None, None, None, Some([160, 150, 130]), Some([160, 150, 130]), Some([230, 220, 200]), Some([160, 150, 130]), Some([160, 150, 130]), Some([160, 150, 130]), Some([160, 150, 130]), Some([230, 220, 200]), Some([160, 150, 130]), Some([160, 150, 130]), None, None, None, None, None,
        None, None, None, None, None, Some([160, 150, 130]), Some([160, 150, 130]), Some([160, 150, 130]), Some([160, 150, 130]), Some([160, 150, 130]), Some([160, 150, 130]), Some([160, 150, 130]), Some([160, 150, 130]), Some([160, 150, 130]), Some([160, 150, 130]), None, None, None, None, None,
    ])
}

} // verus!
