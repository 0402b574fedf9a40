use vstd::prelude::*;
use crate::engine::color::Color;
use crate::engine::sprite::SpriteData;

verus! {

/// Pixels of the small sword icon (red blade with silver edge), row-major.
pub open spec fn icon_sharpened_blade_pixels() -> Seq<Option<Color>> {
    let n = None::<Color>;
    let sh = Some([230u8, 230, 240]);
    let ss = Some([180u8, 190, 200]);
    let sr = Some([200u8, 50, 50]);
    let sd = Some([120u8, 30, 30]);
    seq![
        n, n, n, n, n, n, sh, n,
        n, n, n, n, n, sh, ss, n,
        n, n, n, n, ss, sr, n, n,
        n, n, n, sr, sr, n, n, n,
        n, n, sr, sr, n, n, n, n,
        n, sd, sr, n, n, n, n, n,
        sd, sd, sd, n, n, n, n, n,
        n, sd, n, n, n, n, n, n,
    ]
}

/// The small sword icon (red blade with silver edge), 8x8.
pub fn icon_sharpened_blade() -> (s: SpriteData)
    ensures
        s.wf(),
        s.width == 8,
        s.height == 8,
        s.pixels@ == icon_sharpened_blade_pixels(),
{
    SpriteData::new(8, 8, &[
        None, None, None, None, None, None, Some([230, 230, 240]), None,
        None, None, None, None, None, Some([230, 230, 240]), Some([180, 190, 200]), None,
        None, None, None, None, Some([180, 190, 200]), Some([200, 50, 50]), None, None,
        None, None, None, Some([200, 50, 50]), Some([200, 50, 50]), None, None, None,
        None, None, Some([200, 50, 50]), Some([200, 50, 50]), None, None, None, None,
        None, Some([120, 30, 30]), Some([200, 50, 50]), None, None, None, None, None,
        Some([120, 30, 30]), Some([120, 30, 30]), Some([120, 30, 30]), None, None, None, None, None,
        None, Some([120, 30, 30]), None, None, None, None, None, None,
    ])
}

/// Pixels of the angry fist icon (clenched fist, dark red), row-major.
pub open spec fn icon_berserkers_rage_pixels() -> Seq<Option<Color>> {
    let n = None::<Color>;
    let bl = Some([230u8, 50, 30]);
    let bw = Some([255u8, 200, 180]);
    let br = Some([180u8, 20, 20]);
    seq![
        n, n, bl, bl, bl, bl, n, n,
        n, bl, bw, bl, bw, bl, bl, n,
        n, bl, bl, bl, bl, bl, bl, n,
        n, bl, bl, bl, bl, bl, bl, n,
        n, n, br, br, br, br, n, n,
        n, n, br, br, br, br, n, n,
        n, n, br, br, br, br, n, n,
        n, n, n, br, br, n, n, n,
    ]
}

/// The angry fist icon (clenched fist, dark red), 8x8.
pub fn icon_berserkers_rage() -> (s: SpriteData)
    ensures
        s.wf(),
        s.width == 8,
        s.height == 8,
        s.pixels@ == icon_berserkers_rage_pixels(),
{
    SpriteData::new(8, 8, &[
        None, None, Some([230, 50, 30]), Some([230, 50, 30]), Some([230, 50, 30]), Some([230, 50, 30]), None, None,
        None, Some([230, 50, 30]), Some([255, 200, 180]), Some([230, 50, 30]), Some([255, 200, 180]), Some([230, 50, 30]), Some([230, 50, 30]), None,
        None, Some([230, 50, 30]), Some([230, 50, 30]), Some([230, 50, 30]), Some([230, 50, 30]), Some([230, 50, 30]), Some([230, 50, 30]), None,
        None, Some([230, 50, 30]), Some([230, 50, 30]), Some([230, 50, 30]), Some([230, 50, 30]), Some([230, 50, 30]), Some([230, 50, 30]), None,
        None, None, Some([180, 20, 20]), Some([180, 20, 20]), Some([180, 20, 20]), Some([180, 20, 20]), None, None,
        None, None, Some([180, 20, 20]), Some([180, 20, 20]), Some([180, 20, 20]), Some([180, 20, 20]), None, None,
        None, None, Some([180, 20, 20]), Some([180, 20, 20]), Some([180, 20, 20]), Some([180, 20, 20]), None, None,
        None, None, None, Some([180, 20, 20]), Some([180, 20, 20]), None, None, None,
    ])
}

/// Pixels of the double speed arrows icon (red/orange), row-major.
pub open spec fn icon_swift_strikes_pixels() -> Seq<Option<Color>> {
    let n = None::<Color>;
    let qy = Some([255u8, 200, 80]);
    let qo = Some([255u8, 140, 50]);
    let qr = Some([220u8, 80, 40]);
    seq![
        n, n, qy, n, n, qy, n, n,
        n, qo, qo, n, qo, qo, n, n,
        qr, qo, n, n, qo, n, n, n,
        n, qr, n, n, qr, n, n, n,
        n, qr, n, n, qr, n, n, n,
        n, n, qr, n, n, qr, n, n,
        n, n, n, n, n, n, n, n,
        n, n, n, n, n, n, n, n,
    ]
}

/// The double speed arrows icon (red/orange), 8x8.
pub fn icon_swift_strikes() -> (s: SpriteData)
    ensures
        s.wf(),
        s.width == 8,
        s.height == 8,
        s.pixels@ == icon_swift_strikes_pixels(),
{
    SpriteData::new(8, 8, &[
        None, None, Some([255, 200, 80]), None, None, Some([255, 200, 80]), None, None,
        None, Some([255, 140, 50]), Some([255, 140, 50]), None, Some([255, 140, 50]), Some([255, 140, 50]), None, None,
        Some([220, 80, 40]), Some([255, 140, 50]), None, None, Some([255, 140, 50]), None, None, None,
        None, Some([220, 80, 40]), None, None, Some([220, 80, 40]), None, None, None,
        None, Some([220, 80, 40]), None, None, Some([220, 80, 40]), None, None, None,
        None, None, Some([220, 80, 40]), None, None, Some([220, 80, 40]), None, None,
        None, None, None, None, None, None, None, None,
        None, None, None, None, None, None, None, None,
    ])
}

/// Pixels of the explosion symbol icon (red/yellow starburst), row-major.
pub open spec fn icon_killing_blow_pixels() -> Seq<Option<Color>> {
    let n = None::<Color>;
    let kr = Some([220u8, 40, 40]);
    let ko = Some([255u8, 140, 30]);
    let ky = Some([255u8, 220, 60]);
    seq![
        n, n, n, kr, n, n, n, n,
        n, kr, n, ko, n, kr, n, n,
        n, n, ko, ky, ko, n, n, n,
        kr, ko, ky, ky, ky, ko, kr, n,
        n, n, ko, ky, ko, n, n, n,
        n, kr, n, ko, n, kr, n, n,
        n, n, n, kr, n, n, n, n,
        n, n, n, n, n, n, n, n,
    ]
}

/// The explosion symbol icon (red/yellow starburst), 8x8.
pub fn icon_killing_blow() -> (s: SpriteData)
    ensures
        s.wf(),
        s.width == 8,
        s.height == 8,
        s.pixels@ == icon_killing_blow_pixels(),
{
    SpriteData::new(8, 8, &[
        None, None, None, Some([220, 40, 40]), None, None, None, None,
        None, Some([220, 40, 40]), None, Some([255, 140, 30]), None, Some([220, 40, 40]), None, None,
        None, None, Some([255, 140, 30]), Some([255, 220, 60]), Some([255, 140, 30]), None, None, None,
        Some([220, 40, 40]), Some([255, 140, 30]), Some([255, 220, 60]), Some([255, 220, 60]), Some([255, 220, 60]), Some([255, 140, 30]), Some([220, 40, 40]), None,
        None, None, Some([255, 140, 30]), Some([255, 220, 60]), Some([255, 140, 30]), None, None, None,
        None, Some([220, 40, 40]), None, Some([255, 140, 30]), None, Some([220, 40, 40]), None, None,
        None, None, None, Some([220, 40, 40]), None, None, None, None,
        None, None, None, None, None, None, None, None,
    ])
}

/// Pixels of the lightning bolt icon (yellow/white zigzag), row-major.
pub open spec fn icon_chain_lightning_pixels() -> Seq<Option<Color>> {
    let n = None::<Color>;
    let lw = Some([255u8, 255, 220]);
    let ly = Some([255u8, 255, 100]);
    let lb = Some([200u8, 200, 60]);
    seq![
        n, n, n, n, lw, ly, n, n,
        n, n, n, ly, ly, n, n, n,
        n, n, ly, lw, n, n, n, n,
        n, ly, lw, ly, ly, ly, n, n,
        n, n, n, n, lw, ly, n, n,
        n, n, n, ly, lb, n, n, n,
        n, n, lb, ly, n, n, n, n,
        n, lb, n, n, n, n, n, n,
    ]
}

/// The lightning bolt icon (yellow/white zigzag), 8x8.
pub fn icon_chain_lightning() -> (s: SpriteData)
    ensures
        s.wf(),
        s.width == 8,
        s.height == 8,
        s.pixels@ == icon_chain_lightning_pixels(),
{
    SpriteData::new(8, 8, &[
        None, None, None, None, Some([255, 255, 220]), Some([255, 255, 100]), None, None,
        None, None, None, Some([255, 255, 100]), Some([255, 255, 100]), None, None, None,
        None, None, Some([255, 255, 100]), Some([255, 255, 220]), None, None, None, None,
        None, Some([255, 255, 100]), Some([255, 255, 220]), Some([255, 255, 100]), Some([255, 255, 100]), Some([255, 255, 100]), None, None,
        None, None, None, None, Some([255, 255, 220]), Some([255, 255, 100]), None, None,
        None, None, None, Some([255, 255, 100]), Some([200, 200, 60]), None, None, None,
        None, None, Some([200, 200, 60]), Some([255, 255, 100]), None, None, None, None,
        None, Some([200, 200, 60]), None, None, None, None, None, None,
    ])
}

/// Pixels of the slash arc with projectile icon (red/cyan), row-major.
pub open spec fn icon_projectile_slash_pixels() -> Seq<Option<Color>> {
    let n = None::<Color>;
    let pr = Some([200u8, 50, 50]);
    let pw = Some([220u8, 220, 255]);
    let pc = Some([60u8, 200, 220]);
    seq![
        n, n, n, n, n, pr, pr, n,
        n, n, n, n, pr, pw, n, n,
        n, n, n, pr, pw, n, n, n,
        n, n, pr, pw, n, n, n, n,
        n, pr, pw, n, n, n, n, n,
        n, n, n, n, pc, pw, n, n,
        n, n, n, pc, pw, pc, n, n,
        n, n, n, n, pc, n, n, n,
    ]
}

/// The slash arc with projectile icon (red/cyan), 8x8.
pub fn icon_projectile_slash() -> (s: SpriteData)
    ensures
        s.wf(),
        s.width == 8,
        s.height == 8,
        s.pixels@ == icon_projectile_slash_pixels(),
{
    SpriteData::new(8, 8, &[
        None, None, None, None, None, Some([200, 50, 50]), Some([200, 50, 50]), None,
        None, None, None, None, Some([200, 50, 50]), Some([220, 220, 255]), None, None,
        None, None, None, Some([200, 50, 50]), Some([220, 220, 255]), None, None, None,
        None, None, Some([200, 50, 50]), Some([220, 220, 255]), None, None, None, None,
        None, Some([200, 50, 50]), Some([220, 220, 255]), None, None, None, None, None,
        None, None, None, None, Some([60, 200, 220]), Some([220, 220, 255]), None, None,
        None, None, None, Some([60, 200, 220]), Some([220, 220, 255]), Some([60, 200, 220]), None, None,
        None, None, None, None, Some([60, 200, 220]), None, None, None,
    ])
}

/// Pixels of the exclamation starburst icon (red/white), row-major.
pub open spec fn icon_critical_edge_pixels() -> Seq<Option<Color>> {
    let n = None::<Color>;
    let cr = Some([220u8, 40, 40]);
    let cw = Some([255u8, 255, 255]);
    let cy = Some([255u8, 220, 100]);
    seq![
        n, n, n, cr, n, n, n, n,
        n, cr, n, cw, n, cr, n, n,
        n, n, cy, cw, cy, n, n, n,
        cr, cw, cw, cy, cw, cw, cr, n,
        n, n, cy, cw, cy, n, n, n,
        n, cr, n, cw, n, cr, n, n,
        n, n, n, cr, n, n, n, n,
        n, n, n, n, n, n, n, n,
    ]
}

/// The exclamation starburst icon (red/white), 8x8.
pub fn icon_critical_edge() -> (s: SpriteData)
    ensures
        s.wf(),
        s.width == 8,
        s.height == 8,
        s.pixels@ == icon_critical_edge_pixels(),
{
    SpriteData::new(8, 8, &[
        None, None, None, Some([220, 40, 40]), None, None, None, None,
        None, Some([220, 40, 40]), None, Some([255, 255, 255]), None, Some([220, 40, 40]), None, None,
        None, None, Some([255, 220, 100]), Some([255, 255, 255]), Some([255, 220, 100]), None, None, None,
        Some([220, 40, 40]), Some([255, 255, 255]), Some([255, 255, 255]), Some([255, 220, 100]), Some([255, 255, 255]), Some([255, 255, 255]), Some([220, 40, 40]), None,
        None, None, Some([255, 220, 100]), Some([255, 255, 255]), Some([255, 220, 100]), None, None, None,
        None, Some([220, 40, 40]), None, Some([255, 255, 255]), None, Some([220, 40, 40]), None, None,
        None, None, None, Some([220, 40, 40]), None, None, None, None,
        None, None, None, None, None, None, None, None,
    ])
}

/// Pixels of the rising flame / meter icon (red/orange), row-major.
pub open spec fn icon_fury_pixels() -> Seq<Option<Color>> {
    let n = None::<Color>;
    let fy = Some([255u8, 200, 60]);
    let fo = Some([255u8, 140, 30]);
    let fr = Some([220u8, 60, 20]);
    seq![
        n, n, n, fy, n, n, n, n,
        n, n, fy, fo, n, n, n, n,
        n, n, fo, fo, fy, n, n, n,
        n, fo, fr, fo, fo, n, n, n,
        n, fr, fr, fr, fo, n, n, n,
        n, fr, fr, fr, fr, n, n, n,
        fr, fr, fr, fr, fr, fr, n, n,
        fr, fr, fr, fr, fr, fr, n, n,
    ]
}

/// The rising flame / meter icon (red/orange), 8x8.
pub fn icon_fury() -> (s: SpriteData)
    ensures
        s.wf(),
        s.width == 8,
        s.height == 8,
        s.pixels@ == icon_fury_pixels(),
{
    SpriteData::new(8, 8, &[
        None, None, None, Some([255, 200, 60]), None, None, None, None,
        None, None, Some([255, 200, 60]), Some([255, 140, 30]), None, None, None, None,
        None, None, Some([255, 140, 30]), Some([255, 140, 30]), Some([255, 200, 60]), None, None, None,
        None, Some([255, 140, 30]), Some([220, 60, 20]), Some([255, 140, 30]), Some([255, 140, 30]), None, None, None,
        None, Some([220, 60, 20]), Some([220, 60, 20]), Some([220, 60, 20]), Some([255, 140, 30]), None, None, None,
        None, Some([220, 60, 20]), Some([220, 60, 20]), Some([220, 60, 20]), Some([220, 60, 20]), None, None, None,
        Some([220, 60, 20]), Some([220, 60, 20]), Some([220, 60, 20]), Some([220, 60, 20]), Some([220, 60, 20]), Some([220, 60, 20]), None, None,
        Some([220, 60, 20]), Some([220, 60, 20]), Some([220, 60, 20]), Some([220, 60, 20]), Some([220, 60, 20]), Some([220, 60, 20]), None, None,
    ])
}

/// Pixels of the heart with + sign icon (blue/red), row-major.
pub open spec fn icon_tough_skin_pixels() -> Seq<Option<Color>> {
    let n = None::<Color>;
    let th = Some([220u8, 40, 40]);
    let tw = Some([200u8, 220, 255]);
    let tb = Some([60u8, 120, 200]);
    seq![
        n, th, th, n, th, th, n, n,
        th, th, th, th, th, th, th, n,
        th, th, tw, tw, tw, th, th, n,
        th, th, tw, tw, tw, th, th, n,
        n, th, th, tw, th, th, n, n,
        n, n, tb, th, tb, n, n, n,
        n, n, n, tb, n, n, n, n,
        n, n, n, n, n, n, n, n,
    ]
}

/// The heart with + sign icon (blue/red), 8x8.
pub fn icon_tough_skin() -> (s: SpriteData)
    ensures
        s.wf(),
        s.width == 8,
        s.height == 8,
        s.pixels@ == icon_tough_skin_pixels(),
{
    SpriteData::new(8, 8, &[
        None, Some([220, 40, 40]), Some([220, 40, 40]), None, Some([220, 40, 40]), Some([220, 40, 40]), None, None,
        Some([220, 40, 40]), Some([220, 40, 40]), Some([220, 40, 40]), Some([220, 40, 40]), Some([220, 40, 40]), Some([220, 40, 40]), Some([220, 40, 40]), None,
        Some([220, 40, 40]), Some([220, 40, 40]), Some([200, 220, 255]), Some([200, 220, 255]), Some([200, 220, 255]), Some([220, 40, 40]), Some([220, 40, 40]), None,
        Some([220, 40, 40]), Some([220, 40, 40]), Some([200, 220, 255]), Some([200, 220, 255]), Some([200, 220, 255]), Some([220, 40, 40]), Some([220, 40, 40]), None,
        None, Some([220, 40, 40]), Some([220, 40, 40]), Some([200, 220, 255]), Some([220, 40, 40]), Some([220, 40, 40]), None, None,
        None, None, Some([60, 120, 200]), Some([220, 40, 40]), Some([60, 120, 200]), None, None, None,
        None, None, None, Some([60, 120, 200]), None, None, None, None,
        None, None, None, None, None, None, None, None,
    ])
}

/// Pixels of the shield shape icon (blue/silver), row-major.
pub open spec fn icon_iron_shield_pixels() -> Seq<Option<Color>> {
    let n = None::<Color>;
    let is_ = Some([160u8, 170, 190]);
    let ih = Some([200u8, 210, 230]);
    let ib = Some([70u8, 100, 180]);
    let id = Some([40u8, 60, 120]);
    seq![
        n, is_, is_, is_, is_, is_, n, n,
        is_, ih, ib, ib, ib, ih, is_, n,
        is_, ib, ib, ih, ib, ib, is_, n,
        is_, ib, ib, ih, ib, ib, is_, n,
        is_, ib, ib, ih, ib, ib, is_, n,
        n, is_, ib, ib, ib, is_, n, n,
        n, n, id, ib, id, n, n, n,
        n, n, n, id, n, n, n, n,
    ]
}

/// The shield shape icon (blue/silver), 8x8.
pub fn icon_iron_shield() -> (s: SpriteData)
    ensures
        s.wf(),
        s.width == 8,
        s.height == 8,
        s.pixels@ == icon_iron_shield_pixels(),
{
    SpriteData::new(8, 8, &[
        None, Some([160, 170, 190]), Some([160, 170, 190]), Some([160, 170, 190]), Some([160, 170, 190]), Some([160, 170, 190]), None, None,
        Some([160, 170, 190]), Some([200, 210, 230]), Some([70, 100, 180]), Some([70, 100, 180]), Some([70, 100, 180]), Some([200, 210, 230]), Some([160, 170, 190]), None,
        Some([160, 170, 190]), Some([70, 100, 180]), Some([70, 100, 180]), Some([200, 210, 230]), Some([70, 100, 180]), Some([70, 100, 180]), Some([160, 170, 190]), None,
        Some([160, 170, 190]), Some([70, 100, 180]), Some([70, 100, 180]), Some([200, 210, 230]), Some([70, 100, 180]), Some([70, 100, 180]), Some([160, 170, 190]), None,
        Some([160, 170, 190]), Some([70, 100, 180]), Some([70, 100, 180]), Some([200, 210, 230]), Some([70, 100, 180]), Some([70, 100, 180]), Some([160, 170, 190]), None,
        None, Some([160, 170, 190]), Some([70, 100, 180]), Some([70, 100, 180]), Some([70, 100, 180]), Some([160, 170, 190]), None, None,
        None, None, Some([40, 60, 120]), Some([70, 100, 180]), Some([40, 60, 120]), None, None, None,
        None, None, None, Some([40, 60, 120]), None, None, None, None,
    ])
}

/// Pixels of the fang/heart icon (purple/red), row-major.
pub open spec fn icon_life_steal_pixels() -> Seq<Option<Color>> {
    let n = None::<Color>;
    let vr = Some([200u8, 40, 50]);
    let vp = Some([150u8, 40, 160]);
    let vw = Some([220u8, 180, 220]);
    seq![
        n, vr, vr, n, vr, vr, n, n,
        vr, vr, vr, vr, vr, vr, vr, n,
        vr, vr, vr, vr, vr, vr, vr, n,
        n, vp, vr, vr, vr, vp, n, n,
        n, n, vp, vr, vp, n, n, n,
        n, vp, n, vp, n, vp, n, n,
        vp, vw, n, n, n, vw, vp, n,
        n, n, n, n, n, n, n, n,
    ]
}

/// The fang/heart icon (purple/red), 8x8.
pub fn icon_life_steal() -> (s: SpriteData)
    ensures
        s.wf(),
        s.width == 8,
        s.height == 8,
        s.pixels@ == icon_life_steal_pixels(),
{
    SpriteData::new(8, 8, &[
        None, Some([200, 40, 50]), Some([200, 40, 50]), None, Some([200, 40, 50]), Some([200, 40, 50]), None, None,
        Some([200, 40, 50]), Some([200, 40, 50]), Some([200, 40, 50]), Some([200, 40, 50]), Some([200, 40, 50]), Some([200, 40, 50]), Some([200, 40, 50]), None,
        Some([200, 40, 50]), Some([200, 40, 50]), Some([200, 40, 50]), Some([200, 40, 50]), Some([200, 40, 50]), Some([200, 40, 50]), Some([200, 40, 50]), None,
        None, Some([150, 40, 160]), Some([200, 40, 50]), Some([200, 40, 50]), Some([200, 40, 50]), Some([150, 40, 160]), None, None,
        None, None, Some([150, 40, 160]), Some([200, 40, 50]), Some([150, 40, 160]), None, None, None,
        None, Some([150, 40, 160]), None, Some([150, 40, 160]), None, Some([150, 40, 160]), None, None,
        Some([150, 40, 160]), Some([220, 180, 220]), None, None, None, Some([220, 180, 220]), Some([150, 40, 160]), None,
        None, None, None, None, None, None, None, None,
    ])
}

/// Pixels of the hand with sparkle icon (purple/green), row-major.
pub open spec fn icon_vampiric_touch_pixels() -> Seq<Option<Color>> {
    let n = None::<Color>;
    let vg = Some([80u8, 200, 80]);
    let va = Some([140u8, 40, 160]);
    let vl = Some([180u8, 140, 200]);
    seq![
        n, n, n, n, n, n, vg, n,
        n, va, va, va, va, n, n, vg,
        n, va, vl, vl, vl, va, n, n,
        n, va, vl, va, vl, va, n, n,
        n, va, vl, vl, vl, va, vg, n,
        n, n, va, va, va, n, n, n,
        n, n, n, va, n, n, n, n,
        n, n, va, va, va, n, n, n,
    ]
}

/// The hand with sparkle icon (purple/green), 8x8.
pub fn icon_vampiric_touch() -> (s: SpriteData)
    ensures
        s.wf(),
        s.width == 8,
        s.height == 8,
        s.pixels@ == icon_vampiric_touch_pixels(),
{
    SpriteData::new(8, 8, &[
        None, None, None, None, None, None, Some([80, 200, 80]), None,
        None, Some([140, 40, 160]), Some([140, 40, 160]), Some([140, 40, 160]), Some([140, 40, 160]), None, None, Some([80, 200, 80]),
        None, Some([140, 40, 160]), Some([180, 140, 200]), Some([180, 140, 200]), Some([180, 140, 200]), Some([140, 40, 160]), None, None,
        None, Some([140, 40, 160]), Some([180, 140, 200]), Some([140, 40, 160]), Some([180, 140, 200]), Some([140, 40, 160]), None, None,
        None, Some([140, 40, 160]), Some([180, 140, 200]), Some([180, 140, 200]), Some([180, 140, 200]), Some([140, 40, 160]), Some([80, 200, 80]), None,
        None, None, Some([140, 40, 160]), Some([140, 40, 160]), Some([140, 40, 160]), None, None, None,
        None, None, None, Some([140, 40, 160]), None, None, None, None,
        None, None, Some([140, 40, 160]), Some([140, 40, 160]), Some([140, 40, 160]), None, None, None,
    ])
}

/// Pixels of the thorns/spikes radiating icon (blue/white), row-major.
pub open spec fn icon_retaliation_pixels() -> Seq<Option<Color>> {
    let n = None::<Color>;
    let rw = Some([220u8, 230, 255]);
    let rb = Some([80u8, 120, 200]);
    let rd = Some([50u8, 70, 140]);
    seq![
        n, n, n, rw, n, n, n, n,
        n, rw, n, rb, n, rw, n, n,
        n, n, rb, rb, rb, n, n, n,
        rw, rb, rb, rd, rb, rb, rw, n,
        n, n, rb, rb, rb, n, n, n,
        n, rw, n, rb, n, rw, n, n,
        n, n, n, rw, n, n, n, n,
        n, n, n, n, n, n, n, n,
    ]
}

/// The thorns/spikes radiating icon (blue/white), 8x8.
pub fn icon_retaliation() -> (s: SpriteData)
    ensures
        s.wf(),
        s.width == 8,
        s.height == 8,
        s.pixels@ == icon_retaliation_pixels(),
{
    SpriteData::new(8, 8, &[
        None, None, None, Some([220, 230, 255]), None, None, None, None,
        None, Some([220, 230, 255]), None, Some([80, 120, 200]), None, Some([220, 230, 255]), None, None,
        None, None, Some([80, 120, 200]), Some([80, 120, 200]), Some([80, 120, 200]), None, None, None,
        Some([220, 230, 255]), Some([80, 120, 200]), Some([80, 120, 200]), Some([50, 70, 140]), Some([80, 120, 200]), Some([80, 120, 200]), Some([220, 230, 255]), None,
        None, None, Some([80, 120, 200]), Some([80, 120, 200]), Some([80, 120, 200]), None, None, None,
        None, Some([220, 230, 255]), None, Some([80, 120, 200]), None, Some([220, 230, 255]), None, None,
        None, None, None, Some([220, 230, 255]), None, None, None, None,
        None, None, None, None, None, None, None, None,
    ])
}

/// Pixels of the wind swirl icon (blue/white), row-major.
pub open spec fn icon_second_wind_pixels() -> Seq<Option<Color>> {
    let n = None::<Color>;
    let ww = Some([200u8, 220, 255]);
    let wl = Some([150u8, 190, 240]);
    let wb = Some([100u8, 160, 230]);
    seq![
        n, n, n, ww, ww, ww, n, n,
        n, n, ww, wl, n, n, ww, n,
        n, wb, n, n, n, n, wl, n,
        wb, wl, wb, n, n, wb, n, n,
        n, n, n, wb, n, n, wb, n,
        n, n, n, n, wl, n, wl, n,
        n, n, n, wb, wl, wb, n, n,
        n, n, n, n, n, n, n, n,
    ]
}

/// The wind swirl icon (blue/white), 8x8.
pub fn icon_second_wind() -> (s: SpriteData)
    ensures
        s.wf(),
        s.width == 8,
        s.height == 8,
        s.pixels@ == icon_second_wind_pixels(),
{
    SpriteData::new(8, 8, &[
        None, None, None, Some([200, 220, 255]), Some([200, 220, 255]), Some([200, 220, 255]), None, None,
        None, None, Some([200, 220, 255]), Some([150, 190, 240]), None, None, Some([200, 220, 255]), None,
        None, Some([100, 160, 230]), None, None, None, None, Some([150, 190, 240]), None,
        Some([100, 160, 230]), Some([150, 190, 240]), Some([100, 160, 230]), None, None, Some([100, 160, 230]), None, None,
        None, None, None, Some([100, 160, 230]), None, None, Some([100, 160, 230]), None,
        None, None, None, None, Some([150, 190, 240]), None, Some([150, 190, 240]), None,
        None, None, None, Some([100, 160, 230]), Some([150, 190, 240]), Some([100, 160, 230]), None, None,
        None, None, None, None, None, None, None, None,
    ])
}

/// Pixels of the boot/foot icon (green), row-major.
pub open spec fn icon_swift_feet_pixels() -> Seq<Option<Color>> {
    let n = None::<Color>;
    let mg = Some([60u8, 180, 60]);
    let mh = Some([120u8, 220, 120]);
    let md = Some([30u8, 120, 30]);
    seq![
        n, n, mg, mg, n, n, n, n,
        n, n, mg, mh, n, n, n, n,
        n, n, mg, mg, n, n, n, n,
        n, n, md, mg, n, n, n, n,
        n, n, md, mg, mg, n, n, n,
        n, n, md, mg, mg, mg, n, n,
        n, md, mg, mg, mg, mg, mg, n,
        n, md, md, md, md, md, md, n,
    ]
}

/// The boot/foot icon (green), 8x8.
pub fn icon_swift_feet() -> (s: SpriteData)
    ensures
        s.wf(),
        s.width == 8,
        s.height == 8,
        s.pixels@ == icon_swift_feet_pixels(),
{
    SpriteData::new(8, 8, &[
        None, None, Some([60, 180, 60]), Some([60, 180, 60]), None, None, None, None,
        None, None, Some([60, 180, 60]), Some([120, 220, 120]), None, None, None, None,
        None, None, Some([60, 180, 60]), Some([60, 180, 60]), None, None, None, None,
        None, None, Some([30, 120, 30]), Some([60, 180, 60]), None, None, None, None,
        None, None, Some([30, 120, 30]), Some([60, 180, 60]), Some([60, 180, 60]), None, None, None,
        None, None, Some([30, 120, 30]), Some([60, 180, 60]), Some([60, 180, 60]), Some([60, 180, 60]), None, None,
        None, Some([30, 120, 30]), Some([60, 180, 60]), Some([60, 180, 60]), Some([60, 180, 60]), Some([60, 180, 60]), Some([60, 180, 60]), None,
        None, Some([30, 120, 30]), Some([30, 120, 30]), Some([30, 120, 30]), Some([30, 120, 30]), Some([30, 120, 30]), Some([30, 120, 30]), None,
    ])
}

/// Pixels of the dash trail icon (green/cyan streaks), row-major.
pub open spec fn icon_phantom_dash_pixels() -> Seq<Option<Color>> {
    let n = None::<Color>;
    let ph = Some([140u8, 240, 220]);
    let pg = Some([60u8, 200, 180]);
    let pd = Some([30u8, 120, 100]);
    seq![
        n, n, n, n, n, n, n, n,
        n, n, n, n, n, ph, pg, n,
        n, n, n, n, pg, pg, ph, n,
        pd, pd, pg, pg, pg, ph, n, n,
        pd, pd, pg, pg, pg, ph, n, n,
        n, n, n, n, pg, pg, ph, n,
        n, n, n, n, n, ph, pg, n,
        n, n, n, n, n, n, n, n,
    ]
}

/// The dash trail icon (green/cyan streaks), 8x8.
pub fn icon_phantom_dash() -> (s: SpriteData)
    ensures
        s.wf(),
        s.width == 8,
        s.height == 8,
        s.pixels@ == icon_phantom_dash_pixels(),
{
    SpriteData::new(8, 8, &[
        None, None, None, None, None, None, None, None,
        None, None, None, None, None, Some([140, 240, 220]), Some([60, 200, 180]), None,
        None, None, None, None, Some([60, 200, 180]), Some([60, 200, 180]), Some([140, 240, 220]), None,
        Some([30, 120, 100]), Some([30, 120, 100]), Some([60, 200, 180]), Some([60, 200, 180]), Some([60, 200, 180]), Some([140, 240, 220]), None, None,
        Some([30, 120, 100]), Some([30, 120, 100]), Some([60, 200, 180]), Some([60, 200, 180]), Some([60, 200, 180]), Some([140, 240, 220]), None, None,
        None, None, None, None, Some([60, 200, 180]), Some([60, 200, 180]), Some([140, 240, 220]), None,
        None, None, None, None, None, Some([140, 240, 220]), Some([60, 200, 180]), None,
        None, None, None, None, None, None, None, None,
    ])
}

/// Pixels of the shadow figure icon (dark green/black silhouette), row-major.
pub open spec fn icon_shadow_step_pixels() -> Seq<Option<Color>> {
    let n = None::<Color>;
    let sl = Some([50u8, 130, 50]);
    let sk = Some([15u8, 15, 15]);
    let sg = Some([30u8, 80, 30]);
    seq![
        n, n, n, sl, sl, n, n, n,
        n, n, sl, sk, sk, sl, n, n,
        n, n, n, sk, sk, n, n, n,
        n, n, sk, sk, sk, sk, n, n,
        n, sg, sk, sg, sg, sk, sg, n,
        n, n, n, sk, sk, n, n, n,
        n, n, sk, n, n, sk, n, n,
        n, sg, sg, n, n, sg, sg, n,
    ]
}

/// The shadow figure icon (dark green/black silhouette), 8x8.
pub fn icon_shadow_step() -> (s: SpriteData)
    ensures
        s.wf(),
        s.width == 8,
        s.height == 8,
        s.pixels@ == icon_shadow_step_pixels(),
{
    SpriteData::new(8, 8, &[
        None, None, None, Some([50, 130, 50]), Some([50, 130, 50]), None, None, None,
        None, None, Some([50, 130, 50]), Some([15, 15, 15]), Some([15, 15, 15]), Some([50, 130, 50]), None, None,
        None, None, None, Some([15, 15, 15]), Some([15, 15, 15]), None, None, None,
        None, None, Some([15, 15, 15]), Some([15, 15, 15]), Some([15, 15, 15]), Some([15, 15, 15]), None, None,
        None, Some([30, 80, 30]), Some([15, 15, 15]), Some([30, 80, 30]), Some([30, 80, 30]), Some([15, 15, 15]), Some([30, 80, 30]), None,
        None, None, None, Some([15, 15, 15]), Some([15, 15, 15]), None, None, None,
        None, None, Some([15, 15, 15]), None, None, Some([15, 15, 15]), None, None,
        None, Some([30, 80, 30]), Some([30, 80, 30]), None, None, Some([30, 80, 30]), Some([30, 80, 30]), None,
    ])
}

/// Pixels of the boot with impact star icon (green/red), row-major.
pub open spec fn icon_dash_strike_pixels() -> Seq<Option<Color>> {
    let n = None::<Color>;
    let dy = Some([255u8, 220, 80]);
    let dg = Some([60u8, 180, 60]);
    let dr = Some([220u8, 60, 40]);
    seq![
        n, n, n, n, n, dy, n, n,
        n, n, dg, dg, n, dr, dy, n,
        n, n, dg, dg, dr, dy, dr, n,
        n, n, dg, dg, dy, dr, n, n,
        n, n, dg, dg, dr, n, n, n,
        n, dg, dg, dg, dg, dg, n, n,
        dg, dg, dg, dg, dg, dg, n, n,
        n, n, n, n, n, n, n, n,
    ]
}

/// The boot with impact star icon (green/red), 8x8.
pub fn icon_dash_strike() -> (s: SpriteData)
    ensures
        s.wf(),
        s.width == 8,
        s.height == 8,
        s.pixels@ == icon_dash_strike_pixels(),
{
    SpriteData::new(8, 8, &[
        None, None, None, None, None, Some([255, 220, 80]), None, None,
        None, None, Some([60, 180, 60]), Some([60, 180, 60]), None, Some([220, 60, 40]), Some([255, 220, 80]), None,
        None, None, Some([60, 180, 60]), Some([60, 180, 60]), Some([220, 60, 40]), Some([255, 220, 80]), Some([220, 60, 40]), None,
        None, None, Some([60, 180, 60]), Some([60, 180, 60]), Some([255, 220, 80]), Some([220, 60, 40]), None, None,
        None, None, Some([60, 180, 60]), Some([60, 180, 60]), Some([220, 60, 40]), None, None, None,
        None, Some([60, 180, 60]), Some([60, 180, 60]), Some([60, 180, 60]), Some([60, 180, 60]), Some([60, 180, 60]), None, None,
        Some([60, 180, 60]), Some([60, 180, 60]), Some([60, 180, 60]), Some([60, 180, 60]), Some([60, 180, 60]), Some([60, 180, 60]), None, None,
        None, None, None, None, None, None, None, None,
    ])
}

/// Pixels of the magnet with gold glow icon (gold/gray), row-major.
pub open spec fn icon_gold_magnet_pixels() -> Seq<Option<Color>> {
    let n = None::<Color>;
    let ga = Some([130u8, 130, 140]);
    let gg = Some([255u8, 200, 50]);
    let gd = Some([180u8, 140, 30]);
    seq![
        n, ga, ga, ga, ga, ga, n, n,
        ga, gg, ga, n, ga, gg, ga, n,
        ga, gg, ga, n, ga, gg, ga, n,
        ga, gg, n, n, n, gg, ga, n,
        n, gg, gd, n, gd, gg, n, n,
        n, n, gg, gd, gg, n, n, n,
        n, n, n, gg, n, n, n, n,
        n, n, n, n, n, n, n, n,
    ]
}

/// The magnet with gold glow icon (gold/gray), 8x8.
pub fn icon_gold_magnet() -> (s: SpriteData)
    ensures
        s.wf(),
        s.width == 8,
        s.height == 8,
        s.pixels@ == icon_gold_magnet_pixels(),
{
    SpriteData::new(8, 8, &[
        None, Some([130, 130, 140]), Some([130, 130, 140]), Some([130, 130, 140]), Some([130, 130, 140]), Some([130, 130, 140]), None, None,
        Some([130, 130, 140]), Some([255, 200, 50]), Some([130, 130, 140]), None, Some([130, 130, 140]), Some([255, 200, 50]), Some([130, 130, 140]), None,
        Some([130, 130, 140]), Some([255, 200, 50]), Some([130, 130, 140]), None, Some([130, 130, 140]), Some([255, 200, 50]), Some([130, 130, 140]), None,
        Some([130, 130, 140]), Some([255, 200, 50]), None, None, None, Some([255, 200, 50]), Some([130, 130, 140]), None,
        None, Some([255, 200, 50]), Some([180, 140, 30]), None, Some([180, 140, 30]), Some([255, 200, 50]), None, None,
        None, None, Some([255, 200, 50]), Some([180, 140, 30]), Some([255, 200, 50]), None, None, None,
        None, None, None, Some([255, 200, 50]), None, None, None, None,
        None, None, None, None, None, None, None, None,
    ])
}

/// Pixels of the four-leaf clover icon (gold/green), row-major.
pub open spec fn icon_lucky_pixels() -> Seq<Option<Color>> {
    let n = None::<Color>;
    let ue = Some([80u8, 180, 60]);
    let uh = Some([120u8, 220, 80]);
    let ug = Some([255u8, 210, 60]);
    seq![
        n, n, ue, ue, n, ue, ue, n,
        n, ue, uh, ue, ue, uh, ue, n,
        n, ue, ue, ue, ue, ue, ue, n,
        n, n, ue, ug, ug, ue, n, n,
        n, ue, ue, ug, ug, ue, ue, n,
        n, ue, uh, ue, ue, uh, ue, n,
        n, n, ue, ue, ue, ue, n, n,
        n, n, n, ue, n, n, n, n,
    ]
}

/// The four-leaf clover icon (gold/green), 8x8.
pub fn icon_lucky() -> (s: SpriteData)
    ensures
        s.wf(),
        s.width == 8,
        s.height == 8,
        s.pixels@ == icon_lucky_pixels(),
{
    SpriteData::new(8, 8, &[
        None, None, Some([80, 180, 60]), Some([80, 180, 60]), None, Some([80, 180, 60]), Some([80, 180, 60]), None,
        None, Some([80, 180, 60]), Some([120, 220, 80]), Some([80, 180, 60]), Some([80, 180, 60]), Some([120, 220, 80]), Some([80, 180, 60]), None,
        None, Some([80, 180, 60]), Some([80, 180, 60]), Some([80, 180, 60]), Some([80, 180, 60]), Some([80, 180, 60]), Some([80, 180, 60]), None,
        None, None, Some([80, 180, 60]), Some([255, 210, 60]), Some([255, 210, 60]), Some([80, 180, 60]), None, None,
        None, Some([80, 180, 60]), Some([80, 180, 60]), Some([255, 210, 60]), Some([255, 210, 60]), Some([80, 180, 60]), Some([80, 180, 60]), None,
        None, Some([80, 180, 60]), Some([120, 220, 80]), Some([80, 180, 60]), Some([80, 180, 60]), Some([120, 220, 80]), Some([80, 180, 60]), None,
        None, None, Some([80, 180, 60]), Some([80, 180, 60]), Some([80, 180, 60]), Some([80, 180, 60]), None, None,
        None, None, None, Some([80, 180, 60]), None, None, None, None,
    ])
}

/// Pixels of the eye/compass icon (gold/blue), row-major.
pub open spec fn icon_treasure_sense_pixels() -> Seq<Option<Color>> {
    let n = None::<Color>;
    let tg = Some([255u8, 200, 50]);
    let te = Some([60u8, 100, 180]);
    let ti = Some([255u8, 240, 120]);
    seq![
        n, n, n, n, n, n, n, n,
        n, n, tg, tg, tg, n, n, n,
        n, tg, te, te, te, tg, n, n,
        tg, te, te, ti, te, te, tg, n,
        tg, te, ti, tg, ti, te, tg, n,
        n, tg, te, te, te, tg, n, n,
        n, n, tg, tg, tg, n, n, n,
        n, n, n, n, n, n, n, n,
    ]
}

/// The eye/compass icon (gold/blue), 8x8.
pub fn icon_treasure_sense() -> (s: SpriteData)
    ensures
        s.wf(),
        s.width == 8,
        s.height == 8,
        s.pixels@ == icon_treasure_sense_pixels(),
{
    SpriteData::new(8, 8, &[
        None, None, None, None, None, None, None, None,
        None, None, Some([255, 200, 50]), Some([255, 200, 50]), Some([255, 200, 50]), None, None, None,
        None, Some([255, 200, 50]), Some([60, 100, 180]), Some([60, 100, 180]), Some([60, 100, 180]), Some([255, 200, 50]), None, None,
        Some([255, 200, 50]), Some([60, 100, 180]), Some([60, 100, 180]), Some([255, 240, 120]), Some([60, 100, 180]), Some([60, 100, 180]), Some([255, 200, 50]), None,
        Some([255, 200, 50]), Some([60, 100, 180]), Some([255, 240, 120]), Some([255, 200, 50]), Some([255, 240, 120]), Some([60, 100, 180]), Some([255, 200, 50]), None,
        None, Some([255, 200, 50]), Some([60, 100, 180]), Some([60, 100, 180]), Some([60, 100, 180]), Some([255, 200, 50]), None, None,
        None, None, Some([255, 200, 50]), Some([255, 200, 50]), Some([255, 200, 50]), None, None, None,
        None, None, None, None, None, None, None, None,
    ])
}

/// Pixels of the skull icon (gold/dark red), row-major.
pub open spec fn icon_deaths_bargain_pixels() -> Seq<Option<Color>> {
    let n = None::<Color>;
    let dk = Some([200u8, 180, 50]);
    let dw = Some([240u8, 220, 140]);
    let dd = Some([120u8, 20, 20]);
    seq![
        n, n, dk, dk, dk, dk, n, n,
        n, dk, dw, dk, dk, dw, dk, n,
        n, dk, dk, dk, dk, dk, dk, n,
        n, dk, dd, dk, dd, dk, dk, n,
        n, dk, dd, dk, dd, dk, dk, n,
        n, n, dk, dk, dk, dk, n, n,
        n, n, dk, dd, dd, dk, n, n,
        n, n, n, dk, dk, n, n, n,
    ]
}

/// The skull icon (gold/dark red), 8x8.
pub fn icon_deaths_bargain() -> (s: SpriteData)
    ensures
        s.wf(),
        s.width == 8,
        s.height == 8,
        s.pixels@ == icon_deaths_bargain_pixels(),
{
    SpriteData::new(8, 8, &[
        None, None, Some([200, 180, 50]), Some([200, 180, 50]), Some([200, 180, 50]), Some([200, 180, 50]), None, None,
        None, Some([200, 180, 50]), Some([240, 220, 140]), Some([200, 180, 50]), Some([200, 180, 50]), Some([240, 220, 140]), Some([200, 180, 50]), None,
        None, Some([200, 180, 50]), Some([200, 180, 50]), Some([200, 180, 50]), Some([200, 180, 50]), Some([200, 180, 50]), Some([200, 180, 50]), None,
        None, Some([200, 180, 50]), Some([120, 20, 20]), Some([200, 180, 50]), Some([120, 20, 20]), Some([200, 180, 50]), Some([200, 180, 50]), None,
        None, Some([200, 180, 50]), Some([120, 20, 20]), Some([200, 180, 50]), Some([120, 20, 20]), Some([200, 180, 50]), Some([200, 180, 50]), None,
        None, None, Some([200, 180, 50]), Some([200, 180, 50]), Some([200, 180, 50]), Some([200, 180, 50]), None, None,
        None, None, Some([200, 180, 50]), Some([120, 20, 20]), Some([120, 20, 20]), Some([200, 180, 50]), None, None,
        None, None, None, Some([200, 180, 50]), Some([200, 180, 50]), None, None, None,
    ])
}

} // verus!
