//! What the camera overlay shows.
//!
//! The controller decides what is drawn over the camera image and where;
//! drawing it, and wording the texts, is left to the renderer. The plan is a
//! list of items, to be drawn in order.

use crate::config::{Config, ControllerMode, GimbalTrackingRect};
use crate::fixed::{clamped, fx_clamp, fx_mul, fx_product, ONE};
use crate::message::CameraDetectedObject;
use crate::state::ControllerState;
use crate::vector::{
    rect_area, rect_area_of, rect_bottomleft, rect_bottomleft_of, rect_intersect,
    rect_intersection, rect_offset, rect_offset_by, rect_topleft, rect_topleft_of, v2_len,
    v2_length,
};
use vstd::prelude::*;

verus! {

/// One thing to draw.
#[derive(Clone, Copy, Debug, PartialEq)]
pub enum OverlayItem {
    /// The outline of a rectangle.
    Outline { rect: [i64; 4], color: [i64; 4], thickness: i64 },
    /// A filled rectangle.
    Solid { rect: [i64; 4], color: [i64; 4] },
    /// The controller's mode and the gimbal's state, as text.
    DebugText { position: [i64; 2], anchor: [i64; 2], color: [i64; 4], height: i64 },
    /// The label of detection number `object`, with its probability where
    /// `with_prob` says so, in a box.
    ObjectLabel {
        position: [i64; 2],
        anchor: [i64; 2],
        object: usize,
        with_prob: bool,
        color: [i64; 4],
        background: [i64; 4],
        height: i64,
    },
    /// Quality, age and area of the tracked region, in a box.
    RegionLabel {
        position: [i64; 2],
        anchor: [i64; 2],
        psr: i64,
        age: u32,
        area: i64,
        color: [i64; 4],
        background: [i64; 4],
        height: i64,
    },
}

/// Where the debug text stands: the top left corner of a 16:9 image.
pub open spec fn debug_text_position() -> [i64; 2] {
    [(-ONE) as i64, -562_500i64]
}

/// While halted, the border is outlined in the halt colour, inside the
/// border by the thickness of the line.
pub open spec fn halt_items(config: &Config) -> Seq<OverlayItem> {
    if config.mode == ControllerMode::Halted {
        seq![
            OverlayItem::Outline {
                rect: rect_offset_by(
                    config.vision.border_rect,
                    crate::fixed::fx_negated(config.overlay.border_thickness),
                ),
                color: config.overlay.halt_color,
                thickness: config.overlay.border_thickness,
            },
        ]
    } else {
        Seq::<OverlayItem>::empty()
    }
}

/// The debug text.
pub open spec fn debug_item(config: &Config) -> OverlayItem {
    OverlayItem::DebugText {
        position: debug_text_position(),
        anchor: [0i64, 0i64],
        color: config.overlay.debug_color,
        height: config.overlay.debug_text_height,
    }
}

/// How thick the outline of a detection of probability `prob` is.
pub open spec fn detection_thickness(config: &Config, prob: i64) -> i64 {
    fx_product(prob, config.overlay.detector_outline_max_thickness)
}

/// What is drawn for detection number `index`: nothing below the least
/// probability for outlines; else an outline, the thicker the more probable;
/// and from the least probability for labels on, its label above the top
/// left corner of the outline.
pub open spec fn detection_items(config: &Config, obj: CameraDetectedObject, index: usize) -> Seq<
    OverlayItem,
> {
    if obj.prob >= config.overlay.detector_outline_min_prob {
        let thickness = detection_thickness(config, obj.prob);
        let outline = seq![
            OverlayItem::Outline {
                rect: obj.rect,
                color: config.overlay.detector_default_outline_color,
                thickness,
            },
        ];
        if obj.prob >= config.overlay.detector_label_min_prob {
            outline.push(
                OverlayItem::ObjectLabel {
                    position: rect_topleft_of(rect_offset_by(obj.rect, thickness)),
                    anchor: [0i64, ONE],
                    object: index,
                    with_prob: config.overlay.detector_label_prob_values,
                    color: config.overlay.label_color,
                    background: config.overlay.label_background_color,
                    height: config.overlay.label_text_size,
                },
            )
        } else {
            outline
        }
    } else {
        Seq::<OverlayItem>::empty()
    }
}

/// What is drawn for the first `n` detections.
pub open spec fn detections_items(config: &Config, objs: Seq<CameraDetectedObject>, n: int) -> Seq<
    OverlayItem,
>
    decreases n,
{
    if n <= 0 {
        Seq::<OverlayItem>::empty()
    } else {
        detections_items(config, objs, n - 1) + detection_items(
            config,
            objs[n - 1],
            (n - 1) as usize,
        )
    }
}

/// What is drawn for the tracked region: nothing while it is empty; its
/// outline in the manual colour while the manual controls steer the camera;
/// else its outline in the default colour and, below its bottom left corner,
/// its label.
pub open spec fn region_items(state: &ControllerState, config: &Config) -> Seq<OverlayItem> {
    let region = state.region;
    let thickness = config.overlay.tracked_region_outline_thickness;
    if region.rect[2] <= 0 || region.rect[3] <= 0 {
        Seq::<OverlayItem>::empty()
    } else if state.manual_active() {
        seq![
            OverlayItem::Outline {
                rect: region.rect,
                color: config.overlay.tracked_region_manual_color,
                thickness,
            },
        ]
    } else {
        seq![
            OverlayItem::Outline {
                rect: region.rect,
                color: config.overlay.tracked_region_default_color,
                thickness,
            },
            OverlayItem::RegionLabel {
                position: rect_bottomleft_of(rect_offset_by(region.rect, thickness)),
                anchor: [0i64, 0i64],
                psr: region.psr,
                age: region.age,
                area: rect_area_of(region.rect),
                color: config.overlay.label_color,
                background: config.overlay.label_background_color,
                height: config.overlay.label_text_size,
            },
        ]
    }
}

/// How opaque a gimbal tracking region is drawn: the configured alpha
/// times the length of the region's gain, times the area in which the
/// tracked rectangle overlaps the region, scaled by the sensitivity and
/// limited to 0..1.
pub open spec fn gain_alpha(config: &Config, region_rect: [i64; 4], tr: GimbalTrackingRect) -> i64 {
    fx_product(
        fx_product(config.overlay.gimbal_tracking_rect_color[3], v2_length(tr.gain)),
        clamped(
            fx_product(
                rect_area_of(rect_intersection(region_rect, tr.rect)),
                config.overlay.gimbal_tracking_rect_sensitivity,
            ),
            0,
            ONE,
        ),
    )
}

/// The filled rectangle that shows one gimbal tracking region.
pub open spec fn gain_item(config: &Config, region_rect: [i64; 4], tr: GimbalTrackingRect) -> OverlayItem {
    let c = config.overlay.gimbal_tracking_rect_color;
    OverlayItem::Solid { rect: tr.rect, color: [c[0], c[1], c[2], gain_alpha(config, region_rect, tr)] }
}

/// What is drawn for the first `n` gimbal tracking regions: nothing at all
/// unless their colour is visible.
pub open spec fn gain_items(
    config: &Config,
    region_rect: [i64; 4],
    rects: Seq<GimbalTrackingRect>,
    n: int,
) -> Seq<OverlayItem>
    decreases n,
{
    if n <= 0 || config.overlay.gimbal_tracking_rect_color[3] <= 0 {
        Seq::<OverlayItem>::empty()
    } else {
        gain_items(config, region_rect, rects, n - 1).push(
            gain_item(config, region_rect, rects[n - 1]),
        )
    }
}

/// Everything that the overlay shows, in drawing order.
pub open spec fn overlay_plan(state: &ControllerState, config: &Config) -> Seq<OverlayItem> {
    halt_items(config).push(debug_item(config)) + detections_items(
        config,
        state.detected.objects@,
        state.detected.objects@.len() as int,
    ) + region_items(state, config) + gain_items(
        config,
        state.region.rect,
        config.gimbal.tracking_rects@,
        config.gimbal.tracking_rects@.len() as int,
    )
}

fn draw_detection(items: &mut Vec<OverlayItem>, config: &Config, obj: &CameraDetectedObject, index: usize)
    ensures
        final(items)@ == old(items)@ + detection_items(config, *obj, index),
{
    if obj.prob >= config.overlay.detector_outline_min_prob {
        let thickness = fx_mul(obj.prob, config.overlay.detector_outline_max_thickness);
        items.push(
            OverlayItem::Outline {
                rect: obj.rect,
                color: config.overlay.detector_default_outline_color,
                thickness,
            },
        );
        let outer_rect = rect_offset(obj.rect, thickness);
        if obj.prob >= config.overlay.detector_label_min_prob {
            let anchor = [0, ONE];
            assert(anchor@ =~= seq![0i64, ONE]);
            assert(anchor == [0i64, ONE]);
            items.push(
                OverlayItem::ObjectLabel {
                    position: rect_topleft(outer_rect),
                    anchor,
                    object: index,
                    with_prob: config.overlay.detector_label_prob_values,
                    color: config.overlay.label_color,
                    background: config.overlay.label_background_color,
                    height: config.overlay.label_text_size,
                },
            );
        }
    }
    assert(items@ =~= old(items)@ + detection_items(config, *obj, index));
}

fn draw_region(items: &mut Vec<OverlayItem>, state: &ControllerState, config: &Config)
    ensures
        final(items)@ == old(items)@ + region_items(state, config),
{
    if !state.region.is_empty() {
        let thickness = config.overlay.tracked_region_outline_thickness;
        if state.manual.camera_control_active() {
            items.push(
                OverlayItem::Outline {
                    rect: state.region.rect,
                    color: config.overlay.tracked_region_manual_color,
                    thickness,
                },
            );
        } else {
            items.push(
                OverlayItem::Outline {
                    rect: state.region.rect,
                    color: config.overlay.tracked_region_default_color,
                    thickness,
                },
            );
            let outer_rect = rect_offset(state.region.rect, thickness);
            let anchor = [0, 0];
            assert(anchor == [0i64, 0i64]) by {
                assert(anchor@ =~= seq![0i64, 0i64]);
            }
            items.push(
                OverlayItem::RegionLabel {
                    position: rect_bottomleft(outer_rect),
                    anchor,
                    psr: state.region.psr,
                    age: state.region.age,
                    area: rect_area(state.region.rect),
                    color: config.overlay.label_color,
                    background: config.overlay.label_background_color,
                    height: config.overlay.label_text_size,
                },
            );
        }
    }
    assert(items@ =~= old(items)@ + region_items(state, config));
}

fn draw_gain(config: &Config, region_rect: [i64; 4], tr: &GimbalTrackingRect) -> (item: OverlayItem)
    ensures
        item == gain_item(config, region_rect, *tr),
{
    let overlap = rect_intersect(region_rect, tr.rect);
    let area = rect_area(overlap);
    let c = config.overlay.gimbal_tracking_rect_color;
    let alpha = fx_mul(
        fx_mul(c[3], v2_len(tr.gain)),
        fx_clamp(fx_mul(area, config.overlay.gimbal_tracking_rect_sensitivity), 0, ONE),
    );
    let color = [c[0], c[1], c[2], alpha];
    assert(color == [c[0], c[1], c[2], gain_alpha(config, region_rect, *tr)]) by {
        assert(color@ =~= seq![c[0], c[1], c[2], gain_alpha(config, region_rect, *tr)]);
    }
    OverlayItem::Solid { rect: tr.rect, color }
}

impl ControllerState {
    /// Plans the camera overlay: the halt border, the debug text, the
    /// detections, the tracked region and the gimbal's tracking regions, in
    /// that order.
    pub fn draw_camera_overlay(&self, config: &Config) -> (items: Vec<OverlayItem>)
        ensures
            items@ == overlay_plan(self, config),
    {
        let mut items = Vec::new();
        if config.mode == ControllerMode::Halted {
            let thickness = config.overlay.border_thickness;
            items.push(
                OverlayItem::Outline {
                    rect: rect_offset(config.vision.border_rect, crate::fixed::fx_neg(thickness)),
                    color: config.overlay.halt_color,
                    thickness,
                },
            );
        }
        assert(items@ =~= halt_items(config));
        let position = [-ONE, -562_500];
        let anchor = [0, 0];
        assert(position == debug_text_position()) by {
            assert(position@ =~= debug_text_position()@);
        }
        assert(anchor == [0i64, 0i64]) by {
            assert(anchor@ =~= seq![0i64, 0i64]);
        }
        items.push(
            OverlayItem::DebugText {
                position,
                anchor,
                color: config.overlay.debug_color,
                height: config.overlay.debug_text_height,
            },
        );
        let ghost head = items@;
        assert(head == halt_items(config).push(debug_item(config)));

        let objs = &self.detected.objects;
        let mut n: usize = 0;
        while n < objs.len()
            invariant
                n <= objs@.len(),
                items@ == head + detections_items(config, objs@, n as int),
            decreases objs@.len() - n,
        {
            draw_detection(&mut items, config, &objs[n], n);
            n += 1;
            assert(items@ =~= head + detections_items(config, objs@, n as int));
        }
        draw_region(&mut items, self, config);
        let ghost body = items@;

        let rects = &config.gimbal.tracking_rects;
        if config.overlay.gimbal_tracking_rect_color[3] > 0 {
            let mut k: usize = 0;
            while k < rects.len()
                invariant
                    k <= rects@.len(),
                    config.overlay.gimbal_tracking_rect_color[3] > 0,
                    items@ == body + gain_items(config, self.region.rect, rects@, k as int),
                decreases rects@.len() - k,
            {
                let item = draw_gain(config, self.region.rect, &rects[k]);
                items.push(item);
                k += 1;
                assert(items@ =~= body + gain_items(config, self.region.rect, rects@, k as int));
            }
        } else {
            assert(gain_items(config, self.region.rect, rects@, rects@.len() as int)
                =~= Seq::<OverlayItem>::empty());
            assert(items@ =~= body + gain_items(
                config,
                self.region.rect,
                rects@,
                rects@.len() as int,
            ));
        }
        assert(items@ =~= overlay_plan(self, config));
        items
    }
}

} // verus!
