use flyer_control::fixed::ONE;
use flyer_control::vector::{
    rect_area, rect_center, rect_constrain, rect_intersect, rect_translate, v2_add, v2_mul,
    v2_scale,
};

fn within(r: [i64; 4], border: [i64; 4]) -> bool {
    let (r, b) = (r.map(|v| v as i128), border.map(|v| v as i128));
    b[0] <= r[0] && b[1] <= r[1] && r[0] + r[2] <= b[0] + b[2] && r[1] + r[3] <= b[1] + b[3]
}

#[test]
fn vectors_add_by_component() {
    assert_eq!(v2_add([1, 2], [30, 40]), [31, 42]);
    assert_eq!(v2_add([i64::MAX, i64::MIN], [1, -1]), [i64::MAX, i64::MIN]);
}

#[test]
fn vectors_multiply_by_component() {
    assert_eq!(v2_mul([2 * ONE, -3 * ONE], [ONE / 2, 2 * ONE]), [ONE, -6 * ONE]);
    assert_eq!(v2_mul([i64::MAX, i64::MIN], [2 * ONE, 2 * ONE]), [i64::MAX, i64::MIN]);
}

#[test]
fn vectors_scale() {
    assert_eq!(v2_scale([2 * ONE, -3 * ONE], ONE / 2), [ONE, -1_500_000]);
    assert_eq!(v2_scale([ONE, -ONE], 300_000), [300_000, -300_000]);
}

#[test]
fn area_is_width_times_height() {
    assert_eq!(rect_area([0, 0, 300_000, 300_000]), 90_000);
    assert_eq!(rect_area([5, 5, 2 * ONE, ONE / 2]), ONE);
}

#[test]
fn center_is_half_way() {
    assert_eq!(rect_center([200_000, 100_000, 300_000, 300_000]), [350_000, 250_000]);
    assert_eq!(rect_center([-150_000, -150_000, 300_000, 300_000]), [0, 0]);
}

#[test]
fn translate_keeps_the_size() {
    assert_eq!(rect_translate([1, 2, 3, 4], [10, 20]), [11, 22, 3, 4]);
}

#[test]
fn constrain_leaves_a_rect_inside_alone() {
    let border = [-ONE, -562_500, 2 * ONE, 1_125_000];
    let rect = [200_000, 100_000, 300_000, 300_000];
    assert_eq!(rect_constrain(rect, border), rect);
}

#[test]
fn constrain_moves_a_rect_back_inside() {
    let border = [-ONE, -562_500, 2 * ONE, 1_125_000];
    assert_eq!(
        rect_constrain([900_000, 500_000, 300_000, 300_000], border),
        [700_000, 262_500, 300_000, 300_000]
    );
    assert_eq!(
        rect_constrain([-1_500_000, -900_000, 300_000, 300_000], border),
        [-ONE, -562_500, 300_000, 300_000]
    );
}

#[test]
fn constrain_shrinks_a_rect_larger_than_the_border() {
    let border = [-ONE, -562_500, 2 * ONE, 1_125_000];
    assert_eq!(rect_constrain([0, 0, 5 * ONE, 5 * ONE], border), border);
}

#[test]
fn constrained_rects_lie_inside_the_border() {
    let border = [-ONE, -562_500, 2 * ONE, 1_125_000];
    let xs = [i64::MIN, -3 * ONE, -ONE, 0, 17, ONE, 3 * ONE, i64::MAX];
    let ws = [i64::MIN, -5, 0, 300_000, 2 * ONE, 7 * ONE, i64::MAX];
    for &x in &xs {
        for &y in &xs {
            for &w in &ws {
                for &h in &ws {
                    let c = rect_constrain([x, y, w, h], border);
                    assert!(within(c, border), "{:?} from {:?}", c, [x, y, w, h]);
                }
            }
        }
    }
}

#[test]
fn intersection_of_overlapping_rects() {
    assert_eq!(
        rect_intersect([0, 0, 4 * ONE, 4 * ONE], [2 * ONE, ONE, 4 * ONE, ONE]),
        [2 * ONE, ONE, 2 * ONE, ONE]
    );
}

#[test]
fn intersection_of_disjoint_rects_is_empty() {
    let r = rect_intersect([0, 0, ONE, ONE], [5 * ONE, 5 * ONE, ONE, ONE]);
    assert_eq!(r[2], 0);
    assert_eq!(r[3], 0);
    assert_eq!(rect_area(r), 0);
}
