use playground::{
    alignment_plan, paints_quad, AlignFlags, Axis2d, Axis3d, Border, Color, Fill, FontStyle,
    FontWeight, Overflow,
};

fn flags(horizontal: bool, vertical: bool) -> AlignFlags {
    AlignFlags { horizontal, vertical }
}

fn border(a: u8, top: bool, bottom: bool, left: bool, right: bool) -> Border {
    Border { color: Color::new(10, 20, 30, a), top, bottom, left, right }
}

#[test]
fn axis3d_to_2d_maps_planar_axes() {
    assert_eq!(Axis3d::X.to_2d(), Some(Axis2d::X));
    assert_eq!(Axis3d::Y.to_2d(), Some(Axis2d::Y));
    assert_eq!(Axis3d::Z.to_2d(), None);
}

#[test]
fn defaults_match_style_defaults() {
    assert_eq!(Axis3d::default(), Axis3d::Y);
    assert_eq!(Axis2d::default(), Axis2d::Y);
    assert_eq!(Overflow::default(), Overflow::Visible);
    assert_eq!(FontStyle::default(), FontStyle::Normal);
    assert_eq!(FontWeight::default(), FontWeight::Normal);
    assert_eq!(Color::default(), Color::new(0, 0, 0, 0));
    assert_eq!(Fill::default(), Fill::Color(Color::new(0, 0, 0, 0)));
    assert_eq!(
        Border::default(),
        Border {
            color: Color::new(0, 0, 0, 0),
            top: false,
            bottom: false,
            left: false,
            right: false,
        }
    );
}

#[test]
fn color_transparency_reads_alpha_only() {
    assert!(Color::new(0, 0, 0, 0).is_fully_transparent());
    assert!(Color::new(255, 255, 255, 0).is_fully_transparent());
    assert!(!Color::new(0, 0, 0, 1).is_fully_transparent());
    assert!(!Color::new(1, 2, 3, 255).is_fully_transparent());
}

#[test]
fn fill_from_color_keeps_color() {
    let c = Color::new(1, 2, 3, 4);
    assert_eq!(Fill::from(c), Fill::Color(c));
    let f: Fill = c.into();
    assert_eq!(f, Fill::Color(c));
}

#[test]
fn fill_background_only_when_not_transparent() {
    assert_eq!(Fill::Color(Color::new(9, 8, 7, 6)).background(), Some(Color::new(9, 8, 7, 6)));
    assert_eq!(Fill::Color(Color::new(9, 8, 7, 0)).background(), None);
    assert_eq!(Fill::default().background(), None);
}

#[test]
fn border_visibility_needs_width_color_and_side() {
    assert!(border(255, true, false, false, false).is_visible(true));
    assert!(border(1, false, false, false, true).is_visible(true));
    assert!(!border(255, true, true, true, true).is_visible(false));
    assert!(!border(0, true, true, true, true).is_visible(true));
    assert!(!border(255, false, false, false, false).is_visible(true));
    assert!(!Border::default().is_visible(true));
}

#[test]
fn border_side_counts() {
    let b = border(255, true, false, true, true);
    assert_eq!(b.horizontal_sides(), 2);
    assert_eq!(b.vertical_sides(), 1);
    let none = border(255, false, false, false, false);
    assert_eq!(none.horizontal_sides(), 0);
    assert_eq!(none.vertical_sides(), 0);
    let tb = border(255, true, true, false, false);
    assert_eq!(tb.horizontal_sides(), 0);
    assert_eq!(tb.vertical_sides(), 2);
    let r = border(255, false, false, false, true);
    assert_eq!(r.horizontal_sides(), 1);
    assert_eq!(r.vertical_sides(), 0);
}

#[test]
fn visible_border_has_a_side_to_size() {
    for bits in 0u8..16 {
        let b = border(200, bits & 1 != 0, bits & 2 != 0, bits & 4 != 0, bits & 8 != 0);
        if b.is_visible(true) {
            assert!(b.horizontal_sides() + b.vertical_sides() >= 1);
        } else {
            assert_eq!(b.horizontal_sides() + b.vertical_sides(), 0);
        }
    }
}

#[test]
fn align_along_primary_axis() {
    assert_eq!(AlignFlags::along(Axis2d::X), flags(true, false));
    assert_eq!(AlignFlags::along(Axis2d::Y), flags(false, true));
}

#[test]
fn align_flip_switches_both_and_twice_restores() {
    let mut f = flags(true, false);
    f.flip();
    assert_eq!(f, flags(false, true));
    f.flip();
    assert_eq!(f, flags(true, false));
}

#[test]
fn alignment_plan_alternates_starting_with_cross_axis() {
    assert_eq!(
        alignment_plan(Axis2d::X, 4),
        vec![flags(false, true), flags(true, false), flags(false, true), flags(true, false)]
    );
    assert_eq!(
        alignment_plan(Axis2d::Y, 3),
        vec![flags(true, false), flags(false, true), flags(true, false)]
    );
    assert!(alignment_plan(Axis2d::X, 0).is_empty());
}

#[test]
fn alignment_plan_always_single_direction() {
    for axis in [Axis2d::X, Axis2d::Y] {
        for f in alignment_plan(axis, 9) {
            assert!(f.horizontal != f.vertical);
        }
    }
}

#[test]
fn quad_painted_for_visible_fill_or_border() {
    let clear = Fill::default();
    let red = Fill::from(Color::new(255, 0, 0, 255));
    let hidden = Border::default();
    let shown = border(255, true, false, false, false);
    assert!(!paints_quad(&clear, &hidden, true));
    assert!(!paints_quad(&clear, &shown, false));
    assert!(paints_quad(&clear, &shown, true));
    assert!(paints_quad(&red, &hidden, false));
    assert!(paints_quad(&red, &shown, true));
}
