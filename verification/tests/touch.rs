use nanomiddleclick::{
    analyze_touches, is_touch_contact_stage, Point, Touch, TouchContact, TouchDeviceKind,
    TouchFrame,
};

fn contact(x: i32, y: i32, touching: bool) -> TouchContact {
    TouchContact { x, y, touching }
}

#[test]
fn analysis_counts_touching_contacts_only() {
    let a = analyze_touches(
        &[contact(1, 1, true), contact(5, 5, false), contact(3, 3, true)],
        3,
    );
    assert_eq!(a.active_count, 2);
    assert_eq!(a.centroid, Some(Point { x: 2, y: 2 }));
    assert_eq!(a.single_active_position, None);
}

#[test]
fn analysis_averages_only_the_first_required_fingers() {
    let a = analyze_touches(
        &[contact(0, 0, true), contact(30, 60, true), contact(1000, 1000, true)],
        2,
    );
    assert_eq!(a.active_count, 3);
    assert_eq!(a.centroid, Some(Point { x: 15, y: 30 }));
}

#[test]
fn analysis_rounds_the_centroid_down() {
    let a = analyze_touches(&[contact(-1, 1, true), contact(0, 2, true)], 2);
    assert_eq!(a.centroid, Some(Point { x: -1, y: 1 }));
    let a = analyze_touches(&[contact(i32::MIN, i32::MAX, true), contact(i32::MIN, i32::MAX, true)], 5);
    assert_eq!(a.centroid, Some(Point { x: i32::MIN, y: i32::MAX }));
}

#[test]
fn analysis_of_a_lone_touch_records_its_position() {
    let a = analyze_touches(&[contact(9, 9, false), contact(500_000, 400_000, true)], 3);
    assert_eq!(a.active_count, 1);
    assert_eq!(a.single_active_position, Some(Point { x: 500_000, y: 400_000 }));
    let empty = analyze_touches(&[], 3);
    assert_eq!(empty.active_count, 0);
    assert_eq!(empty.centroid, None);
    assert_eq!(empty.single_active_position, None);
    assert_eq!(analyze_touches(&[contact(1, 1, true)], 0).centroid, None);
}

#[test]
fn distance_is_manhattan() {
    let a = Point { x: 10, y: -5 };
    let b = Point { x: -20, y: 15 };
    assert_eq!(a.delta_to(b), 50);
    assert_eq!(b.delta_to(a), 50);
    assert_eq!(a.delta_to(a), 0);
}

#[test]
fn touch_stages_three_to_five_touch() {
    assert!(!is_touch_contact_stage(2));
    assert!(is_touch_contact_stage(3));
    assert!(is_touch_contact_stage(4));
    assert!(is_touch_contact_stage(5));
    assert!(!is_touch_contact_stage(6));
    assert!(!is_touch_contact_stage(0));
}

#[test]
fn touch_frame_lists_contacts_in_order() {
    let frame = TouchFrame::new(
        vec![Touch { stage: 3, x: 1, y: 2 }, Touch { stage: 2, x: 3, y: 4 }, Touch { stage: 7, x: 5, y: 6 }],
        TouchDeviceKind::Mouse,
    );
    assert_eq!(frame.source_kind(), TouchDeviceKind::Mouse);
    assert_eq!(
        frame.iter(),
        vec![contact(1, 2, true), contact(3, 4, false), contact(5, 6, false)]
    );
    let t = Touch { stage: 4, x: 7, y: 8 };
    assert!(t.is_touching());
    assert_eq!(t.normalized_position(), (7, 8));
    let c = contact(7, 8, false);
    assert!(!c.is_touching());
    assert_eq!(c.normalized_position(), (7, 8));
    assert_eq!(TouchContact::default(), contact(0, 0, false));
}
