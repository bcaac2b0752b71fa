use dxf2elmt::alignment::{HAlignment, VAlignment};

#[test]
fn attachment_points_count_the_anchors_row_by_row() {
    let expected = [
        (1, HAlignment::Left, VAlignment::Top),
        (2, HAlignment::Center, VAlignment::Top),
        (3, HAlignment::Right, VAlignment::Top),
        (4, HAlignment::Left, VAlignment::Middle),
        (5, HAlignment::Center, VAlignment::Middle),
        (6, HAlignment::Right, VAlignment::Middle),
        (7, HAlignment::Left, VAlignment::Bottom),
        (8, HAlignment::Center, VAlignment::Bottom),
        (9, HAlignment::Right, VAlignment::Bottom),
    ];
    for (code, h, v) in expected {
        assert_eq!(HAlignment::from_attachment_point(code), h);
        assert_eq!(VAlignment::from_attachment_point(code), v);
    }
}

#[test]
fn unknown_attachment_point_is_top_left() {
    for code in [0, 10, -1, i16::MIN, i16::MAX] {
        assert_eq!(HAlignment::from_attachment_point(code), HAlignment::Left);
        assert_eq!(VAlignment::from_attachment_point(code), VAlignment::Top);
    }
}

#[test]
fn horizontal_justification_codes() {
    assert_eq!(HAlignment::from_justification(0), HAlignment::Left);
    assert_eq!(HAlignment::from_justification(1), HAlignment::Center);
    assert_eq!(HAlignment::from_justification(2), HAlignment::Right);
    assert_eq!(HAlignment::from_justification(3), HAlignment::Left);
    assert_eq!(HAlignment::from_justification(4), HAlignment::Center);
    assert_eq!(HAlignment::from_justification(5), HAlignment::Left);
    assert_eq!(HAlignment::from_justification(6), HAlignment::Left);
    assert_eq!(HAlignment::from_justification(-7), HAlignment::Left);
}

#[test]
fn vertical_justification_codes() {
    assert_eq!(VAlignment::from_justification(0), VAlignment::Bottom);
    assert_eq!(VAlignment::from_justification(1), VAlignment::Bottom);
    assert_eq!(VAlignment::from_justification(2), VAlignment::Middle);
    assert_eq!(VAlignment::from_justification(3), VAlignment::Top);
    assert_eq!(VAlignment::from_justification(4), VAlignment::Top);
    assert_eq!(VAlignment::from_justification(-1), VAlignment::Top);
}

#[test]
fn names_in_the_element_format() {
    assert_eq!(HAlignment::Left.as_str(), "AlignLeft");
    assert_eq!(HAlignment::Center.as_str(), "AlignHCenter");
    assert_eq!(HAlignment::Right.as_str(), "AlignRight");
    assert_eq!(VAlignment::Top.as_str(), "AlignTop");
    assert_eq!(VAlignment::Middle.as_str(), "AlignVCenter");
    assert_eq!(VAlignment::Bottom.as_str(), "AlignBottom");
}
