use wayland_window_state::dpi::{
    logical_to_physical, physical_to_logical, LogicalSize, PhysicalSize, Size,
};

#[test]
fn identity_scale_changes_nothing() {
    assert_eq!(physical_to_logical(0, 120), 0);
    assert_eq!(physical_to_logical(12345, 120), 12345);
    assert_eq!(logical_to_physical(12345, 120), 12345);
}

#[test]
fn conversions_saturate_instead_of_overflowing() {
    // A scale far below one blows the logical value past the type range.
    assert_eq!(physical_to_logical(u32::MAX, 1), u32::MAX);
    // A scale of one thousand blows the physical value past the range.
    assert_eq!(logical_to_physical(u32::MAX, 120_000), u32::MAX);
}

#[test]
fn size_to_logical_divides_physical_axes() {
    let s = Size::Physical(PhysicalSize { width: 601, height: 399 });
    assert_eq!(
        s.to_logical(240),
        LogicalSize { width: 301, height: 200 }
    );
    let l = Size::Logical(LogicalSize { width: 601, height: 399 });
    assert_eq!(
        l.to_logical(240),
        LogicalSize { width: 601, height: 399 }
    );
}
