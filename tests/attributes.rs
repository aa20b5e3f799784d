use nwin::attributes::{
    BackingPlanes, BackingStore, EventMask, Gravity, WindowAttributes, WindowAttributesBuilder,
    WindowClass, CW_BACKING_PLANES, CW_BACKING_STORE, CW_BIT_GRAVITY, CW_CURSOR, CW_EVENT_MASK,
    CW_OVERRIDE_REDIRECT, EM_FOCUS_CHANGE, EM_KEY_PRESS,
};

#[test]
fn builder_sets_fields_and_mask() {
    let a = WindowAttributesBuilder::new()
        .with_bit_gravity(Gravity::Center)
        .with_backing_store(BackingStore::Always)
        .with_backing_planes(BackingPlanes(0xFF))
        .with_event_mask(EventMask::from_bits(EM_KEY_PRESS | EM_FOCUS_CHANGE))
        .with_override_redirect(true)
        .with_cursor(42)
        .build();
    assert_eq!(a.bit_gravity, 5);
    assert_eq!(a.backing_store, 2);
    assert_eq!(a.backing_planes, 0xFF);
    assert_eq!(a.event_mask, 0x0020_0001);
    assert_eq!(a.override_redirect, 1);
    assert_eq!(a.cursor, 42);
    assert_eq!(
        a.mask,
        CW_BIT_GRAVITY | CW_BACKING_STORE | CW_BACKING_PLANES | CW_EVENT_MASK | CW_OVERRIDE_REDIRECT | CW_CURSOR
    );
    assert_eq!(a.win_gravity, 0);
}

#[test]
fn builder_other_attributes() {
    let a = WindowAttributesBuilder::new()
        .with_background_pixmap(1)
        .with_background_pixel(2)
        .with_border_pixmap(3)
        .with_border_pixel(4)
        .with_win_gravity(Gravity::Static)
        .with_backing_pixel(5)
        .with_save_under(false)
        .with_do_not_propagate_mask(EventMask::empty())
        .with_colormap(6)
        .build();
    assert_eq!(
        (a.background_pixmap, a.background_pixel, a.border_pixmap, a.border_pixel),
        (1, 2, 3, 4)
    );
    assert_eq!(a.win_gravity, 10);
    assert_eq!((a.backing_pixel, a.save_under, a.colormap), (5, 0, 6));
    assert_eq!(a.mask, 0x0001 | 0x0002 | 0x0004 | 0x0008 | 0x0020 | 0x0100 | 0x0400 | 0x1000 | 0x2000);
}

#[test]
fn protocol_values() {
    assert_eq!(WindowClass::CopyFromParent.as_u32(), 0);
    assert_eq!(WindowClass::InputOutput.as_u32(), 1);
    assert_eq!(WindowClass::InputOnly.as_u32(), 2);
    assert_eq!(Gravity::Forget.as_i32(), 0);
    assert_eq!(Gravity::SouthEast.as_i32(), 9);
    assert_eq!(BackingStore::WhenMapped.as_i32(), 1);
    let d = WindowAttributes::default();
    assert_eq!(d.win_gravity, 1);
    assert_eq!(d.backing_planes, u64::MAX);
    assert_eq!(d.mask, 0);
    assert_eq!(EventMask::from_bits(7).bits(), 7);
}
