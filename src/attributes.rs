use vstd::prelude::*;

verus! {

/// Value-mask bits that say which window attributes are set.
pub const CW_BACK_PIXMAP: u64 = 0x0001;

pub const CW_BACK_PIXEL: u64 = 0x0002;

pub const CW_BORDER_PIXMAP: u64 = 0x0004;

pub const CW_BORDER_PIXEL: u64 = 0x0008;

pub const CW_BIT_GRAVITY: u64 = 0x0010;

pub const CW_WIN_GRAVITY: u64 = 0x0020;

pub const CW_BACKING_STORE: u64 = 0x0040;

pub const CW_BACKING_PLANES: u64 = 0x0080;

pub const CW_BACKING_PIXEL: u64 = 0x0100;

pub const CW_OVERRIDE_REDIRECT: u64 = 0x0200;

pub const CW_SAVE_UNDER: u64 = 0x0400;

pub const CW_EVENT_MASK: u64 = 0x0800;

pub const CW_DONT_PROPAGATE: u64 = 0x1000;

pub const CW_COLORMAP: u64 = 0x2000;

pub const CW_CURSOR: u64 = 0x4000;

/// X event-mask bits.
pub const EM_KEY_PRESS: i64 = 0x0000001;

pub const EM_KEY_RELEASE: i64 = 0x0000002;

pub const EM_BUTTON_PRESS: i64 = 0x0000004;

pub const EM_BUTTON_RELEASE: i64 = 0x0000008;

pub const EM_ENTER_WINDOW: i64 = 0x0000010;

pub const EM_LEAVE_WINDOW: i64 = 0x0000020;

pub const EM_POINTER_MOTION: i64 = 0x0000040;

pub const EM_POINTER_MOTION_HINT: i64 = 0x0000080;

pub const EM_BUTTON_1_MOTION: i64 = 0x0000100;

pub const EM_BUTTON_2_MOTION: i64 = 0x0000200;

pub const EM_BUTTON_3_MOTION: i64 = 0x0000400;

pub const EM_BUTTON_4_MOTION: i64 = 0x0000800;

pub const EM_BUTTON_5_MOTION: i64 = 0x0001000;

pub const EM_BUTTON_MOTION: i64 = 0x0002000;

pub const EM_KEYMAP_STATE: i64 = 0x0004000;

pub const EM_EXPOSURE: i64 = 0x0008000;

pub const EM_VISIBILITY_CHANGE: i64 = 0x0010000;

pub const EM_STRUCTURE_NOTIFY: i64 = 0x0020000;

pub const EM_RESIZE_REDIRECT: i64 = 0x0040000;

pub const EM_SUBSTRUCTURE_NOTIFY: i64 = 0x0080000;

pub const EM_SUBSTRUCTURE_REDIRECT: i64 = 0x0100000;

pub const EM_FOCUS_CHANGE: i64 = 0x0200000;

pub const EM_PROPERTY_CHANGE: i64 = 0x0400000;

pub const EM_COLORMAP_CHANGE: i64 = 0x0800000;

pub const EM_OWNER_GRAB_BUTTON: i64 = 0x1000000;

/// Class of an X window.
#[derive(Copy, Clone, Debug, Hash, PartialEq, Eq, Structural)]
pub enum WindowClass {
    InputOnly,
    InputOutput,
    CopyFromParent,
}

impl WindowClass {
    pub open spec fn spec_value(&self) -> u32 {
        match self {
            WindowClass::CopyFromParent => 0,
            WindowClass::InputOutput => 1,
            WindowClass::InputOnly => 2,
        }
    }

    /// The protocol value of the class.
    pub fn as_u32(&self) -> (r: u32)
        ensures
            r == self.spec_value(),
    {
        match self {
            WindowClass::CopyFromParent => 0,
            WindowClass::InputOutput => 1,
            WindowClass::InputOnly => 2,
        }
    }
}

/// Where contents or a window go when the area around them is resized.
#[derive(Copy, Clone, Debug, Hash, PartialEq, Eq, Structural)]
pub enum Gravity {
    Forget,
    Static,
    NorthWest,
    North,
    NorthEast,
    West,
    Center,
    East,
    SouthWest,
    South,
    SouthEast,
}

impl Gravity {
    pub open spec fn spec_value(&self) -> i32 {
        match self {
            Gravity::Forget => 0,
            Gravity::NorthWest => 1,
            Gravity::North => 2,
            Gravity::NorthEast => 3,
            Gravity::West => 4,
            Gravity::Center => 5,
            Gravity::East => 6,
            Gravity::SouthWest => 7,
            Gravity::South => 8,
            Gravity::SouthEast => 9,
            Gravity::Static => 10,
        }
    }

    /// The protocol value of the gravity.
    pub fn as_i32(&self) -> (r: i32)
        ensures
            r == self.spec_value(),
    {
        match self {
            Gravity::Forget => 0,
            Gravity::NorthWest => 1,
            Gravity::North => 2,
            Gravity::NorthEast => 3,
            Gravity::West => 4,
            Gravity::Center => 5,
            Gravity::East => 6,
            Gravity::SouthWest => 7,
            Gravity::South => 8,
            Gravity::SouthEast => 9,
            Gravity::Static => 10,
        }
    }
}

/// When the server keeps a copy of a window's contents.
#[derive(Copy, Clone, Debug, Hash, PartialEq, Eq, Structural)]
pub enum BackingStore {
    NotUseful,
    WhenMapped,
    Always,
}

impl BackingStore {
    pub open spec fn spec_value(&self) -> i32 {
        match self {
            BackingStore::NotUseful => 0,
            BackingStore::WhenMapped => 1,
            BackingStore::Always => 2,
        }
    }

    /// The protocol value of the backing-store hint.
    pub fn as_i32(&self) -> (r: i32)
        ensures
            r == self.spec_value(),
    {
        match self {
            BackingStore::NotUseful => 0,
            BackingStore::WhenMapped => 1,
            BackingStore::Always => 2,
        }
    }
}

/// Bit planes to preserve in the backing store.
#[derive(Copy, Clone, Debug, PartialEq, Eq, Structural)]
pub struct BackingPlanes(pub u64);

/// A set of X event-mask bits.
#[derive(Copy, Clone, Debug, PartialEq, Eq, Structural)]
pub struct EventMask {
    pub bits: i64,
}

impl EventMask {
    pub fn empty() -> (r: EventMask)
        ensures
            r.bits == 0,
    {
        EventMask { bits: 0 }
    }

    pub fn from_bits(bits: i64) -> (r: EventMask)
        ensures
            r.bits == bits,
    {
        EventMask { bits }
    }

    pub fn bits(&self) -> (r: i64)
        ensures
            r == self.bits,
    {
        self.bits
    }
}

/// Attributes for creating an X window, with the value mask of those that are set.
#[derive(Copy, Clone, Debug, PartialEq, Eq, Structural)]
pub struct WindowAttributes {
    pub background_pixmap: u64,
    pub background_pixel: u64,
    pub border_pixmap: u64,
    pub border_pixel: u64,
    pub bit_gravity: i32,
    pub win_gravity: i32,
    pub backing_store: i32,
    pub backing_planes: u64,
    pub backing_pixel: u64,
    pub save_under: i32,
    pub event_mask: i64,
    pub do_not_propagate_mask: i64,
    pub override_redirect: i32,
    pub colormap: u64,
    pub cursor: u64,
    pub mask: u64,
}

impl WindowAttributes {
    /// Attributes with the protocol's default values and nothing marked as set.
    pub fn default() -> (r: WindowAttributes)
        ensures
            r == (WindowAttributes {
                background_pixmap: 0,
                background_pixel: 0,
                border_pixmap: 0,
                border_pixel: 0,
                bit_gravity: Gravity::Forget.spec_value(),
                win_gravity: Gravity::NorthWest.spec_value(),
                backing_store: BackingStore::NotUseful.spec_value(),
                backing_planes: u64::MAX,
                backing_pixel: 0,
                save_under: 0,
                event_mask: 0,
                do_not_propagate_mask: 0,
                override_redirect: 0,
                colormap: 0,
                cursor: 0,
                mask: 0,
            }),
    {
        WindowAttributes {
            background_pixmap: 0,
            background_pixel: 0,
            border_pixmap: 0,
            border_pixel: 0,
            bit_gravity: Gravity::Forget.as_i32(),
            win_gravity: Gravity::NorthWest.as_i32(),
            backing_store: BackingStore::NotUseful.as_i32(),
            backing_planes: u64::MAX,
            backing_pixel: 0,
            save_under: 0,
            event_mask: 0,
            do_not_propagate_mask: 0,
            override_redirect: 0,
            colormap: 0,
            cursor: 0,
            mask: 0,
        }
    }
}

/// Builds `WindowAttributes` one attribute at a time, marking each in the mask.
pub struct WindowAttributesBuilder {
    inner: WindowAttributes,
}

impl WindowAttributesBuilder {
    /// The attributes built so far.
    pub closed spec fn attributes(&self) -> WindowAttributes {
        self.inner
    }

    /// A builder with every attribute zero and none marked as set.
    pub fn new() -> (r: WindowAttributesBuilder)
        ensures
            r.attributes() == (WindowAttributes {
                background_pixmap: 0,
                background_pixel: 0,
                border_pixmap: 0,
                border_pixel: 0,
                bit_gravity: 0,
                win_gravity: 0,
                backing_store: 0,
                backing_planes: 0,
                backing_pixel: 0,
                save_under: 0,
                event_mask: 0,
                do_not_propagate_mask: 0,
                override_redirect: 0,
                colormap: 0,
                cursor: 0,
                mask: 0,
            }),
    {
        WindowAttributesBuilder {
            inner: WindowAttributes {
                background_pixmap: 0,
                background_pixel: 0,
                border_pixmap: 0,
                border_pixel: 0,
                bit_gravity: 0,
                win_gravity: 0,
                backing_store: 0,
                backing_planes: 0,
                backing_pixel: 0,
                save_under: 0,
                event_mask: 0,
                do_not_propagate_mask: 0,
                override_redirect: 0,
                colormap: 0,
                cursor: 0,
                mask: 0,
            },
        }
    }

    /// Background pixmap.
    pub fn with_background_pixmap(self, pixmap: u64) -> (r: WindowAttributesBuilder)
        ensures
            r.attributes() == (WindowAttributes {
                background_pixmap: pixmap,
                mask: self.attributes().mask | CW_BACK_PIXMAP,
                ..self.attributes()
            }),
    {
        let mut b = self;
        b.inner.background_pixmap = pixmap;
        b.inner.mask = b.inner.mask | CW_BACK_PIXMAP;
        b
    }

    /// Background pixel.
    pub fn with_background_pixel(self, pixel: u64) -> (r: WindowAttributesBuilder)
        ensures
            r.attributes() == (WindowAttributes {
                background_pixel: pixel,
                mask: self.attributes().mask | CW_BACK_PIXEL,
                ..self.attributes()
            }),
    {
        let mut b = self;
        b.inner.background_pixel = pixel;
        b.inner.mask = b.inner.mask | CW_BACK_PIXEL;
        b
    }

    /// Border pixmap.
    pub fn with_border_pixmap(self, pixmap: u64) -> (r: WindowAttributesBuilder)
        ensures
            r.attributes() == (WindowAttributes {
                border_pixmap: pixmap,
                mask: self.attributes().mask | CW_BORDER_PIXMAP,
                ..self.attributes()
            }),
    {
        let mut b = self;
        b.inner.border_pixmap = pixmap;
        b.inner.mask = b.inner.mask | CW_BORDER_PIXMAP;
        b
    }

    /// Border pixel.
    pub fn with_border_pixel(self, pixel: u64) -> (r: WindowAttributesBuilder)
        ensures
            r.attributes() == (WindowAttributes {
                border_pixel: pixel,
                mask: self.attributes().mask | CW_BORDER_PIXEL,
                ..self.attributes()
            }),
    {
        let mut b = self;
        b.inner.border_pixel = pixel;
        b.inner.mask = b.inner.mask | CW_BORDER_PIXEL;
        b
    }

    /// Gravity of the window's contents on resize.
    pub fn with_bit_gravity(self, gravity: Gravity) -> (r: WindowAttributesBuilder)
        ensures
            r.attributes() == (WindowAttributes {
                bit_gravity: gravity.spec_value(),
                mask: self.attributes().mask | CW_BIT_GRAVITY,
                ..self.attributes()
            }),
    {
        let mut b = self;
        b.inner.bit_gravity = gravity.as_i32();
        b.inner.mask = b.inner.mask | CW_BIT_GRAVITY;
        b
    }

    /// Gravity of the window on its parent's resize.
    pub fn with_win_gravity(self, gravity: Gravity) -> (r: WindowAttributesBuilder)
        ensures
            r.attributes() == (WindowAttributes {
                win_gravity: gravity.spec_value(),
                mask: self.attributes().mask | CW_WIN_GRAVITY,
                ..self.attributes()
            }),
    {
        let mut b = self;
        b.inner.win_gravity = gravity.as_i32();
        b.inner.mask = b.inner.mask | CW_WIN_GRAVITY;
        b
    }

    /// When the server keeps the window's contents.
    pub fn with_backing_store(self, backing_store: BackingStore) -> (r: WindowAttributesBuilder)
        ensures
            r.attributes() == (WindowAttributes {
                backing_store: backing_store.spec_value(),
                mask: self.attributes().mask | CW_BACKING_STORE,
                ..self.attributes()
            }),
    {
        let mut b = self;
        b.inner.backing_store = backing_store.as_i32();
        b.inner.mask = b.inner.mask | CW_BACKING_STORE;
        b
    }

    /// Planes preserved in the backing store.
    pub fn with_backing_planes(self, planes: BackingPlanes) -> (r: WindowAttributesBuilder)
        ensures
            r.attributes() == (WindowAttributes {
                backing_planes: planes.0,
                mask: self.attributes().mask | CW_BACKING_PLANES,
                ..self.attributes()
            }),
    {
        let mut b = self;
        b.inner.backing_planes = planes.0;
        b.inner.mask = b.inner.mask | CW_BACKING_PLANES;
        b
    }

    /// Value for planes not preserved.
    pub fn with_backing_pixel(self, pixel: u64) -> (r: WindowAttributesBuilder)
        ensures
            r.attributes() == (WindowAttributes {
                backing_pixel: pixel,
                mask: self.attributes().mask | CW_BACKING_PIXEL,
                ..self.attributes()
            }),
    {
        let mut b = self;
        b.inner.backing_pixel = pixel;
        b.inner.mask = b.inner.mask | CW_BACKING_PIXEL;
        b
    }

    /// Whether the window manager is bypassed.
    pub fn with_override_redirect(self, redirect: bool) -> (r: WindowAttributesBuilder)
        ensures
            r.attributes() == (WindowAttributes {
                override_redirect: if redirect { 1i32 } else { 0i32 },
                mask: self.attributes().mask | CW_OVERRIDE_REDIRECT,
                ..self.attributes()
            }),
    {
        let mut b = self;
        b.inner.override_redirect = if redirect { 1 } else { 0 };
        b.inner.mask = b.inner.mask | CW_OVERRIDE_REDIRECT;
        b
    }

    /// Whether what lies under the window is saved.
    pub fn with_save_under(self, save_under: bool) -> (r: WindowAttributesBuilder)
        ensures
            r.attributes() == (WindowAttributes {
                save_under: if save_under { 1i32 } else { 0i32 },
                mask: self.attributes().mask | CW_SAVE_UNDER,
                ..self.attributes()
            }),
    {
        let mut b = self;
        b.inner.save_under = if save_under { 1 } else { 0 };
        b.inner.mask = b.inner.mask | CW_SAVE_UNDER;
        b
    }

    /// Events the window selects.
    pub fn with_event_mask(self, mask: EventMask) -> (r: WindowAttributesBuilder)
        ensures
            r.attributes() == (WindowAttributes {
                event_mask: mask.bits,
                mask: self.attributes().mask | CW_EVENT_MASK,
                ..self.attributes()
            }),
    {
        let mut b = self;
        b.inner.event_mask = mask.bits;
        b.inner.mask = b.inner.mask | CW_EVENT_MASK;
        b
    }

    /// Events not passed on to ancestors.
    pub fn with_do_not_propagate_mask(self, mask: EventMask) -> (r: WindowAttributesBuilder)
        ensures
            r.attributes() == (WindowAttributes {
                do_not_propagate_mask: mask.bits,
                mask: self.attributes().mask | CW_DONT_PROPAGATE,
                ..self.attributes()
            }),
    {
        let mut b = self;
        b.inner.do_not_propagate_mask = mask.bits;
        b.inner.mask = b.inner.mask | CW_DONT_PROPAGATE;
        b
    }

    /// Colormap.
    pub fn with_colormap(self, colormap: u64) -> (r: WindowAttributesBuilder)
        ensures
            r.attributes() == (WindowAttributes {
                colormap: colormap,
                mask: self.attributes().mask | CW_COLORMAP,
                ..self.attributes()
            }),
    {
        let mut b = self;
        b.inner.colormap = colormap;
        b.inner.mask = b.inner.mask | CW_COLORMAP;
        b
    }

    /// Cursor.
    pub fn with_cursor(self, cursor: u64) -> (r: WindowAttributesBuilder)
        ensures
            r.attributes() == (WindowAttributes {
                cursor: cursor,
                mask: self.attributes().mask | CW_CURSOR,
                ..self.attributes()
            }),
    {
        let mut b = self;
        b.inner.cursor = cursor;
        b.inner.mask = b.inner.mask | CW_CURSOR;
        b
    }

    /// The attributes built.
    pub fn build(self) -> (r: WindowAttributes)
        ensures
            r == self.attributes(),
    {
        self.inner
    }
}

} // verus!
