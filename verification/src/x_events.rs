use vstd::prelude::*;

verus! {

/// The event kinds the display server reports. Each variant lines up
/// with the server's own event-type numbering, which starts at 2; the
/// numbers below it are reserved by the protocol.
#[derive(Clone, Copy, Debug, PartialEq, Eq, Structural)]
pub enum XEventType {
    KeyPress,
    KeyRelease,
    ButtonPress,
    ButtonRelease,
    MotionNotify,
    EnterNotify,
    LeaveNotify,
    FocusIn,
    FocusOut,
    KeymapNotify,
    Expose,
    GraphicsExpose,
    NoExpose,
    VisibilityNotify,
    CreateNotify,
    DestroyNotify,
    UnmapNotify,
    MapNotify,
    MapRequest,
    ReparentNotify,
    ConfigureNotify,
    ConfigureRequest,
    GravityNotify,
    ResizeRequest,
    CirculateNotify,
    CirculateRequest,
    PropertyNotify,
    SelectionClear,
    SelectionRequest,
    SelectionNotify,
    ColormapNotify,
    ClientMessage,
    MappingNotify,
    GenericEvent,
}

/// The protocol number of an event kind.
pub open spec fn x_event_code(event: XEventType) -> i32 {
    match event {
        XEventType::KeyPress => 2,
        XEventType::KeyRelease => 3,
        XEventType::ButtonPress => 4,
        XEventType::ButtonRelease => 5,
        XEventType::MotionNotify => 6,
        XEventType::EnterNotify => 7,
        XEventType::LeaveNotify => 8,
        XEventType::FocusIn => 9,
        XEventType::FocusOut => 10,
        XEventType::KeymapNotify => 11,
        XEventType::Expose => 12,
        XEventType::GraphicsExpose => 13,
        XEventType::NoExpose => 14,
        XEventType::VisibilityNotify => 15,
        XEventType::CreateNotify => 16,
        XEventType::DestroyNotify => 17,
        XEventType::UnmapNotify => 18,
        XEventType::MapNotify => 19,
        XEventType::MapRequest => 20,
        XEventType::ReparentNotify => 21,
        XEventType::ConfigureNotify => 22,
        XEventType::ConfigureRequest => 23,
        XEventType::GravityNotify => 24,
        XEventType::ResizeRequest => 25,
        XEventType::CirculateNotify => 26,
        XEventType::CirculateRequest => 27,
        XEventType::PropertyNotify => 28,
        XEventType::SelectionClear => 29,
        XEventType::SelectionRequest => 30,
        XEventType::SelectionNotify => 31,
        XEventType::ColormapNotify => 32,
        XEventType::ClientMessage => 33,
        XEventType::MappingNotify => 34,
        XEventType::GenericEvent => 35,
    }
}

impl XEventType {
    /// The protocol number of this event kind.
    pub fn code(self) -> (r: i32)
        ensures
            r == x_event_code(self),
    {
        match self {
            XEventType::KeyPress => 2,
            XEventType::KeyRelease => 3,
            XEventType::ButtonPress => 4,
            XEventType::ButtonRelease => 5,
            XEventType::MotionNotify => 6,
            XEventType::EnterNotify => 7,
            XEventType::LeaveNotify => 8,
            XEventType::FocusIn => 9,
            XEventType::FocusOut => 10,
            XEventType::KeymapNotify => 11,
            XEventType::Expose => 12,
            XEventType::GraphicsExpose => 13,
            XEventType::NoExpose => 14,
            XEventType::VisibilityNotify => 15,
            XEventType::CreateNotify => 16,
            XEventType::DestroyNotify => 17,
            XEventType::UnmapNotify => 18,
            XEventType::MapNotify => 19,
            XEventType::MapRequest => 20,
            XEventType::ReparentNotify => 21,
            XEventType::ConfigureNotify => 22,
            XEventType::ConfigureRequest => 23,
            XEventType::GravityNotify => 24,
            XEventType::ResizeRequest => 25,
            XEventType::CirculateNotify => 26,
            XEventType::CirculateRequest => 27,
            XEventType::PropertyNotify => 28,
            XEventType::SelectionClear => 29,
            XEventType::SelectionRequest => 30,
            XEventType::SelectionNotify => 31,
            XEventType::ColormapNotify => 32,
            XEventType::ClientMessage => 33,
            XEventType::MappingNotify => 34,
            XEventType::GenericEvent => 35,
        }
    }

    /// Reads a raw event-type number back into an event kind: the kind
    /// whose protocol number it is, or nothing for a number outside
    /// the protocol's range.
    pub fn from_raw(raw: i32) -> (r: Option<XEventType>)
        ensures
            r is Some <==> 2 <= raw <= 35,
            r matches Some(t) ==> x_event_code(t) == raw,
    {
        let r = if raw == 2 {
            Some(XEventType::KeyPress)
        } else if raw == 3 {
            Some(XEventType::KeyRelease)
        } else if raw == 4 {
            Some(XEventType::ButtonPress)
        } else if raw == 5 {
            Some(XEventType::ButtonRelease)
        } else if raw == 6 {
            Some(XEventType::MotionNotify)
        } else if raw == 7 {
            Some(XEventType::EnterNotify)
        } else if raw == 8 {
            Some(XEventType::LeaveNotify)
        } else if raw == 9 {
            Some(XEventType::FocusIn)
        } else if raw == 10 {
            Some(XEventType::FocusOut)
        } else if raw == 11 {
            Some(XEventType::KeymapNotify)
        } else if raw == 12 {
            Some(XEventType::Expose)
        } else if raw == 13 {
            Some(XEventType::GraphicsExpose)
        } else if raw == 14 {
            Some(XEventType::NoExpose)
        } else if raw == 15 {
            Some(XEventType::VisibilityNotify)
        } else if raw == 16 {
            Some(XEventType::CreateNotify)
        } else if raw == 17 {
            Some(XEventType::DestroyNotify)
        } else if raw == 18 {
            Some(XEventType::UnmapNotify)
        } else if raw == 19 {
            Some(XEventType::MapNotify)
        } else if raw == 20 {
            Some(XEventType::MapRequest)
        } else if raw == 21 {
            Some(XEventType::ReparentNotify)
        } else if raw == 22 {
            Some(XEventType::ConfigureNotify)
        } else if raw == 23 {
            Some(XEventType::ConfigureRequest)
        } else if raw == 24 {
            Some(XEventType::GravityNotify)
        } else if raw == 25 {
            Some(XEventType::ResizeRequest)
        } else if raw == 26 {
            Some(XEventType::CirculateNotify)
        } else if raw == 27 {
            Some(XEventType::CirculateRequest)
        } else if raw == 28 {
            Some(XEventType::PropertyNotify)
        } else if raw == 29 {
            Some(XEventType::SelectionClear)
        } else if raw == 30 {
            Some(XEventType::SelectionRequest)
        } else if raw == 31 {
            Some(XEventType::SelectionNotify)
        } else if raw == 32 {
            Some(XEventType::ColormapNotify)
        } else if raw == 33 {
            Some(XEventType::ClientMessage)
        } else if raw == 34 {
            Some(XEventType::MappingNotify)
        } else if raw == 35 {
            Some(XEventType::GenericEvent)
        } else {
            None
        };
        r
    }
}

/// Bit values of the input-event selection mask, each position fixed
/// by the display protocol.
pub const X_MASK_KEY_PRESS: u64 = 1 << 0;
pub const X_MASK_KEY_RELEASE: u64 = 1 << 1;
pub const X_MASK_BUTTON_PRESS: u64 = 1 << 2;
pub const X_MASK_BUTTON_RELEASE: u64 = 1 << 3;
pub const X_MASK_ENTER_WINDOW: u64 = 1 << 4;
pub const X_MASK_LEAVE_WINDOW: u64 = 1 << 5;
pub const X_MASK_POINTER_MOTION: u64 = 1 << 6;
pub const X_MASK_POINTER_MOTION_HINT: u64 = 1 << 7;
pub const X_MASK_BUTTON1_MOTION: u64 = 1 << 8;
pub const X_MASK_BUTTON2_MOTION: u64 = 1 << 9;
pub const X_MASK_BUTTON3_MOTION: u64 = 1 << 10;
pub const X_MASK_BUTTON4_MOTION: u64 = 1 << 11;
pub const X_MASK_BUTTON5_MOTION: u64 = 1 << 12;
pub const X_MASK_BUTTON_MOTION: u64 = 1 << 13;
pub const X_MASK_KEYMAP_STATE: u64 = 1 << 14;
pub const X_MASK_EXPOSURE: u64 = 1 << 15;
pub const X_MASK_VISIBILITY_CHANGE: u64 = 1 << 16;
pub const X_MASK_STRUCTURE_NOTIFY: u64 = 1 << 17;
pub const X_MASK_RESIZE_REDIRECT: u64 = 1 << 18;
pub const X_MASK_SUBSTRUCTURE_NOTIFY: u64 = 1 << 19;
pub const X_MASK_SUBSTRUCTURE_REDIRECT: u64 = 1 << 20;
pub const X_MASK_FOCUS_CHANGE: u64 = 1 << 21;
pub const X_MASK_PROPERTY_CHANGE: u64 = 1 << 22;
pub const X_MASK_COLORMAP_CHANGE: u64 = 1 << 23;
pub const X_MASK_OWNER_GRAB_BUTTON: u64 = 1 << 24;

/// A set of input-event kinds to be selected on a window, packed into
/// one word as the display protocol expects. Masks compose by bitwise
/// or; each bit position is given by the `X_MASK_` constants.
#[derive(Clone, Copy, Debug)]
pub struct XEventMask(u64);

impl XEventMask {
    /// The packed mask word, as a spec-level value.
    pub closed spec fn bits_spec(self) -> u64 {
        self.0
    }

    /// The empty mask: no events selected.
    pub fn empty() -> (r: Self)
        ensures
            r.bits_spec() == 0,
    {
        XEventMask(0)
    }

    /// A mask holding exactly the given packed word.
    pub fn from_bits(bits: u64) -> (r: Self)
        ensures
            r.bits_spec() == bits,
    {
        XEventMask(bits)
    }

    /// The packed mask word.
    pub fn bits(self) -> (r: u64)
        ensures
            r == self.bits_spec(),
    {
        self.0
    }

    /// The union of the two masks.
    pub fn or(self, rhs: Self) -> (r: Self)
        ensures
            r.bits_spec() == (self.bits_spec() | rhs.bits_spec()),
    {
        XEventMask(self.0 | rhs.0)
    }

    /// The intersection of the two masks.
    pub fn and(self, rhs: Self) -> (r: Self)
        ensures
            r.bits_spec() == (self.bits_spec() & rhs.bits_spec()),
    {
        XEventMask(self.0 & rhs.0)
    }

    /// The complement of the mask.
    pub fn not(self) -> (r: Self)
        ensures
            r.bits_spec() == !self.bits_spec(),
    {
        XEventMask(!self.0)
    }
}

} // verus!
