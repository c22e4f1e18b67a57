//! Plain data shared by the X connection and the window manager.
use vstd::prelude::*;

verus! {

/// The ID of an X resource: a window, an atom, and so on.
pub type WinId = u32;

/// A rectangle on the screen: its top left corner and its extent.
#[derive(Debug, Clone, Copy, PartialEq, Eq, Structural)]
pub struct Region {
    pub x: u32,
    pub y: u32,
    pub w: u32,
    pub h: u32,
}

impl Region {
    /// Create a region from its top left corner, width and height.
    pub fn new(x: u32, y: u32, w: u32, h: u32) -> (r: Region)
        ensures
            r == (Region { x, y, w, h }),
    {
        Region { x, y, w, h }
    }

    /// The width of the region.
    pub fn width(&self) -> (r: u32)
        ensures
            r == self.w,
    {
        self.w
    }

    /// The height of the region.
    pub fn height(&self) -> (r: u32)
        ensures
            r == self.h,
    {
        self.h
    }

    /// The region as an `(x, y, width, height)` tuple.
    pub fn values(&self) -> (r: (u32, u32, u32, u32))
        ensures
            r == (self.x, self.y, self.w, self.h),
    {
        (self.x, self.y, self.w, self.h)
    }
}

/// A key press: the modifier mask that was held and the key code of the key.
#[derive(Debug, Clone, Copy, PartialEq, Eq, Hash, Structural)]
pub struct KeyCode {
    pub mask: u16,
    pub code: u8,
}

/// The key presses that the window manager has bound to an action, in the order in
/// which they were first bound; no key press is bound twice. The actions themselves are
/// kept by the caller.
pub struct KeyBindings {
    keys: Vec<KeyCode>,
}

impl View for KeyBindings {
    type V = Seq<KeyCode>;

    closed spec fn view(&self) -> Seq<KeyCode> {
        self.keys@
    }
}

impl KeyBindings {
    #[verifier::type_invariant]
    spec fn no_key_twice(self) -> bool {
        self.keys@.no_duplicates()
    }

    /// No key press bound.
    pub fn new() -> (r: KeyBindings)
        ensures
            r@ == Seq::<KeyCode>::empty(),
    {
        KeyBindings { keys: Vec::new() }
    }

    /// Bind `key`; a key press that is already bound stays where it is.
    pub fn bind(&mut self, key: KeyCode)
        ensures
            old(self)@.contains(key) ==> final(self)@ == old(self)@,
            !old(self)@.contains(key) ==> final(self)@ == old(self)@.push(key),
    {
        proof {
            use_type_invariant(&*self);
        }
        let n = self.keys.len();
        for i in 0..n
            invariant
                n == self.keys@.len(),
                forall|j: int| 0 <= j < i ==> self.keys@[j] != key,
        {
            if self.keys[i] == key {
                return;
            }
        }
        let ghost before = self.keys@;
        let mut keys: Vec<KeyCode> = Vec::new();
        std::mem::swap(&mut keys, &mut self.keys);
        keys.push(key);
        assert(keys@.no_duplicates()) by {
            assert(!before.contains(key));
        }
        self.keys = keys;
    }

    /// The bound key presses, in the order in which they were first bound.
    pub fn keys(&self) -> (r: &Vec<KeyCode>)
        ensures
            r@ == self@,
            self@.no_duplicates(),
    {
        proof {
            use_type_invariant(self);
        }
        &self.keys
    }
}

/// What the randr extension reports of one CRTC: where it sits and how large it is.
#[derive(Debug, Clone, Copy, PartialEq, Eq, Structural)]
pub struct CrtcInfo {
    pub x: i16,
    pub y: i16,
    pub width: u16,
    pub height: u16,
}

/// An output of the X server that windows can be placed on.
#[derive(Debug, Clone, Copy, PartialEq, Eq, Structural)]
pub struct Screen {
    /// The whole area of the screen.
    pub true_region: Region,
    /// The part of the screen that is left for client windows.
    pub effective_region: Region,
    /// The index of the screen among the outputs that were reported.
    pub wix: usize,
}

/// The region that a CRTC covers. Negative coordinates are taken as `u32`, that is
/// modulo 2^32, as an `as` cast does.
pub open spec fn crtc_region(info: CrtcInfo) -> Region {
    Region { x: info.x as u32, y: info.y as u32, w: info.width as u32, h: info.height as u32 }
}

/// A CRTC's region starts at its position and has its size.
pub proof fn lemma_crtc_region(info: CrtcInfo)
    ensures
        crtc_region(info).x == info.x as u32,
        crtc_region(info).y == info.y as u32,
        crtc_region(info).w == info.width as u32,
        crtc_region(info).h == info.height as u32,
        info.x >= 0 ==> crtc_region(info).x == info.x,
        info.y >= 0 ==> crtc_region(info).y == info.y,
        crtc_region(info).w == info.width,
        crtc_region(info).h == info.height,
{
}

impl Screen {
    /// A screen covering `region`, all of which is available to clients.
    pub fn new(region: Region, wix: usize) -> (r: Screen)
        ensures
            r == (Screen { true_region: region, effective_region: region, wix }),
    {
        Screen { true_region: region, effective_region: region, wix }
    }

    /// The screen shown by a CRTC, as the `wix`-th output.
    pub fn from_crtc_info(info: CrtcInfo, wix: usize) -> (r: Screen)
        ensures
            r == (Screen { true_region: crtc_region(info), effective_region: crtc_region(info), wix }),
    {
        let region = Region {
            x: info.x as u32,
            y: info.y as u32,
            w: info.width as u32,
            h: info.height as u32,
        };
        Screen { true_region: region, effective_region: region, wix }
    }
}

} // verus!
