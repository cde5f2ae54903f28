//! The input snapshot and its per-frame translation.
//!
//! Once per update, before the host's main schedule runs, the bridge turns
//! the driver's raw per-frame input report into a frame-scoped snapshot with
//! edge-triggered semantics: `pressed` and `released` hold only what changed
//! this frame and are cleared at the start of every translation, while `down`
//! persists across frames until the driver reports a change. Mouse buttons
//! are translated only for the buttons the integration was configured to
//! listen for; all other buttons are invisible to the snapshot. Host-side
//! consumers only read the snapshot; absent keys simply read as false.

use std::collections::HashMap;

use vstd::prelude::*;

verus! {

broadcast use vstd::seq_lib::group_seq_properties;

/// A key's scan code, as the driver reports it.
pub type ScanCode = u64;

/// A mouse button's identifier, as the driver reports it.
pub type MouseButton = u64;

/// The driver's identifier for the left mouse button.
pub const MOUSE_BUTTON_LEFT: MouseButton = 0;

/// The driver's identifier for the middle mouse button.
pub const MOUSE_BUTTON_MIDDLE: MouseButton = 1;

/// The driver's identifier for the right mouse button.
pub const MOUSE_BUTTON_RIGHT: MouseButton = 2;

/// One frame's raw input report from the loop driver: which keys and buttons
/// changed state this frame, the text typed, the mouse position (in the
/// driver's own sub-cell encoding, carried through untouched), and whether
/// the window's close button was activated.
#[derive(Clone, Debug)]
pub struct RawInput {
    /// Scan codes of the keys newly reported down this frame.
    pub keys_pressed: Vec<ScanCode>,
    /// Scan codes of the keys newly reported up this frame.
    pub keys_released: Vec<ScanCode>,
    /// Buttons the driver reports as pressed this frame.
    pub mouse_pressed: Vec<MouseButton>,
    /// Buttons the driver reports as released this frame.
    pub mouse_released: Vec<MouseButton>,
    /// The text typed this frame.
    pub text: String,
    /// The mouse position's horizontal coordinate, in the driver's encoding.
    pub mouse_x: u32,
    /// The mouse position's vertical coordinate, in the driver's encoding.
    pub mouse_y: u32,
    /// Whether the window close button was activated this frame.
    pub close_requested: bool,
}

impl RawInput {
    /// A frame in which the driver reports no input at all.
    pub fn empty() -> (r: RawInput)
        ensures
            r.keys_pressed@ == Seq::<ScanCode>::empty(),
            r.keys_released@ == Seq::<ScanCode>::empty(),
            r.mouse_pressed@ == Seq::<MouseButton>::empty(),
            r.mouse_released@ == Seq::<MouseButton>::empty(),
            r.text@ == Seq::<char>::empty(),
            r.mouse_x == 0,
            r.mouse_y == 0,
            !r.close_requested,
    {
        RawInput {
            keys_pressed: Vec::new(),
            keys_released: Vec::new(),
            mouse_pressed: Vec::new(),
            mouse_released: Vec::new(),
            text: String::new(),
            mouse_x: 0,
            mouse_y: 0,
            close_requested: false,
        }
    }
}

/// True when the map holds `true` for the key; an absent key reads as false.
spec fn map_true(m: Map<u64, bool>, k: u64) -> bool {
    m.contains_key(k) && m[k]
}

/// Look a key up in a state map, reading an absent key as false.
fn map_get_true(m: &HashMap<u64, bool>, k: u64) -> (r: bool)
    ensures
        r == map_true(m@, k),
{
    match m.get(&k) {
        Some(v) => *v,
        None => false,
    }
}

/// Whether the sequence holds the given identifier.
fn seq_has(v: &Vec<u64>, x: u64) -> (r: bool)
    ensures
        r == v@.contains(x),
{
    let n = v.len();
    let mut i: usize = 0;
    while i < n
        invariant
            i <= n,
            n == v@.len(),
            forall|j: int| 0 <= j < i ==> v@[j] != x,
        decreases n - i,
    {
        if v[i] == x {
            return true;
        }
        i += 1;
    }
    false
}

/// The frame-scoped input snapshot the host reads.
#[derive(Debug)]
pub struct DoryenInput {
    text: String,
    close_requested: bool,

    keys_down: HashMap<ScanCode, bool>,
    keys_pressed: HashMap<ScanCode, bool>,
    keys_released: HashMap<ScanCode, bool>,
    keys_pressed_list: Vec<ScanCode>,
    keys_released_list: Vec<ScanCode>,

    mouse_x: u32,
    mouse_y: u32,
    mouse_buttons_down: HashMap<MouseButton, bool>,
    mouse_buttons_pressed: HashMap<MouseButton, bool>,
    mouse_buttons_released: HashMap<MouseButton, bool>,
}

impl DoryenInput {
    /// Whether the key is currently down.
    pub closed spec fn spec_key(&self, scan_code: ScanCode) -> bool {
        map_true(self.keys_down@, scan_code)
    }

    /// Whether the key was pressed since the last translation.
    pub closed spec fn spec_key_pressed(&self, scan_code: ScanCode) -> bool {
        map_true(self.keys_pressed@, scan_code)
    }

    /// Whether the key was released since the last translation.
    pub closed spec fn spec_key_released(&self, scan_code: ScanCode) -> bool {
        map_true(self.keys_released@, scan_code)
    }

    /// Whether the mouse button is currently down.
    pub closed spec fn spec_mouse_button(&self, button: MouseButton) -> bool {
        map_true(self.mouse_buttons_down@, button)
    }

    /// Whether the mouse button was pressed since the last translation.
    pub closed spec fn spec_mouse_pressed(&self, button: MouseButton) -> bool {
        map_true(self.mouse_buttons_pressed@, button)
    }

    /// Whether the mouse button was released since the last translation.
    pub closed spec fn spec_mouse_released(&self, button: MouseButton) -> bool {
        map_true(self.mouse_buttons_released@, button)
    }

    /// The keys recorded pressed this frame, without duplicates, in no
    /// particular order.
    pub closed spec fn spec_keys_pressed_list(&self) -> Seq<ScanCode> {
        self.keys_pressed_list@
    }

    /// The keys recorded released this frame, without duplicates, in no
    /// particular order.
    pub closed spec fn spec_keys_released_list(&self) -> Seq<ScanCode> {
        self.keys_released_list@
    }

    /// The text typed since the last translation.
    pub closed spec fn spec_text(&self) -> Seq<char> {
        self.text@
    }

    /// The mouse position, in the driver's encoding.
    pub closed spec fn spec_mouse_position(&self) -> (u32, u32) {
        (self.mouse_x, self.mouse_y)
    }

    /// Whether the window close button was activated this frame.
    pub closed spec fn spec_close_requested(&self) -> bool {
        self.close_requested
    }

    /// A snapshot in which nothing is down, pressed or released, no text has
    /// been typed, and no close was requested.
    pub open spec fn spec_is_clear(&self) -> bool {
        &&& forall|k: ScanCode| !(#[trigger] self.spec_key(k))
        &&& forall|k: ScanCode| !(#[trigger] self.spec_key_pressed(k))
        &&& forall|k: ScanCode| !(#[trigger] self.spec_key_released(k))
        &&& forall|b: MouseButton| !(#[trigger] self.spec_mouse_button(b))
        &&& forall|b: MouseButton| !(#[trigger] self.spec_mouse_pressed(b))
        &&& forall|b: MouseButton| !(#[trigger] self.spec_mouse_released(b))
        &&& self.spec_keys_pressed_list() == Seq::<ScanCode>::empty()
        &&& self.spec_keys_released_list() == Seq::<ScanCode>::empty()
        &&& self.spec_text() == Seq::<char>::empty()
        &&& self.spec_mouse_position() == (0u32, 0u32)
        &&& !self.spec_close_requested()
    }

    /// A snapshot that has seen no input.
    pub fn new() -> (r: DoryenInput)
        ensures
            r.spec_is_clear(),
    {
        DoryenInput {
            text: String::new(),
            close_requested: false,
            keys_down: HashMap::new(),
            keys_pressed: HashMap::new(),
            keys_released: HashMap::new(),
            keys_pressed_list: Vec::new(),
            keys_released_list: Vec::new(),
            mouse_x: 0,
            mouse_y: 0,
            mouse_buttons_down: HashMap::new(),
            mouse_buttons_pressed: HashMap::new(),
            mouse_buttons_released: HashMap::new(),
        }
    }

    /// Returns the current status of the given key (true if currently down).
    pub fn key(&self, scan_code: ScanCode) -> (r: bool)
        ensures
            r == self.spec_key(scan_code),
    {
        map_get_true(&self.keys_down, scan_code)
    }

    /// Returns true if the given key was pressed since the last update.
    pub fn key_pressed(&self, scan_code: ScanCode) -> (r: bool)
        ensures
            r == self.spec_key_pressed(scan_code),
    {
        map_get_true(&self.keys_pressed, scan_code)
    }

    /// Returns true if the given key was released since the last update.
    pub fn key_released(&self, scan_code: ScanCode) -> (r: bool)
        ensures
            r == self.spec_key_released(scan_code),
    {
        map_get_true(&self.keys_released, scan_code)
    }

    /// Returns all the keys that were pressed since the last update, without
    /// duplicates, in no particular order.
    pub fn keys_pressed(&self) -> (r: Vec<ScanCode>)
        ensures
            r@ == self.spec_keys_pressed_list(),
    {
        self.keys_pressed_list.clone()
    }

    /// Returns all the keys that were released since the last update,
    /// without duplicates, in no particular order.
    pub fn keys_released(&self) -> (r: Vec<ScanCode>)
        ensures
            r@ == self.spec_keys_released_list(),
    {
        self.keys_released_list.clone()
    }

    /// Characters typed since the last update.
    pub fn text(&self) -> (r: &str)
        ensures
            r@ == self.spec_text(),
    {
        self.text.as_str()
    }

    /// Returns the current status of the given mouse button (true if
    /// currently down).
    pub fn mouse_button(&self, button: MouseButton) -> (r: bool)
        ensures
            r == self.spec_mouse_button(button),
    {
        map_get_true(&self.mouse_buttons_down, button)
    }

    /// Returns true if the given mouse button was pressed since the last
    /// update.
    pub fn mouse_pressed(&self, button: MouseButton) -> (r: bool)
        ensures
            r == self.spec_mouse_pressed(button),
    {
        map_get_true(&self.mouse_buttons_pressed, button)
    }

    /// Returns true if the given mouse button was released since the last
    /// update.
    pub fn mouse_released(&self, button: MouseButton) -> (r: bool)
        ensures
            r == self.spec_mouse_released(button),
    {
        map_get_true(&self.mouse_buttons_released, button)
    }

    /// The current mouse position, exactly as the driver reported it. The
    /// driver encodes the sub-cell coordinate pair in two 32-bit values; the
    /// snapshot carries the encoding through untouched.
    pub fn mouse_position(&self) -> (r: (u32, u32))
        ensures
            r == self.spec_mouse_position(),
    {
        (self.mouse_x, self.mouse_y)
    }

    /// Whether the window close button has been activated.
    pub fn close_requested(&self) -> (r: bool)
        ensures
            r == self.spec_close_requested(),
    {
        self.close_requested
    }

    /// Clear the frame-scoped parts of the snapshot: the changed-this-frame
    /// mappings, the text buffer and the close flag. The down mappings
    /// persist.
    fn on_frame(&mut self)
        ensures
            forall|k: ScanCode| !(#[trigger] final(self).spec_key_pressed(k)),
            forall|k: ScanCode| !(#[trigger] final(self).spec_key_released(k)),
            forall|b: MouseButton| !(#[trigger] final(self).spec_mouse_pressed(b)),
            forall|b: MouseButton| !(#[trigger] final(self).spec_mouse_released(b)),
            final(self).spec_keys_pressed_list() == Seq::<ScanCode>::empty(),
            final(self).spec_keys_released_list() == Seq::<ScanCode>::empty(),
            final(self).spec_text() == Seq::<char>::empty(),
            !final(self).spec_close_requested(),
            final(self).keys_down == old(self).keys_down,
            final(self).mouse_buttons_down == old(self).mouse_buttons_down,
            final(self).mouse_x == old(self).mouse_x,
            final(self).mouse_y == old(self).mouse_y,
    {
        self.text = String::new();
        self.close_requested = false;

        self.keys_released.clear();
        self.keys_pressed.clear();
        self.keys_pressed_list = Vec::new();
        self.keys_released_list = Vec::new();

        self.mouse_buttons_pressed.clear();
        self.mouse_buttons_released.clear();
    }

    /// Record the keys newly reported down: each is marked pressed this
    /// frame and down, and enters the frame's pressed list once.
    fn handle_pressed(&mut self, pressed: &Vec<ScanCode>)
        requires
            forall|k: ScanCode|
                old(self).spec_keys_pressed_list().contains(k) <==> #[trigger] old(
                    self,
                ).spec_key_pressed(k),
        ensures
            forall|k: ScanCode|
                #[trigger] final(self).spec_key_pressed(k) == (old(self).spec_key_pressed(k)
                    || pressed@.contains(k)),
            forall|k: ScanCode|
                #[trigger] final(self).spec_key(k) == (old(self).spec_key(k)
                    || pressed@.contains(k)),
            forall|k: ScanCode|
                final(self).spec_keys_pressed_list().contains(k) <==> #[trigger] final(self).spec_key_pressed(k),
            final(self).keys_released_list == old(self).keys_released_list,
            final(self).keys_released == old(self).keys_released,
            final(self).mouse_buttons_down == old(self).mouse_buttons_down,
            final(self).mouse_buttons_pressed == old(self).mouse_buttons_pressed,
            final(self).mouse_buttons_released == old(self).mouse_buttons_released,
            final(self).text == old(self).text,
            final(self).close_requested == old(self).close_requested,
            final(self).mouse_x == old(self).mouse_x,
            final(self).mouse_y == old(self).mouse_y,
    {
        let ghost pre = *self;
        let n = pressed.len();
        let mut i: usize = 0;
        while i < n
            invariant
                i <= n,
                n == pressed@.len(),
                forall|k: ScanCode|
                    #[trigger] self.spec_key_pressed(k) == (pre.spec_key_pressed(k)
                        || pressed@.subrange(0, i as int).contains(k)),
                forall|k: ScanCode|
                    #[trigger] self.spec_key(k) == (pre.spec_key(k) || pressed@.subrange(
                        0,
                        i as int,
                    ).contains(k)),
                forall|k: ScanCode|
                    self.spec_keys_pressed_list().contains(k) <==> #[trigger] self.spec_key_pressed(
                        k,
                    ),
                self.keys_released_list == pre.keys_released_list,
                self.keys_released == pre.keys_released,
                self.mouse_buttons_down == pre.mouse_buttons_down,
                self.mouse_buttons_pressed == pre.mouse_buttons_pressed,
                self.mouse_buttons_released == pre.mouse_buttons_released,
                self.text == pre.text,
                self.close_requested == pre.close_requested,
                self.mouse_x == pre.mouse_x,
                self.mouse_y == pre.mouse_y,
            decreases n - i,
        {
            let ghost prev = *self;
            let k = pressed[i];
            if !map_get_true(&self.keys_pressed, k) {
                self.keys_pressed_list.push(k);
            }
            self.keys_pressed.insert(k, true);
            self.keys_down.insert(k, true);
            i += 1;
            proof {
                assert forall|k2: ScanCode|
                    #[trigger] self.spec_key_pressed(k2) == (pre.spec_key_pressed(k2)
                        || pressed@.subrange(0, i as int).contains(k2)) by {
                    assert(prev.spec_key_pressed(k2) == (pre.spec_key_pressed(k2)
                        || pressed@.subrange(0, i as int - 1).contains(k2)));
                }
                assert forall|k2: ScanCode|
                    self.spec_keys_pressed_list().contains(k2)
                        <==> #[trigger] self.spec_key_pressed(k2) by {
                    assert(prev.spec_keys_pressed_list().contains(k2) <==> prev.spec_key_pressed(
                        k2,
                    ));
                }
                assert forall|k2: ScanCode|
                    #[trigger] self.spec_key(k2) == (pre.spec_key(k2) || pressed@.subrange(
                        0,
                        i as int,
                    ).contains(k2)) by {
                    assert(prev.spec_key(k2) == (pre.spec_key(k2) || pressed@.subrange(
                        0,
                        i as int - 1,
                    ).contains(k2)));
                }
            }
        }
        proof {
            assert(pressed@.subrange(0, n as int) =~= pressed@);
        }
    }

    /// Record the keys newly reported up: each is marked released this frame
    /// and no longer down, and enters the frame's released list once.
    fn handle_released(&mut self, released: &Vec<ScanCode>)
        requires
            forall|k: ScanCode|
                old(self).spec_keys_released_list().contains(k) <==> #[trigger] old(
                    self,
                ).spec_key_released(k),
        ensures
            forall|k: ScanCode|
                #[trigger] final(self).spec_key_released(k) == (old(self).spec_key_released(k)
                    || released@.contains(k)),
            forall|k: ScanCode|
                #[trigger] final(self).spec_key(k) == (old(self).spec_key(k)
                    && !released@.contains(k)),
            forall|k: ScanCode|
                final(self).spec_keys_released_list().contains(k) <==> #[trigger] final(self).spec_key_released(k),
            final(self).keys_pressed_list == old(self).keys_pressed_list,
            final(self).keys_pressed == old(self).keys_pressed,
            final(self).mouse_buttons_down == old(self).mouse_buttons_down,
            final(self).mouse_buttons_pressed == old(self).mouse_buttons_pressed,
            final(self).mouse_buttons_released == old(self).mouse_buttons_released,
            final(self).text == old(self).text,
            final(self).close_requested == old(self).close_requested,
            final(self).mouse_x == old(self).mouse_x,
            final(self).mouse_y == old(self).mouse_y,
    {
        let ghost pre = *self;
        let n = released.len();
        let mut i: usize = 0;
        while i < n
            invariant
                i <= n,
                n == released@.len(),
                forall|k: ScanCode|
                    #[trigger] self.spec_key_released(k) == (pre.spec_key_released(k)
                        || released@.subrange(0, i as int).contains(k)),
                forall|k: ScanCode|
                    #[trigger] self.spec_key(k) == (pre.spec_key(k) && !released@.subrange(
                        0,
                        i as int,
                    ).contains(k)),
                forall|k: ScanCode|
                    self.spec_keys_released_list().contains(k)
                        <==> #[trigger] self.spec_key_released(k),
                self.keys_pressed_list == pre.keys_pressed_list,
                self.keys_pressed == pre.keys_pressed,
                self.mouse_buttons_down == pre.mouse_buttons_down,
                self.mouse_buttons_pressed == pre.mouse_buttons_pressed,
                self.mouse_buttons_released == pre.mouse_buttons_released,
                self.text == pre.text,
                self.close_requested == pre.close_requested,
                self.mouse_x == pre.mouse_x,
                self.mouse_y == pre.mouse_y,
            decreases n - i,
        {
            let ghost prev = *self;
            let k = released[i];
            if !map_get_true(&self.keys_released, k) {
                self.keys_released_list.push(k);
            }
            self.keys_released.insert(k, true);
            self.keys_down.insert(k, false);
            i += 1;
            proof {
                assert forall|k2: ScanCode|
                    #[trigger] self.spec_key_released(k2) == (pre.spec_key_released(k2)
                        || released@.subrange(0, i as int).contains(k2)) by {
                    assert(prev.spec_key_released(k2) == (pre.spec_key_released(k2)
                        || released@.subrange(0, i as int - 1).contains(k2)));
                }
                assert forall|k2: ScanCode|
                    self.spec_keys_released_list().contains(k2)
                        <==> #[trigger] self.spec_key_released(k2) by {
                    assert(prev.spec_keys_released_list().contains(k2) <==> prev.spec_key_released(
                        k2,
                    ));
                }
                assert forall|k2: ScanCode|
                    #[trigger] self.spec_key(k2) == (pre.spec_key(k2) && !released@.subrange(
                        0,
                        i as int,
                    ).contains(k2)) by {
                    assert(prev.spec_key(k2) == (pre.spec_key(k2) && !released@.subrange(
                        0,
                        i as int - 1,
                    ).contains(k2)));
                }
            }
        }
        proof {
            assert(released@.subrange(0, n as int) =~= released@);
        }
    }

    /// Translate the mouse report for exactly the configured buttons. A
    /// button reported both pressed and released in the same frame has both
    /// transitions recorded, and ends the frame not down, since the release
    /// is applied after the press. Buttons outside the listen list are never
    /// queried and never enter any mapping.
    fn handle_mouse(
        &mut self,
        listeners: &Vec<MouseButton>,
        raw_pressed: &Vec<MouseButton>,
        raw_released: &Vec<MouseButton>,
    )
        ensures
            forall|b: MouseButton|
                #[trigger] final(self).spec_mouse_pressed(b) == (old(self).spec_mouse_pressed(b)
                    || (listeners@.contains(b) && raw_pressed@.contains(b))),
            forall|b: MouseButton|
                #[trigger] final(self).spec_mouse_released(b) == (old(self).spec_mouse_released(b)
                    || (listeners@.contains(b) && raw_released@.contains(b))),
            forall|b: MouseButton|
                #[trigger] final(self).spec_mouse_button(b) == if listeners@.contains(b)
                    && raw_released@.contains(b) {
                    false
                } else if listeners@.contains(b) && raw_pressed@.contains(b) {
                    true
                } else {
                    old(self).spec_mouse_button(b)
                },
            final(self).keys_down == old(self).keys_down,
            final(self).keys_pressed == old(self).keys_pressed,
            final(self).keys_released == old(self).keys_released,
            final(self).keys_pressed_list == old(self).keys_pressed_list,
            final(self).keys_released_list == old(self).keys_released_list,
            final(self).text == old(self).text,
            final(self).close_requested == old(self).close_requested,
            final(self).mouse_x == old(self).mouse_x,
            final(self).mouse_y == old(self).mouse_y,
    {
        let ghost pre = *self;
        let n = listeners.len();
        let mut i: usize = 0;
        while i < n
            invariant
                i <= n,
                n == listeners@.len(),
                forall|b: MouseButton|
                    #[trigger] self.spec_mouse_pressed(b) == (pre.spec_mouse_pressed(b) || (
                    listeners@.subrange(0, i as int).contains(b) && raw_pressed@.contains(b))),
                forall|b: MouseButton|
                    #[trigger] self.spec_mouse_released(b) == (pre.spec_mouse_released(b) || (
                    listeners@.subrange(0, i as int).contains(b) && raw_released@.contains(b))),
                forall|b: MouseButton|
                    #[trigger] self.spec_mouse_button(b) == if listeners@.subrange(
                        0,
                        i as int,
                    ).contains(b) && raw_released@.contains(b) {
                        false
                    } else if listeners@.subrange(0, i as int).contains(b)
                        && raw_pressed@.contains(b) {
                        true
                    } else {
                        pre.spec_mouse_button(b)
                    },
                self.keys_down == pre.keys_down,
                self.keys_pressed == pre.keys_pressed,
                self.keys_released == pre.keys_released,
                self.keys_pressed_list == pre.keys_pressed_list,
                self.keys_released_list == pre.keys_released_list,
                self.text == pre.text,
                self.close_requested == pre.close_requested,
                self.mouse_x == pre.mouse_x,
                self.mouse_y == pre.mouse_y,
            decreases n - i,
        {
            let ghost prev = *self;
            let b = listeners[i];

            // On press
            if seq_has(raw_pressed, b) {
                self.mouse_buttons_pressed.insert(b, true);
                self.mouse_buttons_down.insert(b, true);
            }

            // On release, which is applied after the press
            if seq_has(raw_released, b) {
                self.mouse_buttons_down.insert(b, false);
                self.mouse_buttons_released.insert(b, true);
            }

            i += 1;
            proof {
                assert forall|b2: MouseButton|
                    #[trigger] self.spec_mouse_pressed(b2) == (pre.spec_mouse_pressed(b2) || (
                    listeners@.subrange(0, i as int).contains(b2) && raw_pressed@.contains(b2)))
                    by {
                    assert(prev.spec_mouse_pressed(b2) == (pre.spec_mouse_pressed(b2) || (
                    listeners@.subrange(0, i as int - 1).contains(b2) && raw_pressed@.contains(
                        b2,
                    ))));
                }
                assert forall|b2: MouseButton|
                    #[trigger] self.spec_mouse_released(b2) == (pre.spec_mouse_released(b2) || (
                    listeners@.subrange(0, i as int).contains(b2) && raw_released@.contains(b2)))
                    by {
                    assert(prev.spec_mouse_released(b2) == (pre.spec_mouse_released(b2) || (
                    listeners@.subrange(0, i as int - 1).contains(b2) && raw_released@.contains(
                        b2,
                    ))));
                }
                assert forall|b2: MouseButton|
                    #[trigger] self.spec_mouse_button(b2) == if listeners@.subrange(
                        0,
                        i as int,
                    ).contains(b2) && raw_released@.contains(b2) {
                        false
                    } else if listeners@.subrange(0, i as int).contains(b2)
                        && raw_pressed@.contains(b2) {
                        true
                    } else {
                        pre.spec_mouse_button(b2)
                    } by {
                    assert(prev.spec_mouse_button(b2) == if listeners@.subrange(
                        0,
                        i as int - 1,
                    ).contains(b2) && raw_released@.contains(b2) {
                        false
                    } else if listeners@.subrange(0, i as int - 1).contains(b2)
                        && raw_pressed@.contains(b2) {
                        true
                    } else {
                        pre.spec_mouse_button(b2)
                    });
                }
            }
        }
        proof {
            assert(listeners@.subrange(0, n as int) =~= listeners@);
        }
    }

    /// Translate one frame's raw report into the snapshot: clear the
    /// frame-scoped state, record key and mouse transitions (for the mouse,
    /// only the configured buttons), and copy the text, mouse position and
    /// close flag verbatim.
    pub fn handle_input(&mut self, mouse_button_listeners: &Vec<MouseButton>, raw: &RawInput)
        ensures
            input_translated(*old(self), *final(self), mouse_button_listeners@, *raw),
    {
        let ghost s0 = *self;
        self.on_frame();
        let ghost s1 = *self;

        self.handle_pressed(&raw.keys_pressed);
        let ghost s2 = *self;
        proof {
            assert forall|k: ScanCode|
                self.spec_keys_released_list().contains(k)
                    <==> #[trigger] self.spec_key_released(k) by {
                assert(!s1.spec_key_released(k));
                assert(self.spec_key_released(k) == s1.spec_key_released(k));
                assert(s1.spec_keys_released_list() == Seq::<ScanCode>::empty());
            }
        }
        self.handle_released(&raw.keys_released);
        let ghost s3 = *self;
        self.handle_mouse(mouse_button_listeners, &raw.mouse_pressed, &raw.mouse_released);
        let ghost s4 = *self;

        self.text = raw.text.clone();
        self.mouse_x = raw.mouse_x;
        self.mouse_y = raw.mouse_y;
        self.close_requested = raw.close_requested;

        proof {
            let listeners = mouse_button_listeners@;
            assert forall|k: ScanCode|
                #[trigger] self.spec_key_pressed(k) == raw.keys_pressed@.contains(k) by {
                assert(!s1.spec_key_pressed(k));
                assert(s2.spec_key_pressed(k) == (s1.spec_key_pressed(k)
                    || raw.keys_pressed@.contains(k)));
                assert(self.spec_key_pressed(k) == s2.spec_key_pressed(k));
            }
            assert forall|k: ScanCode|
                #[trigger] self.spec_key_released(k) == raw.keys_released@.contains(k) by {
                assert(!s1.spec_key_released(k));
                assert(s2.spec_key_released(k) == s1.spec_key_released(k));
                assert(s3.spec_key_released(k) == (s2.spec_key_released(k)
                    || raw.keys_released@.contains(k)));
                assert(self.spec_key_released(k) == s3.spec_key_released(k));
            }
            assert forall|k: ScanCode|
                self.spec_keys_pressed_list().contains(k) <==> #[trigger] raw.keys_pressed@.contains(
                    k,
                ) by {
                assert(s2.spec_keys_pressed_list().contains(k) <==> s2.spec_key_pressed(k));
                assert(s2.spec_key_pressed(k) == (s1.spec_key_pressed(k)
                    || raw.keys_pressed@.contains(k)));
                assert(!s1.spec_key_pressed(k));
                assert(self.spec_keys_pressed_list() == s2.spec_keys_pressed_list());
            }
            assert forall|k: ScanCode|
                self.spec_keys_released_list().contains(k)
                    <==> #[trigger] raw.keys_released@.contains(k) by {
                assert(s3.spec_keys_released_list().contains(k) <==> s3.spec_key_released(k));
                assert(s3.spec_key_released(k) == (s2.spec_key_released(k)
                    || raw.keys_released@.contains(k)));
                assert(s2.spec_key_released(k) == s1.spec_key_released(k));
                assert(!s1.spec_key_released(k));
                assert(self.spec_keys_released_list() == s3.spec_keys_released_list());
            }
            assert forall|k: ScanCode| #[trigger] self.spec_key(k) == key_down_after(s0, *raw, k)
                by {
                assert(s1.spec_key(k) == s0.spec_key(k));
                assert(s2.spec_key(k) == (s1.spec_key(k) || raw.keys_pressed@.contains(k)));
                assert(s3.spec_key(k) == (s2.spec_key(k) && !raw.keys_released@.contains(k)));
                assert(self.spec_key(k) == s3.spec_key(k));
            }
            assert forall|b: MouseButton|
                #[trigger] self.spec_mouse_pressed(b) == (listeners.contains(b)
                    && raw.mouse_pressed@.contains(b)) by {
                assert(!s1.spec_mouse_pressed(b));
                assert(s3.spec_mouse_pressed(b) == s1.spec_mouse_pressed(b));
                assert(s4.spec_mouse_pressed(b) == (s3.spec_mouse_pressed(b) || (
                listeners.contains(b) && raw.mouse_pressed@.contains(b))));
                assert(self.spec_mouse_pressed(b) == s4.spec_mouse_pressed(b));
            }
            assert forall|b: MouseButton|
                #[trigger] self.spec_mouse_released(b) == (listeners.contains(b)
                    && raw.mouse_released@.contains(b)) by {
                assert(!s1.spec_mouse_released(b));
                assert(s3.spec_mouse_released(b) == s1.spec_mouse_released(b));
                assert(s4.spec_mouse_released(b) == (s3.spec_mouse_released(b) || (
                listeners.contains(b) && raw.mouse_released@.contains(b))));
                assert(self.spec_mouse_released(b) == s4.spec_mouse_released(b));
            }
            assert forall|b: MouseButton|
                #[trigger] self.spec_mouse_button(b) == mouse_down_after(s0, listeners, *raw, b)
                by {
                assert(s3.spec_mouse_button(b) == s0.spec_mouse_button(b));
                assert(s4.spec_mouse_button(b) == if listeners.contains(b)
                    && raw.mouse_released@.contains(b) {
                    false
                } else if listeners.contains(b) && raw.mouse_pressed@.contains(b) {
                    true
                } else {
                    s3.spec_mouse_button(b)
                });
                assert(self.spec_mouse_button(b) == s4.spec_mouse_button(b));
            }
        }
    }
}

impl Default for DoryenInput {
    /// The default snapshot has seen no input.
    fn default() -> (r: Self)
        ensures
            r.spec_is_clear(),
    {
        DoryenInput::new()
    }
}

/// Whether the key ends a translation down, given its state before and the
/// frame's raw report: a reported release wins over a reported press, a
/// reported press wins over history, and otherwise the key keeps its state.
pub open spec fn key_down_after(pre: DoryenInput, raw: RawInput, k: ScanCode) -> bool {
    if raw.keys_released@.contains(k) {
        false
    } else if raw.keys_pressed@.contains(k) {
        true
    } else {
        pre.spec_key(k)
    }
}

/// Whether the mouse button ends a translation down. Only listened buttons
/// change state; for them, as for keys, the release is applied after the
/// press.
pub open spec fn mouse_down_after(
    pre: DoryenInput,
    listeners: Seq<MouseButton>,
    raw: RawInput,
    b: MouseButton,
) -> bool {
    if listeners.contains(b) && raw.mouse_released@.contains(b) {
        false
    } else if listeners.contains(b) && raw.mouse_pressed@.contains(b) {
        true
    } else {
        pre.spec_mouse_button(b)
    }
}

/// What one translation step does: how the snapshot after `handle_input`
/// relates to the snapshot before it, the configured listen list, and the
/// frame's raw report.
pub open spec fn input_translated(
    pre: DoryenInput,
    post: DoryenInput,
    listeners: Seq<MouseButton>,
    raw: RawInput,
) -> bool {
    &&& forall|k: ScanCode| #[trigger] post.spec_key_pressed(k) == raw.keys_pressed@.contains(k)
    &&& forall|k: ScanCode| #[trigger] post.spec_key_released(k) == raw.keys_released@.contains(k)
    &&& forall|k: ScanCode| #[trigger] post.spec_key(k) == key_down_after(pre, raw, k)
    &&& forall|b: MouseButton|
        #[trigger] post.spec_mouse_pressed(b) == (listeners.contains(b)
            && raw.mouse_pressed@.contains(b))
    &&& forall|b: MouseButton|
        #[trigger] post.spec_mouse_released(b) == (listeners.contains(b)
            && raw.mouse_released@.contains(b))
    &&& forall|b: MouseButton| #[trigger] post.spec_mouse_button(b) == mouse_down_after(
        pre,
        listeners,
        raw,
        b,
    )
    &&& forall|k: ScanCode|
        post.spec_keys_pressed_list().contains(k) <==> #[trigger] raw.keys_pressed@.contains(k)
    &&& forall|k: ScanCode|
        post.spec_keys_released_list().contains(k) <==> #[trigger] raw.keys_released@.contains(k)
    &&& post.spec_text() == raw.text@
    &&& post.spec_mouse_position() == (raw.mouse_x, raw.mouse_y)
    &&& post.spec_close_requested() == raw.close_requested
}

/// Installs the input snapshot into the host store.
#[derive(Clone, Copy, Debug)]
pub struct DoryenInputPlugin;

impl DoryenInputPlugin {
    /// Install a fresh input snapshot into the store.
    pub fn build(&self, store: &mut crate::store::HostStore)
        ensures
            final(store).input.spec_is_clear(),
            final(store).root_console == old(store).root_console,
            final(store).fps_info == old(store).fps_info,
            final(store).render_state == old(store).render_state,
            final(store).render_systems == old(store).render_systems,
            final(store).set_font_path_events == old(store).set_font_path_events,
            final(store).resized_events == old(store).resized_events,
            final(store).app_exit_events == old(store).app_exit_events,
    {
        store.input = DoryenInput::new();
    }
}

/// Law: a key reported only as pressed is marked both pressed and down by
/// the translation; a further translation with no new key events leaves it
/// down but no longer pressed — the level-triggered state persists, the
/// edge-triggered state does not.
pub proof fn lemma_pressed_persists_as_down(
    s0: DoryenInput,
    s1: DoryenInput,
    s2: DoryenInput,
    listeners: Seq<MouseButton>,
    raw1: RawInput,
    raw2: RawInput,
    k: ScanCode,
)
    requires
        input_translated(s0, s1, listeners, raw1),
        input_translated(s1, s2, listeners, raw2),
        raw1.keys_pressed@.contains(k),
        !raw1.keys_released@.contains(k),
        raw2.keys_pressed@.len() == 0,
        raw2.keys_released@.len() == 0,
    ensures
        s1.spec_key_pressed(k),
        s1.spec_key(k),
        !s2.spec_key_pressed(k),
        s2.spec_key(k),
{
}

/// The snapshot's mouse state is confined to the listen list: a button
/// outside it never reads as down, pressed or released.
pub open spec fn mouse_confined(s: DoryenInput, listeners: Seq<MouseButton>) -> bool {
    &&& forall|b: MouseButton| #[trigger] s.spec_mouse_button(b) ==> listeners.contains(b)
    &&& forall|b: MouseButton| #[trigger] s.spec_mouse_pressed(b) ==> listeners.contains(b)
    &&& forall|b: MouseButton| #[trigger] s.spec_mouse_released(b) ==> listeners.contains(b)
}

/// Law: a fresh snapshot is confined to any listen list.
pub proof fn lemma_mouse_confined_initially(s: DoryenInput, listeners: Seq<MouseButton>)
    requires
        s.spec_is_clear(),
    ensures
        mouse_confined(s, listeners),
{
}

/// Law: the translation keeps the snapshot's mouse state confined to the
/// listen list, whatever the raw report says about other buttons. Together
/// with confinement of the fresh snapshot, a button absent from the listen
/// list never appears in any down, pressed or released query result.
pub proof fn lemma_mouse_confined_preserved(
    pre: DoryenInput,
    post: DoryenInput,
    listeners: Seq<MouseButton>,
    raw: RawInput,
)
    requires
        mouse_confined(pre, listeners),
        input_translated(pre, post, listeners, raw),
    ensures
        mouse_confined(post, listeners),
{
}

} // verus!
