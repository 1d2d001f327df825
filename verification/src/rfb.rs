//! The wire format of the RFB protocol, as far as the driver speaks it: the
//! events it sends for the pointer and the keyboard, and the framebuffer it
//! keeps from what the server paints.

use crate::needle::{PngView, PNG};
use crate::text::chars_of;
use crate::vnc::{VNCEventReq, LEFT_BUTTON};
use vstd::prelude::*;

verus! {

/// The key code of the return key.
pub const KEY_RETURN: u32 = 0xff0d;

/// A message to the server.
#[derive(Debug, Clone, Copy, PartialEq, Eq, Structural)]
pub enum Wire {
    /// The pointer is at (`x`, `y`) with these buttons down.
    Pointer { buttons: u8, x: u16, y: u16 },
    /// The key went down or up.
    Key { key: u32, down: bool },
    /// Send the screen again: all of it, or what has changed.
    UpdateRequest { incremental: bool, width: u16, height: u16 },
}

/// The high byte of a number of 16 bits.
pub open spec fn hi(v: u16) -> u8 {
    (v / 256) as u8
}

/// The low byte of a number of 16 bits.
pub open spec fn lo(v: u16) -> u8 {
    (v % 256) as u8
}

/// The bytes of a message, as the protocol lays them out: numbers with the
/// high byte first.
pub open spec fn encoded(w: Wire) -> Seq<u8> {
    match w {
        Wire::Pointer { buttons, x, y } => seq![5u8, buttons, hi(x), lo(x), hi(y), lo(y)],
        Wire::Key { key, down } => seq![
            4u8,
            if down {
                1u8
            } else {
                0u8
            },
            0u8,
            0u8,
            (key / 0x100_0000) as u8,
            (key / 0x1_0000 % 256) as u8,
            (key / 0x100 % 256) as u8,
            (key % 256) as u8,
        ],
        Wire::UpdateRequest { incremental, width, height } => seq![
            3u8,
            if incremental {
                1u8
            } else {
                0u8
            },
            0u8,
            0u8,
            0u8,
            0u8,
            hi(width),
            lo(width),
            hi(height),
            lo(height),
        ],
    }
}

/// Lays a message out in bytes.
pub fn encode(w: Wire) -> (bytes: Vec<u8>)
    ensures
        bytes@ == encoded(w),
{
    let mut bytes: Vec<u8> = Vec::new();
    match w {
        Wire::Pointer { buttons, x, y } => {
            bytes.push(5);
            bytes.push(buttons);
            bytes.push((x / 256) as u8);
            bytes.push((x % 256) as u8);
            bytes.push((y / 256) as u8);
            bytes.push((y % 256) as u8);
        },
        Wire::Key { key, down } => {
            bytes.push(4);
            bytes.push(
                if down {
                    1
                } else {
                    0
                },
            );
            bytes.push(0);
            bytes.push(0);
            bytes.push((key / 0x100_0000) as u8);
            bytes.push((key / 0x1_0000 % 256) as u8);
            bytes.push((key / 0x100 % 256) as u8);
            bytes.push((key % 256) as u8);
        },
        Wire::UpdateRequest { incremental, width, height } => {
            bytes.push(3);
            bytes.push(
                if incremental {
                    1
                } else {
                    0
                },
            );
            bytes.push(0);
            bytes.push(0);
            bytes.push(0);
            bytes.push(0);
            bytes.push((width / 256) as u8);
            bytes.push((width % 256) as u8);
            bytes.push((height / 256) as u8);
            bytes.push((height % 256) as u8);
        },
    }
    assert(bytes@ =~= encoded(w));
    bytes
}

/// The events of a key combination: every key goes down, in the order in
/// which the keys are named, then every key comes up, the last one first.
pub open spec fn key_events(keys: Seq<u32>) -> Seq<Wire> {
    Seq::new(
        2 * keys.len(),
        |i: int|
            if i < keys.len() {
                Wire::Key { key: keys[i], down: true }
            } else {
                Wire::Key { key: keys[2 * keys.len() - 1 - i], down: false }
            },
    )
}

/// The key that types a character: the return key for a line feed, the
/// character's own code for any other.
pub open spec fn key_of_char(c: char) -> u32 {
    if c == '\n' {
        KEY_RETURN
    } else {
        c as u32
    }
}

/// The events that type a text: each character's key goes down and comes up
/// before the next one.
pub open spec fn type_events(text: Seq<char>) -> Seq<Wire> {
    Seq::new(
        2 * text.len(),
        |i: int| Wire::Key { key: key_of_char(text[i / 2]), down: i % 2 == 0 },
    )
}

/// Where the pointer is and which buttons are down.
#[derive(Debug, Clone, Copy, PartialEq, Eq, Structural)]
pub struct PointerState {
    pub x: u16,
    pub y: u16,
    pub buttons: u8,
}

impl PointerState {
    /// The event that tells the server of this state.
    pub open spec fn event(self) -> Wire {
        Wire::Pointer { buttons: self.buttons, x: self.x, y: self.y }
    }

    /// The state with these buttons down as well.
    pub open spec fn press(self, mask: u8) -> PointerState {
        PointerState { buttons: self.buttons | mask, ..self }
    }

    /// The state with these buttons up.
    pub open spec fn release(self, mask: u8) -> PointerState {
        PointerState { buttons: self.buttons & !mask, ..self }
    }

    /// The state with the pointer at (`x`, `y`).
    pub open spec fn at(self, x: u16, y: u16) -> PointerState {
        PointerState { x, y, ..self }
    }
}

/// The last coordinate of a screen of this extent.
pub open spec fn far_edge(extent: u16) -> u16 {
    if extent == 0 {
        0
    } else {
        (extent - 1) as u16
    }
}

/// Where a request leaves the pointer on a screen of this size.
pub open spec fn pointer_after(req: VNCEventReq, p: PointerState, width: u16, height: u16)
    -> PointerState {
    match req {
        VNCEventReq::MouseMove(x, y) => p.at(x, y),
        VNCEventReq::MouseDrag(x, y) => p.press(LEFT_BUTTON).at(x, y).release(LEFT_BUTTON),
        VNCEventReq::MouseHide => p.at(far_edge(width), far_edge(height)),
        VNCEventReq::MoveDown(mask) => p.press(mask),
        VNCEventReq::MouseClick(mask) => p.press(mask).release(mask),
        VNCEventReq::MoveUp(mask) => p.release(mask),
        _ => p,
    }
}

/// The events that a request sends to the server, with the pointer in state
/// `p` on a screen of this size.
///
/// A move tells the new place. A drag presses the left button where the
/// pointer is, moves and lets go. A click presses the buttons and lets go. To
/// hide the pointer is to move it to the far corner of the screen. A refresh
/// asks for the whole screen. Screenshots send nothing.
pub open spec fn events_of(req: VNCEventReq, p: PointerState, width: u16, height: u16) -> Seq<
    Wire,
> {
    match req {
        VNCEventReq::TakeScreenShot(_) | VNCEventReq::GetScreenShot => Seq::<Wire>::empty(),
        VNCEventReq::Refresh => seq![Wire::UpdateRequest { incremental: false, width, height }],
        VNCEventReq::MouseMove(x, y) => seq![p.at(x, y).event()],
        VNCEventReq::MouseDrag(x, y) => seq![
            p.press(LEFT_BUTTON).event(),
            p.press(LEFT_BUTTON).at(x, y).event(),
            p.press(LEFT_BUTTON).at(x, y).release(LEFT_BUTTON).event(),
        ],
        VNCEventReq::MouseClick(mask) => seq![
            p.press(mask).event(),
            p.press(mask).release(mask).event(),
        ],
        VNCEventReq::MouseHide => seq![p.at(far_edge(width), far_edge(height)).event()],
        VNCEventReq::MoveDown(mask) => seq![p.press(mask).event()],
        VNCEventReq::MoveUp(mask) => seq![p.release(mask).event()],
        VNCEventReq::SendKey { keys } => key_events(keys@),
        VNCEventReq::TypeString(s) => type_events(s@),
    }
}

impl PointerState {
    /// A pointer in the near corner with no button down.
    pub fn new() -> (p: PointerState)
        ensures
            p == (PointerState { x: 0, y: 0, buttons: 0 }),
    {
        PointerState { x: 0, y: 0, buttons: 0 }
    }

    fn wire(&self) -> (w: Wire)
        ensures
            w == self.event(),
    {
        Wire::Pointer { buttons: self.buttons, x: self.x, y: self.y }
    }
}

/// Lists the events of a key combination.
pub fn send_keys(keys: &[u32]) -> (events: Vec<Wire>)
    ensures
        events@ == key_events(keys@),
{
    let n: usize = keys.len();
    let mut events: Vec<Wire> = Vec::new();
    let mut i: usize = 0;
    while i < n
        invariant
            n == keys@.len(),
            i <= n,
            events@.len() == i,
            forall|k: int| 0 <= k < i ==> events@[k] == (Wire::Key { key: keys@[k], down: true }),
        decreases n - i,
    {
        events.push(Wire::Key { key: keys[i], down: true });
        i += 1;
    }
    let mut j: usize = n;
    while j > 0
        invariant
            n == keys@.len(),
            j <= n,
            events@.len() == n + (n - j),
            forall|k: int| 0 <= k < n ==> events@[k] == (Wire::Key { key: keys@[k], down: true }),
            forall|k: int|
                n <= k < n + (n - j) ==> events@[k] == (Wire::Key {
                    key: keys@[2 * n - 1 - k],
                    down: false,
                }),
        decreases j,
    {
        j -= 1;
        events.push(Wire::Key { key: keys[j], down: false });
    }
    assert(events@ =~= key_events(keys@));
    events
}

/// Lists the events that type a text.
pub fn type_string(text: &str) -> (events: Vec<Wire>)
    ensures
        events@ == type_events(text@),
{
    let chars = chars_of(text);
    let n: usize = chars.len();
    let mut events: Vec<Wire> = Vec::new();
    let mut i: usize = 0;
    while i < n
        invariant
            chars@ == text@,
            n == chars@.len(),
            i <= n,
            events@.len() == 2 * i,
            forall|k: int|
                0 <= k < 2 * i ==> events@[k] == (Wire::Key {
                    key: key_of_char(text@[k / 2]),
                    down: k % 2 == 0,
                }),
        decreases n - i,
    {
        let c = chars[i];
        let key: u32 = if c == '\n' {
            KEY_RETURN
        } else {
            c as u32
        };
        events.push(Wire::Key { key, down: true });
        events.push(Wire::Key { key, down: false });
        i += 1;
    }
    assert(events@ =~= type_events(text@));
    events
}

/// Lists the events that a request sends to the server and moves the pointer
/// to where the request leaves it.
pub fn events_for(req: &VNCEventReq, pointer: &mut PointerState, width: u16, height: u16) -> (events:
    Vec<Wire>)
    ensures
        events@ == events_of(*req, *old(pointer), width, height),
        *final(pointer) == pointer_after(*req, *old(pointer), width, height),
{
    let mut events: Vec<Wire> = Vec::new();
    match req {
        VNCEventReq::TakeScreenShot(_) => {},
        VNCEventReq::GetScreenShot => {},
        VNCEventReq::Refresh => {
            events.push(Wire::UpdateRequest { incremental: false, width, height });
        },
        VNCEventReq::MouseMove(x, y) => {
            pointer.x = *x;
            pointer.y = *y;
            events.push(pointer.wire());
        },
        VNCEventReq::MouseDrag(x, y) => {
            pointer.buttons = pointer.buttons | LEFT_BUTTON;
            events.push(pointer.wire());
            pointer.x = *x;
            pointer.y = *y;
            events.push(pointer.wire());
            pointer.buttons = pointer.buttons & !LEFT_BUTTON;
            events.push(pointer.wire());
        },
        VNCEventReq::MouseClick(mask) => {
            pointer.buttons = pointer.buttons | *mask;
            events.push(pointer.wire());
            pointer.buttons = pointer.buttons & !*mask;
            events.push(pointer.wire());
        },
        VNCEventReq::MouseHide => {
            pointer.x = if width == 0 {
                0
            } else {
                width - 1
            };
            pointer.y = if height == 0 {
                0
            } else {
                height - 1
            };
            events.push(pointer.wire());
        },
        VNCEventReq::MoveDown(mask) => {
            pointer.buttons = pointer.buttons | *mask;
            events.push(pointer.wire());
        },
        VNCEventReq::MoveUp(mask) => {
            pointer.buttons = pointer.buttons & !*mask;
            events.push(pointer.wire());
        },
        VNCEventReq::SendKey { keys } => {
            return send_keys(keys.as_slice());
        },
        VNCEventReq::TypeString(s) => {
            return type_string(s.as_str());
        },
    }
    assert(events@ =~= events_of(*req, *old(pointer), width, height));
    events
}

/// Where the message at the front of the bytes from the server ends.
#[derive(Debug, Clone, Copy, PartialEq, Eq, Structural)]
pub enum Frame {
    /// More bytes have to come before the message is whole.
    Incomplete,
    /// The message is whole and this many bytes long.
    Whole(usize),
    /// The bytes begin no message that the driver has asked for.
    Unknown,
}

/// The number that two bytes write, the high byte first.
pub open spec fn be16(b: Seq<u8>, i: int) -> int {
    b[i] * 256 + b[i + 1]
}

/// The number that four bytes write, the high byte first.
pub open spec fn be32(b: Seq<u8>, i: int) -> int {
    b[i] * 0x100_0000 + b[i + 1] * 0x1_0000 + b[i + 2] * 0x100 + b[i + 3]
}

/// Where `n` raw rectangles end that begin at `at`. A rectangle is a header
/// of twelve bytes (place, size, encoding) and four bytes for each of its
/// pixels.
pub open spec fn rects_end(b: Seq<u8>, at: int, n: int) -> Frame
    decreases n,
{
    if n <= 0 {
        Frame::Whole(at as usize)
    } else if at + 12 > b.len() {
        Frame::Incomplete
    } else if be32(b, at + 8) != 0 {
        Frame::Unknown
    } else {
        let payload = be16(b, at + 4) * be16(b, at + 6) * 4;
        if at + 12 + payload > b.len() {
            Frame::Incomplete
        } else {
            rects_end(b, at + 12 + payload, n - 1)
        }
    }
}

/// Where the message at the front of `b` ends: a framebuffer update of raw
/// rectangles, a colour map, a bell or a text from the server's clipboard.
pub open spec fn frame_of(b: Seq<u8>) -> Frame {
    if b.len() == 0 {
        Frame::Incomplete
    } else if b[0] == 0 {
        if b.len() < 4 {
            Frame::Incomplete
        } else {
            rects_end(b, 4, be16(b, 2))
        }
    } else if b[0] == 1 {
        if b.len() < 6 || 6 + be16(b, 4) * 6 > b.len() {
            Frame::Incomplete
        } else {
            Frame::Whole((6 + be16(b, 4) * 6) as usize)
        }
    } else if b[0] == 2 {
        Frame::Whole(1)
    } else if b[0] == 3 {
        if b.len() < 8 || 8 + be32(b, 4) > b.len() {
            Frame::Incomplete
        } else {
            Frame::Whole((8 + be32(b, 4)) as usize)
        }
    } else {
        Frame::Unknown
    }
}

/// Reads two bytes as a number.
fn read16(b: &[u8], i: usize) -> (v: u16)
    requires
        i + 2 <= b@.len(),
    ensures
        v == be16(b@, i as int),
{
    (b[i] as u16) * 256 + (b[i + 1] as u16)
}

/// Reads four bytes as a number.
fn read32(b: &[u8], i: usize) -> (v: u32)
    requires
        i + 4 <= b@.len(),
    ensures
        v == be32(b@, i as int),
{
    (b[i] as u32) * 0x100_0000 + (b[i + 1] as u32) * 0x1_0000 + (b[i + 2] as u32) * 0x100 + (b[i
        + 3] as u32)
}

/// The size of a rectangle's pixels on the wire fits 64 bits.
proof fn lemma_payload_bound(w: int, h: int)
    requires
        0 <= w <= u16::MAX,
        0 <= h <= u16::MAX,
    ensures
        0 <= w * h * 4 <= 17_179_344_900,
        (w * h * 4) / 4 * 3 == w * h * 3,
{
    assert(0 <= w * h <= 65535 * 65535) by (nonlinear_arith)
        requires
            0 <= w <= 65535,
            0 <= h <= 65535,
    ;
}

/// Finds where the message at the front of `b` ends.
pub fn frame(b: &[u8]) -> (f: Frame)
    ensures
        f == frame_of(b@),
{
    let len: usize = b.len();
    if len == 0 {
        return Frame::Incomplete;
    }
    let kind = b[0];
    if kind == 0 {
        if len < 4 {
            return Frame::Incomplete;
        }
        let count: u16 = read16(b, 2);
        let mut left: u16 = count;
        let mut at: usize = 4;
        while left > 0
            invariant
                len == b@.len(),
                at <= len,
                frame_of(b@) == rects_end(b@, 4, count as int),
                rects_end(b@, 4, count as int) == rects_end(b@, at as int, left as int),
            decreases left,
        {
            if len - at < 12 {
                return Frame::Incomplete;
            }
            if read32(b, at + 8) != 0 {
                return Frame::Unknown;
            }
            let w = read16(b, at + 4);
            let h = read16(b, at + 6);
            proof {
                lemma_payload_bound(w as int, h as int);
            }
            let payload: u64 = (w as u64) * (h as u64) * 4;
            if payload > (len - at - 12) as u64 {
                return Frame::Incomplete;
            }
            at = at + 12 + payload as usize;
            left -= 1;
        }
        Frame::Whole(at)
    } else if kind == 1 {
        if len < 6 {
            return Frame::Incomplete;
        }
        let end: u64 = 6 + (read16(b, 4) as u64) * 6;
        if end > len as u64 {
            Frame::Incomplete
        } else {
            Frame::Whole(end as usize)
        }
    } else if kind == 2 {
        Frame::Whole(1)
    } else if kind == 3 {
        if len < 8 {
            return Frame::Incomplete;
        }
        let end: u64 = 8 + read32(b, 4) as u64;
        if end > len as u64 {
            Frame::Incomplete
        } else {
            Frame::Whole(end as usize)
        }
    } else {
        Frame::Unknown
    }
}

/// The pixels of the wire, four bytes each with blue first, as the three
/// bytes red, green, blue of the framebuffer.
pub open spec fn rgb_of(bgrx: Seq<u8>) -> Seq<u8> {
    Seq::new((bgrx.len() / 4 * 3) as nat, |i: int| bgrx[i / 3 * 4 + 2 - i % 3])
}

/// Turns the pixels of the wire into those of the framebuffer.
pub fn to_rgb(bgrx: &[u8]) -> (rgb: Vec<u8>)
    ensures
        rgb@ == rgb_of(bgrx@),
{
    let len: usize = bgrx.len();
    let pixels: usize = len / 4;
    let mut rgb: Vec<u8> = Vec::new();
    let mut p: usize = 0;
    while p < pixels
        invariant
            len == bgrx@.len(),
            pixels == len / 4,
            p <= pixels,
            rgb@.len() == 3 * p,
            forall|i: int| 0 <= i < 3 * p ==> rgb@[i] == bgrx@[i / 3 * 4 + 2 - i % 3],
        decreases pixels - p,
    {
        rgb.push(bgrx[4 * p + 2]);
        rgb.push(bgrx[4 * p + 1]);
        rgb.push(bgrx[4 * p]);
        p += 1;
    }
    assert(rgb@ =~= rgb_of(bgrx@));
    rgb
}

/// The framebuffer after one rectangle of an update has been painted. A
/// rectangle that the screen does not hold changes nothing.
pub open spec fn with_rect(screen: PngView, b: Seq<u8>, at: int) -> PngView {
    let (x, y) = (be16(b, at), be16(b, at + 2));
    let (w, h) = (be16(b, at + 4), be16(b, at + 6));
    let rgb = rgb_of(b.subrange(at + 12, at + 12 + w * h * 4));
    if screen.holds(x, y, w, h) {
        PngView { data: screen.painted(x, y, w, rgb, h), ..screen }
    } else {
        screen
    }
}

/// The framebuffer after `n` rectangles that begin at `at` have been
/// painted, one after the other.
pub open spec fn with_rects(screen: PngView, b: Seq<u8>, at: int, n: int) -> PngView
    decreases n,
{
    if n <= 0 {
        screen
    } else {
        with_rects(
            with_rect(screen, b, at),
            b,
            at + 12 + be16(b, at + 4) * be16(b, at + 6) * 4,
            n - 1,
        )
    }
}

/// The framebuffer after the message at the front of `b`: an update paints
/// its rectangles, any other message and any message that is not whole
/// leaves the framebuffer as it is.
pub open spec fn updated(screen: PngView, b: Seq<u8>) -> PngView {
    if b.len() >= 4 && b[0] == 0 && frame_of(b) is Whole {
        with_rects(screen, b, 4, be16(b, 2))
    } else {
        screen
    }
}

/// Paints the update at the front of `b` into the framebuffer.
pub fn apply_update(screen: PNG, b: &[u8]) -> (r: PNG)
    ensures
        r@ == updated(screen@, b@),
        r@.width == screen@.width,
        r@.height == screen@.height,
{
    let len: usize = b.len();
    if len < 4 || b[0] != 0 {
        return screen;
    }
    match frame(b) {
        Frame::Whole(_) => {},
        _ => {
            return screen;
        },
    }
    let count: u16 = read16(b, 2);
    let ghost first = screen@;
    let mut screen = screen;
    let mut left: u16 = count;
    let mut at: usize = 4;
    while left > 0
        invariant
            len == b@.len(),
            at <= len,
            rects_end(b@, at as int, left as int) is Whole,
            with_rects(first, b@, 4, count as int) == with_rects(screen@, b@, at as int, left as int),
            screen@.width == first.width,
            screen@.height == first.height,
        decreases left,
    {
        let x = read16(b, at);
        let y = read16(b, at + 2);
        let w = read16(b, at + 4);
        let h = read16(b, at + 6);
        proof {
            lemma_payload_bound(w as int, h as int);
        }
        let payload: usize = ((w as u64) * (h as u64) * 4) as usize;
        let rgb = to_rgb(vstd::slice::slice_subrange(b, at + 12, at + 12 + payload));
        screen = screen.paint(x, y, w, h, rgb.as_slice());
        at = at + 12 + payload;
        left -= 1;
    }
    screen
}

/// The version of the protocol that the driver speaks.
pub fn protocol_version() -> (v: &'static str)
    ensures
        v@ == "RFB 003.008\n"@,
{
    "RFB 003.008\n"
}

/// The way in that needs no password.
pub const SECURITY_NONE: u8 = 1;

/// The bytes that ask the server for the pixels that [`rgb_of`] reads: 32
/// bits a pixel of which 24 count, low byte first, true colour with 255
/// shades of each colour, red from bit 16, green from bit 8, blue from bit 0.
pub open spec fn pixel_format_bytes() -> Seq<u8> {
    seq![
        0u8, 0u8, 0u8, 0u8, 32u8, 24u8, 0u8, 1u8, 0u8, 255u8, 0u8, 255u8, 0u8, 255u8, 16u8, 8u8,
        0u8, 0u8, 0u8, 0u8,
    ]
}

/// The message that sets the pixel format.
pub fn set_pixel_format() -> (bytes: Vec<u8>)
    ensures
        bytes@ == pixel_format_bytes(),
{
    let bytes: Vec<u8> = vec![
        0u8, 0u8, 0u8, 0u8, 32u8, 24u8, 0u8, 1u8, 0u8, 255u8, 0u8, 255u8, 0u8, 255u8, 16u8, 8u8,
        0u8, 0u8, 0u8, 0u8,
    ];
    assert(bytes@ =~= pixel_format_bytes());
    bytes
}

/// The message that asks for raw rectangles and no other.
pub fn set_encodings() -> (bytes: Vec<u8>)
    ensures
        bytes@ == seq![2u8, 0u8, 0u8, 1u8, 0u8, 0u8, 0u8, 0u8],
{
    let bytes: Vec<u8> = vec![2u8, 0u8, 0u8, 1u8, 0u8, 0u8, 0u8, 0u8];
    assert(bytes@ =~= seq![2u8, 0u8, 0u8, 1u8, 0u8, 0u8, 0u8, 0u8]);
    bytes
}

/// What the server says of itself at the start.
#[derive(Debug, Clone, Copy, PartialEq, Eq, Structural)]
pub struct ServerInit {
    pub width: u16,
    pub height: u16,
    /// How many bytes of the server's name follow.
    pub name_len: u32,
}

/// Reads the fixed part of the server's first message: the size of the
/// screen in its first four bytes and the length of the name in its last
/// four. Fewer than 24 bytes are no such message.
pub fn server_init(b: &[u8]) -> (r: Option<ServerInit>)
    ensures
        b@.len() < 24 ==> r is None,
        b@.len() >= 24 ==> r == Some(
            ServerInit {
                width: be16(b@, 0) as u16,
                height: be16(b@, 2) as u16,
                name_len: be32(b@, 20) as u32,
            },
        ),
{
    if b.len() < 24 {
        None
    } else {
        Some(ServerInit { width: read16(b, 0), height: read16(b, 2), name_len: read32(b, 20) })
    }
}

} // verus!
