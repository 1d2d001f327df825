//! Screenshots, needles and how alike they are.
//!
//! A screenshot is a block of RGB pixels. A needle is a reference image with
//! rectangles that a screenshot must show (or must not show). Likeness is
//! counted in millionths, so that no floating point is needed: 1 000 000 means
//! that two rectangles agree in every byte.

use vstd::prelude::*;
use vstd::slice::{slice_subrange, slice_to_vec};

verus! {

/// Bytes per pixel.
pub const CHANNELS: usize = 3;

/// The likeness of two rectangles that agree in every byte, in millionths.
pub const FULL_SIMILARITY: u32 = 1_000_000;

/// Abstract value of a [`PNG`].
pub struct PngView {
    pub width: nat,
    pub height: nat,
    /// The pixels, row by row from the top, three bytes each.
    pub data: Seq<u8>,
}

impl PngView {
    /// The pixel data has the length that the dimensions ask for.
    pub open spec fn wf(self) -> bool {
        &&& self.width <= u16::MAX
        &&& self.height <= u16::MAX
        &&& self.data.len() == self.width * self.height * 3
    }

    /// The rectangle lies within the image.
    pub open spec fn holds(self, left: int, top: int, width: int, height: int) -> bool {
        &&& 0 <= left
        &&& 0 <= top
        &&& 0 <= width
        &&& 0 <= height
        &&& left + width <= self.width
        &&& top + height <= self.height
    }

    /// The bytes of row `r` of the rectangle, counted from the rectangle's top.
    pub open spec fn row_of(self, left: int, top: int, width: int, r: int) -> Seq<u8> {
        let start = ((top + r) * self.width + left) * 3;
        self.data.subrange(start, start + width * 3)
    }

    /// The bytes of the first `rows` rows of the rectangle.
    pub open spec fn rows_of(self, left: int, top: int, width: int, rows: int) -> Seq<u8>
        decreases rows,
    {
        if rows <= 0 {
            Seq::<u8>::empty()
        } else {
            self.rows_of(left, top, width, rows - 1) + self.row_of(left, top, width, rows - 1)
        }
    }

    /// The data with the bytes of the rectangle's first `rows` rows replaced
    /// by those of `rgb`, row by row.
    pub open spec fn painted(self, left: int, top: int, width: int, rgb: Seq<u8>, rows: int) -> Seq<
        u8,
    >
        decreases rows,
    {
        if rows <= 0 {
            self.data
        } else {
            spliced(
                self.painted(left, top, width, rgb, rows - 1),
                ((top + rows - 1) * self.width + left) * 3,
                rgb.subrange((rows - 1) * (width * 3), rows * (width * 3)),
            )
        }
    }

    /// The rectangle as an image of its own.
    pub open spec fn cropped(self, left: int, top: int, width: int, height: int) -> PngView {
        PngView {
            width: width as nat,
            height: height as nat,
            data: self.rows_of(left, top, width, height),
        }
    }
}

/// `base` with the bytes from `at` on replaced by those of `part`.
pub open spec fn spliced(base: Seq<u8>, at: int, part: Seq<u8>) -> Seq<u8> {
    base.take(at) + part + base.skip(at + part.len())
}

/// Row `r` of a rectangle within an image lies within the image's data.
pub proof fn lemma_row_in_bounds(w: int, h: int, left: int, top: int, width: int, r: int)
    requires
        0 <= left,
        0 <= top,
        0 <= width,
        0 <= r,
        left + width <= w,
        top + r < h,
    ensures
        0 <= (top + r) * w,
        (top + r) * w + left <= w * h,
        ((top + r) * w + left) * 3 + width * 3 <= w * h * 3,
{
    assert((top + r) * w + w <= h * w) by (nonlinear_arith)
        requires
            top + r + 1 <= h,
            0 <= w,
    ;
    assert(0 <= (top + r) * w) by (nonlinear_arith)
        requires
            0 <= top + r,
            0 <= w,
    ;
    assert(h * w == w * h) by (nonlinear_arith);
}

/// The first `rows` rows of a rectangle hold `rows * width * 3` bytes.
pub proof fn lemma_rows_len(img: PngView, left: int, top: int, width: int, rows: int)
    requires
        img.wf(),
        0 <= rows,
        img.holds(left, top, width, rows),
    ensures
        img.rows_of(left, top, width, rows).len() == rows * (width * 3),
    decreases rows,
{
    if rows > 0 {
        lemma_rows_len(img, left, top, width, rows - 1);
        lemma_row_in_bounds(img.width as int, img.height as int, left, top, width, rows - 1);
        assert(rows * (width * 3) == (rows - 1) * (width * 3) + width * 3) by (nonlinear_arith);
    } else {
        assert(rows * (width * 3) == 0) by (nonlinear_arith)
            requires
                rows == 0,
        ;
    }
}

/// Painting keeps the size of the data, and leaves every row that was painted
/// before as it was painted.
pub proof fn lemma_painted_rows(
    img: PngView,
    left: int,
    top: int,
    width: int,
    height: int,
    rgb: Seq<u8>,
    rows: int,
)
    requires
        img.wf(),
        img.holds(left, top, width, height),
        rgb.len() == width * height * 3,
        0 <= rows <= height,
    ensures
        img.painted(left, top, width, rgb, rows).len() == img.data.len(),
        forall|r: int|
            0 <= r < rows ==> (PngView {
                data: img.painted(left, top, width, rgb, rows),
                ..img
            }).row_of(left, top, width, r) == #[trigger] rgb.subrange(
                r * (width * 3),
                (r + 1) * (width * 3),
            ),
    decreases rows,
{
    if rows > 0 {
        lemma_painted_rows(img, left, top, width, height, rgb, rows - 1);
        let w = img.width as int;
        let before = img.painted(left, top, width, rgb, rows - 1);
        let at = ((top + rows - 1) * w + left) * 3;
        let part = rgb.subrange((rows - 1) * (width * 3), rows * (width * 3));
        let after = img.painted(left, top, width, rgb, rows);
        lemma_row_in_bounds(w, img.height as int, left, top, width, rows - 1);
        assert(0 <= (rows - 1) * (width * 3) && rows * (width * 3) <= height * (width * 3))
            by (nonlinear_arith)
            requires
                0 < rows <= height,
                0 <= width * 3,
        ;
        assert(height * (width * 3) == width * height * 3) by (nonlinear_arith);
        assert(rows * (width * 3) - (rows - 1) * (width * 3) == width * 3) by (nonlinear_arith);
        assert(after =~= spliced(before, at, part));
        assert forall|r: int| 0 <= r < rows implies (PngView { data: after, ..img }).row_of(
            left,
            top,
            width,
            r,
        ) == #[trigger] rgb.subrange(r * (width * 3), (r + 1) * (width * 3)) by {
            let start = ((top + r) * w + left) * 3;
            if r == rows - 1 {
                assert(after.subrange(start, start + width * 3) =~= part);
            } else {
                lemma_row_in_bounds(w, img.height as int, left, top, width, r);
                assert((top + r) * w + w <= (top + rows - 1) * w) by (nonlinear_arith)
                    requires
                        r + 1 <= rows - 1,
                        0 <= w,
                ;
                assert(after.subrange(start, start + width * 3) =~= before.subrange(
                    start,
                    start + width * 3,
                ));
                assert((PngView { data: before, ..img }).row_of(left, top, width, r)
                    == rgb.subrange(r * (width * 3), (r + 1) * (width * 3)));
            }
        }
    }
}

/// What has been painted into a rectangle is what a crop of the rectangle
/// shows.
pub proof fn lemma_crop_shows_what_was_painted(
    img: PngView,
    left: int,
    top: int,
    width: int,
    height: int,
    rgb: Seq<u8>,
)
    requires
        img.wf(),
        img.holds(left, top, width, height),
        rgb.len() == width * height * 3,
    ensures
        (PngView { data: img.painted(left, top, width, rgb, height), ..img }).wf(),
        (PngView { data: img.painted(left, top, width, rgb, height), ..img }).cropped(
            left,
            top,
            width,
            height,
        ).data == rgb,
{
    let shown = PngView { data: img.painted(left, top, width, rgb, height), ..img };
    lemma_painted_rows(img, left, top, width, height, rgb, height);
    lemma_rows_are_the_painted(shown, left, top, width, height, rgb, height);
    assert(height * (width * 3) == width * height * 3) by (nonlinear_arith);
    assert(rgb.take(height * (width * 3)) =~= rgb);
}

/// Rows that each show their part of `rgb` show, together, the front of
/// `rgb`.
proof fn lemma_rows_are_the_painted(
    shown: PngView,
    left: int,
    top: int,
    width: int,
    height: int,
    rgb: Seq<u8>,
    rows: int,
)
    requires
        0 <= width,
        0 <= rows <= height,
        rgb.len() == width * height * 3,
        forall|r: int|
            0 <= r < height ==> shown.row_of(left, top, width, r) == #[trigger] rgb.subrange(
                r * (width * 3),
                (r + 1) * (width * 3),
            ),
    ensures
        shown.rows_of(left, top, width, rows) == rgb.take(rows * (width * 3)),
    decreases rows,
{
    if rows > 0 {
        lemma_rows_are_the_painted(shown, left, top, width, height, rgb, rows - 1);
        assert(0 <= (rows - 1) * (width * 3) && rows * (width * 3) <= height * (width * 3))
            by (nonlinear_arith)
            requires
                0 < rows <= height,
                0 <= width * 3,
        ;
        assert(height * (width * 3) == width * height * 3) by (nonlinear_arith);
        assert((rows - 1) * (width * 3) <= rows * (width * 3)) by (nonlinear_arith)
            requires
                0 <= width * 3,
        ;
        let part = rgb.subrange((rows - 1) * (width * 3), (rows - 1 + 1) * (width * 3));
        assert(shown.row_of(left, top, width, rows - 1) == part);
        assert(rgb.take((rows - 1) * (width * 3)) + part =~= rgb.take(rows * (width * 3)));
    } else {
        assert(rows * (width * 3) == 0) by (nonlinear_arith)
            requires
                rows == 0,
        ;
        assert(rgb.take(0) =~= Seq::<u8>::empty());
    }
}

/// An image of at most 65535 by 65535 pixels holds at most this many bytes.
pub proof fn lemma_data_bound(w: int, h: int)
    requires
        0 <= w <= u16::MAX,
        0 <= h <= u16::MAX,
    ensures
        0 <= w * h * 3 <= 12_884_508_675,
{
    assert(0 <= w * h <= 65535 * 65535) by (nonlinear_arith)
        requires
            0 <= w <= 65535,
            0 <= h <= 65535,
    ;
}

/// A snapshot of the screen: width, height and raw RGB pixels.
#[derive(Debug)]
pub struct PNG {
    width: u16,
    height: u16,
    data: Vec<u8>,
}

impl View for PNG {
    type V = PngView;

    closed spec fn view(&self) -> PngView {
        PngView { width: self.width as nat, height: self.height as nat, data: self.data@ }
    }
}

impl PNG {
    #[verifier::type_invariant]
    spec fn inv(&self) -> bool {
        self.data@.len() == self.width * self.height * 3
    }

    /// An image of the given size, if `data` holds three bytes for each of
    /// its pixels and no more.
    pub fn new(width: u16, height: u16, data: Vec<u8>) -> (r: Option<PNG>)
        ensures
            r is Some <==> data@.len() == width * height * 3,
            r matches Some(png) ==> png@.wf() && png@ == (PngView {
                width: width as nat,
                height: height as nat,
                data: data@,
            }),
    {
        proof {
            lemma_data_bound(width as int, height as int);
        }
        let pixels: u64 = (width as u64) * (height as u64);
        let bytes: u64 = pixels * 3;
        if data.len() as u64 == bytes {
            Some(PNG { width, height, data })
        } else {
            None
        }
    }

    pub fn width(&self) -> (w: u16)
        ensures
            w == self@.width,
    {
        self.width
    }

    pub fn height(&self) -> (h: u16)
        ensures
            h == self@.height,
    {
        self.height
    }

    /// The pixels, row by row from the top, three bytes each.
    pub fn data(&self) -> (d: &[u8])
        ensures
            d@ == self@.data,
            self@.wf(),
    {
        proof {
            use_type_invariant(self);
        }
        self.data.as_slice()
    }

    /// Whether two snapshots are the same, byte for byte.
    pub fn same_as(&self, other: &PNG) -> (b: bool)
        ensures
            b == (self@ == other@),
    {
        if self.width != other.width || self.height != other.height {
            return false;
        }
        let n: usize = self.data.len();
        if other.data.len() != n {
            return false;
        }
        let mut i: usize = 0;
        while i < n
            invariant
                n == self.data@.len(),
                n == other.data@.len(),
                i <= n,
                forall|k: int| 0 <= k < i ==> self.data@[k] == other.data@[k],
            decreases n - i,
        {
            if self.data[i] != other.data[i] {
                return false;
            }
            i += 1;
        }
        assert(self.data@ =~= other.data@);
        true
    }

    /// The image without pixels.
    pub fn empty() -> (png: PNG)
        ensures
            png@ == (PngView { width: 0, height: 0, data: Seq::<u8>::empty() }),
    {
        PNG { width: 0, height: 0, data: Vec::new() }
    }

    /// An image of this size in which every byte is 0, if the machine can
    /// hold it.
    pub fn blank(width: u16, height: u16) -> (r: Option<PNG>)
        ensures
            r is Some <==> width * height * 3 <= usize::MAX,
            r matches Some(png) ==> png@.wf() && png@ == (PngView {
                width: width as nat,
                height: height as nat,
                data: Seq::new((width * height * 3) as nat, |i: int| 0u8),
            }),
    {
        proof {
            lemma_data_bound(width as int, height as int);
        }
        let bytes: u64 = (width as u64) * (height as u64) * 3;
        if bytes > usize::MAX as u64 {
            return None;
        }
        let data: Vec<u8> = vec![0u8; bytes as usize];
        assert(data@ =~= Seq::new((width * height * 3) as nat, |i: int| 0u8));
        Some(PNG { width, height, data })
    }

    /// A copy of this image.
    pub fn duplicate(&self) -> (copy: PNG)
        ensures
            copy@ == self@,
    {
        proof {
            use_type_invariant(self);
        }
        PNG { width: self.width, height: self.height, data: slice_to_vec(self.data.as_slice()) }
    }

    /// This image with the rectangle painted over by `rgb`, which holds the
    /// rectangle's pixels row by row, three bytes each. An image that does
    /// not hold the rectangle, or pixels that do not fill it, leave the image
    /// as it is.
    pub fn paint(self, left: u16, top: u16, width: u16, height: u16, rgb: &[u8]) -> (r: PNG)
        ensures
            self@.wf(),
            r@.wf(),
            r@.width == self@.width,
            r@.height == self@.height,
            if self@.holds(left as int, top as int, width as int, height as int) && rgb@.len()
                == width * height * 3 {
                r@.data == self@.painted(left as int, top as int, width as int, rgb@, height as int)
            } else {
                r@ == self@
            },
    {
        proof {
            use_type_invariant(&self);
            lemma_data_bound(width as int, height as int);
        }
        let fits = left as u32 + width as u32 <= self.width as u32 && top as u32 + height as u32
            <= self.height as u32;
        if !fits || rgb.len() as u64 != (width as u64) * (height as u64) * 3 {
            return self;
        }
        let ghost before = self@;
        let w = self.width;
        let h = self.height;
        let mut data = self.data;
        let row_len: usize = width as usize * CHANNELS;
        let mut r: u16 = 0;
        while r < height
            invariant
                data.len() == data@.len(),
                rgb.len() == rgb@.len(),
                before.wf(),
                before.width == w,
                before.height == h,
                before.holds(left as int, top as int, width as int, height as int),
                rgb@.len() == width * height * 3,
                row_len == width * 3,
                r <= height,
                data@.len() == before.data.len(),
                data@ == before.painted(left as int, top as int, width as int, rgb@, r as int),
            decreases height - r,
        {
            proof {
                lemma_row_in_bounds(w as int, h as int, left as int, top as int, width as int, r as int);
                assert((r + 1) * (width * 3) <= height * (width * 3)) by (nonlinear_arith)
                    requires
                        r + 1 <= height,
                        0 <= width * 3,
                ;
                assert(height * (width * 3) == width * height * 3) by (nonlinear_arith);
                assert(0 <= r * (width * 3)) by (nonlinear_arith)
                    requires
                        0 <= r,
                        0 <= width * 3,
                ;
                assert((r + 1) * (width * 3) == r * (width * 3) + width * 3) by (nonlinear_arith);
            }
            let ghost base = data@;
            let off: usize = ((top as usize + r as usize) * w as usize + left as usize) * CHANNELS;
            let from: usize = r as usize * row_len;
            let ghost part = rgb@.subrange(from as int, from + row_len);
            let mut i: usize = 0;
            while i < row_len
                invariant
                    i <= row_len,
                    data.len() == base.len(),
                    rgb.len() == rgb@.len(),
                    off + row_len <= base.len(),
                    from + row_len <= rgb@.len(),
                    part == rgb@.subrange(from as int, from + row_len),
                    data@.len() == base.len(),
                    data@ == base.take(off as int) + part.take(i as int) + base.skip(off + i),
                decreases row_len - i,
            {
                data.set(off + i, rgb[from + i]);
                i += 1;
                assert(data@ =~= base.take(off as int) + part.take(i as int) + base.skip(off + i));
            }
            assert(part.take(row_len as int) =~= part);
            r += 1;
        }
        PNG { width: w, height: h, data }
    }

    /// The rectangle as an image of its own, if it lies within this image.
    pub fn crop(&self, left: u16, top: u16, width: u16, height: u16) -> (r: Option<PNG>)
        ensures
            self@.wf(),
            r is Some <==> self@.holds(left as int, top as int, width as int, height as int),
            r matches Some(png) ==> png@.wf() && png@ == self@.cropped(
                left as int,
                top as int,
                width as int,
                height as int,
            ),
    {
        proof {
            use_type_invariant(self);
        }
        if left as u32 + width as u32 > self.width as u32 || top as u32 + height as u32
            > self.height as u32 {
            return None;
        }
        let row_len: usize = width as usize * CHANNELS;
        let mut out: Vec<u8> = Vec::new();
        let mut r: u16 = 0;
        while r < height
            invariant
                self.data@.len() == self.width * self.height * 3,
                self.data.len() == self.data@.len(),
                self@.holds(left as int, top as int, width as int, height as int),
                self@.wf(),
                row_len == width * 3,
                r <= height,
                out@ == self@.rows_of(left as int, top as int, width as int, r as int),
            decreases height - r,
        {
            proof {
                lemma_row_in_bounds(
                    self.width as int,
                    self.height as int,
                    left as int,
                    top as int,
                    width as int,
                    r as int,
                );
            }
            let line: usize = top as usize + r as usize;
            let start: usize = (line * self.width as usize + left as usize) * CHANNELS;
            out.extend_from_slice(slice_subrange(self.data.as_slice(), start, start + row_len));
            r += 1;
            assert(out@ =~= self@.rows_of(left as int, top as int, width as int, r as int));
        }
        proof {
            lemma_rows_len(self@, left as int, top as int, width as int, height as int);
            assert(height * (width * 3) == width * height * 3) by (nonlinear_arith);
        }
        Some(PNG { width, height, data: out })
    }
}

/// The sum of the differences, byte by byte, between `s` and as many bytes of
/// `t`.
pub open spec fn byte_distance(s: Seq<u8>, t: Seq<u8>) -> nat
    decreases s.len(),
{
    if s.len() == 0 || t.len() < s.len() {
        0
    } else {
        byte_distance(s.drop_last(), t.take(s.len() - 1)) + abs_diff(
            s.last(),
            t[s.len() - 1],
        )
    }
}

/// How far two bytes are apart.
pub open spec fn abs_diff(a: u8, b: u8) -> nat {
    if a >= b {
        (a - b) as nat
    } else {
        (b - a) as nat
    }
}

/// The likeness, in millionths, of two rectangles of `bytes` bytes that are
/// `distance` apart: one minus the mean difference of their bytes, each
/// difference taken as a fraction of 255. Two empty rectangles are alike.
pub open spec fn similarity_of(distance: nat, bytes: nat) -> nat {
    if bytes == 0 {
        1_000_000
    } else if distance >= 255 * bytes {
        0
    } else {
        ((255 * bytes - distance) * 1_000_000 / ((255 * bytes) as int)) as nat
    }
}

/// The likeness of two images, in millionths: that of their bytes if they
/// are of one size, none if they are not.
pub open spec fn image_similarity(a: PngView, b: PngView) -> nat {
    if a.width == b.width && a.height == b.height {
        similarity_of(byte_distance(a.data, b.data), a.data.len())
    } else {
        0
    }
}

/// The likeness of two images, in millionths.
pub fn similarity(a: &PNG, b: &PNG) -> (sim: u32)
    ensures
        sim == image_similarity(a@, b@),
        sim <= FULL_SIMILARITY,
{
    if a.width() != b.width() || a.height() != b.height() {
        return 0;
    }
    let x = a.data();
    let y = b.data();
    let n: usize = x.len();
    proof {
        lemma_data_bound(a@.width as int, a@.height as int);
    }
    if n == 0 {
        return FULL_SIMILARITY;
    }
    let mut distance: u64 = 0;
    let mut i: usize = 0;
    while i < n
        invariant
            n == x@.len(),
            n == y@.len(),
            n <= 12_884_508_675,
            i <= n,
            distance == byte_distance(x@.take(i as int), y@.take(i as int)),
            distance <= 255 * i,
        decreases n - i,
    {
        let p = x[i];
        let q = y[i];
        let d: u8 = if p >= q {
            p - q
        } else {
            q - p
        };
        assert(x@.take(i + 1).drop_last() =~= x@.take(i as int));
        assert(y@.take(i + 1).take(i as int) =~= y@.take(i as int));
        distance = distance + d as u64;
        i += 1;
    }
    assert(x@.take(n as int) =~= x@);
    assert(y@.take(n as int) =~= y@);
    let full: u64 = 255 * (n as u64);
    if distance >= full {
        return 0;
    }
    let rest: u64 = full - distance;
    let scaled: u64 = rest * 1_000_000;
    assert(scaled / full <= 1_000_000) by (nonlinear_arith)
        requires
            scaled == rest * 1_000_000,
            0 < rest <= full,
    ;
    (scaled / full) as u32
}

/// Whether a rectangle of a needle must be seen or must not be seen.
#[derive(Debug, Clone, Copy, PartialEq, Eq, Structural)]
pub enum AreaType {
    Match,
    NoMatch,
}

/// Where to click, counted from the corner of the rectangle it belongs to.
#[derive(Debug, Clone, Copy, PartialEq, Eq, Structural)]
pub struct ClickPoint {
    pub left: u16,
    pub top: u16,
}

/// A rectangle of a needle.
#[derive(Debug, Clone, Copy, PartialEq, Eq, Structural)]
pub struct Area {
    pub kind: AreaType,
    pub left: u16,
    pub top: u16,
    pub width: u16,
    pub height: u16,
    pub click: Option<ClickPoint>,
}

/// The rectangles of a needle, in the order in which they are looked at.
#[derive(Debug)]
pub struct NeedleConfig {
    pub areas: Vec<Area>,
}

/// Abstract value of a [`Needle`].
pub struct NeedleView {
    pub areas: Seq<Area>,
    pub image: PngView,
}

impl NeedleView {
    /// Every rectangle lies within the image, and at least one of them must
    /// be seen.
    pub open spec fn wf(self) -> bool {
        &&& self.image.wf()
        &&& forall|i: int|
            0 <= i < self.areas.len() ==> self.image.holds(
                (#[trigger] self.areas[i]).left as int,
                self.areas[i].top as int,
                self.areas[i].width as int,
                self.areas[i].height as int,
            )
        &&& exists|i: int| 0 <= i < self.areas.len() && (#[trigger] self.areas[i]).kind is Match
    }
}

/// The likeness, in millionths, between what `screen` and `image` show in
/// `area`; 0 if the rectangle does not lie within both.
pub open spec fn area_similarity(screen: PngView, image: PngView, area: Area) -> nat {
    let (l, t, w, h) = (area.left as int, area.top as int, area.width as int, area.height as int);
    if screen.holds(l, t, w, h) && image.holds(l, t, w, h) {
        similarity_of(
            byte_distance(screen.rows_of(l, t, w, h), image.rows_of(l, t, w, h)),
            screen.rows_of(l, t, w, h).len(),
        )
    } else {
        0
    }
}

/// A rectangle that must be seen is met at the threshold or above, one that
/// must not be seen is met below the threshold.
pub open spec fn area_met(kind: AreaType, similarity: nat, threshold: u32) -> bool {
    match kind {
        AreaType::Match => similarity >= threshold,
        AreaType::NoMatch => similarity < threshold,
    }
}

/// The screen shows the needle: every rectangle is met.
pub open spec fn needle_matches(screen: PngView, needle: NeedleView, threshold: u32) -> bool {
    forall|i: int|
        0 <= i < needle.areas.len() ==> area_met(
            (#[trigger] needle.areas[i]).kind,
            area_similarity(screen, needle.image, needle.areas[i]),
            threshold,
        )
}

/// The least likeness among the first `n` rectangles that must be seen; full
/// likeness if there is none.
pub open spec fn weakest_match(screen: PngView, image: PngView, areas: Seq<Area>, n: int) -> nat
    decreases n,
{
    if n <= 0 {
        1_000_000
    } else {
        let rest = weakest_match(screen, image, areas, n - 1);
        let here = area_similarity(screen, image, areas[n - 1]);
        if areas[n - 1].kind is Match && here < rest {
            here
        } else {
            rest
        }
    }
}

/// A reference image with the rectangles to look at.
#[derive(Debug)]
pub struct Needle {
    config: NeedleConfig,
    data: PNG,
}

impl View for Needle {
    type V = NeedleView;

    closed spec fn view(&self) -> NeedleView {
        NeedleView { areas: self.config.areas@, image: self.data@ }
    }
}

impl Needle {
    #[verifier::type_invariant]
    spec fn inv(&self) -> bool {
        self@.wf()
    }

    /// A needle of these rectangles on this image. Refused if a rectangle
    /// leaves the image or if no rectangle must be seen.
    pub fn new(config: NeedleConfig, data: PNG) -> (r: Option<Needle>)
        ensures
            r is Some <==> (NeedleView { areas: config.areas@, image: data@ }).wf(),
            r matches Some(needle) ==> needle@ == (NeedleView {
                areas: config.areas@,
                image: data@,
            }),
    {
        let shown = data.data();
        let ghost view = NeedleView { areas: config.areas@, image: data@ };
        let n: usize = config.areas.len();
        let mut seen: bool = false;
        let mut i: usize = 0;
        while i < n
            invariant
                n == config.areas@.len(),
                i <= n,
                view == (NeedleView { areas: config.areas@, image: data@ }),
                data@.wf(),
                forall|k: int|
                    0 <= k < i ==> data@.holds(
                        (#[trigger] config.areas@[k]).left as int,
                        config.areas@[k].top as int,
                        config.areas@[k].width as int,
                        config.areas@[k].height as int,
                    ),
                seen <==> exists|k: int| 0 <= k < i && (#[trigger] config.areas@[k]).kind is Match,
            decreases n - i,
        {
            let area = config.areas[i];
            if area.left as u32 + area.width as u32 > data.width() as u32 || area.top as u32
                + area.height as u32 > data.height() as u32 {
                assert(!data@.holds(
                    config.areas@[i as int].left as int,
                    config.areas@[i as int].top as int,
                    config.areas@[i as int].width as int,
                    config.areas@[i as int].height as int,
                ));
                return None;
            }
            if let AreaType::Match = area.kind {
                seen = true;
            }
            i += 1;
        }
        if seen {
            Some(Needle { config, data })
        } else {
            None
        }
    }

    /// The rectangles, in the order in which they are looked at.
    pub fn areas(&self) -> (areas: &[Area])
        ensures
            areas@ == self@.areas,
            self@.wf(),
    {
        proof {
            use_type_invariant(self);
        }
        self.config.areas.as_slice()
    }

    /// The reference image.
    pub fn image(&self) -> (image: &PNG)
        ensures
            image@ == self@.image,
    {
        &self.data
    }

    /// Holds the screen against the needle. Returns the least likeness among
    /// the rectangles that must be seen, in millionths, and whether the screen
    /// shows the needle: whether every rectangle is met at this threshold.
    pub fn compare(screen: &PNG, needle: &Needle, threshold: u32) -> (r: (u32, bool))
        ensures
            r.0 == weakest_match(screen@, needle@.image, needle@.areas, needle@.areas.len() as int),
            r.1 == needle_matches(screen@, needle@, threshold),
    {
        let areas = needle.areas();
        let n: usize = areas.len();
        let mut weakest: u32 = FULL_SIMILARITY;
        let mut matched: bool = true;
        let mut i: usize = 0;
        while i < n
            invariant
                n == areas@.len(),
                areas@ == needle@.areas,
                i <= n,
                weakest <= FULL_SIMILARITY,
                weakest == weakest_match(screen@, needle@.image, areas@, i as int),
                matched <==> forall|k: int|
                    0 <= k < i ==> area_met(
                        (#[trigger] areas@[k]).kind,
                        area_similarity(screen@, needle@.image, areas@[k]),
                        threshold,
                    ),
            decreases n - i,
        {
            let area = areas[i];
            let sim = area_likeness(screen, needle.image(), &area);
            let met = match area.kind {
                AreaType::Match => sim >= threshold,
                AreaType::NoMatch => sim < threshold,
            };
            if !met {
                matched = false;
            }
            if let AreaType::Match = area.kind {
                if sim < weakest {
                    weakest = sim;
                }
            }
            i += 1;
        }
        (weakest, matched)
    }
}

/// The likeness between what `screen` and `image` show in `area`.
pub fn area_likeness(screen: &PNG, image: &PNG, area: &Area) -> (sim: u32)
    ensures
        sim == area_similarity(screen@, image@, *area),
        sim <= FULL_SIMILARITY,
{
    match screen.crop(area.left, area.top, area.width, area.height) {
        None => 0,
        Some(seen) => match image.crop(area.left, area.top, area.width, area.height) {
            None => 0,
            Some(wanted) => similarity(&seen, &wanted),
        },
    }
}

} // verus!
