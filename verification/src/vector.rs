//! Vector shapes rasterized once and cached as PNG files: the cache file
//! name, the read-back layout of a rendered frame, and the workflow that
//! turns a shape request into a cached raster.

use vstd::prelude::*;
use vstd::string::*;

use crate::color::{argb_channels, color_argb, parse_color};
use crate::raster::{invert_coverage, inverted, padded_row_len, round_up};
use crate::bitmaps::{raster_bytes, raster_height, raster_width, rgba_from_raw, RgbaRaster};
use crate::text::{decimal, push_decimal, push_trimmed_hashes, trim_hashes};

verus! {

/// The shapes that can be rasterized.
#[derive(Clone, Copy, Debug, PartialEq, Eq)]
pub enum ShapeKind {
    Rect,
    Circle,
    Ellipse,
    Star,
    Polygon,
    Line,
    Arrow,
}

impl ShapeKind {
    /// The name of the shape as `{:?}` prints it.
    pub open spec fn spec_label(self) -> Seq<char> {
        match self {
            ShapeKind::Rect => "Rect"@,
            ShapeKind::Circle => "Circle"@,
            ShapeKind::Ellipse => "Ellipse"@,
            ShapeKind::Star => "Star"@,
            ShapeKind::Polygon => "Polygon"@,
            ShapeKind::Line => "Line"@,
            ShapeKind::Arrow => "Arrow"@,
        }
    }

    /// The name of the shape as `{:?}` prints it.
    pub fn label(&self) -> (s: &'static str)
        ensures
            s@ == self.spec_label(),
    {
        match self {
            ShapeKind::Rect => "Rect",
            ShapeKind::Circle => "Circle",
            ShapeKind::Ellipse => "Ellipse",
            ShapeKind::Star => "Star",
            ShapeKind::Polygon => "Polygon",
            ShapeKind::Line => "Line",
            ShapeKind::Arrow => "Arrow",
        }
    }
}

/// The cache file name of a shape raster:
/// `shape-{kind:?}-{fill without leading #}-{width}x{height}-f{feather}[-inv].png`.
pub open spec fn shape_cache_name(
    kind: ShapeKind,
    fill_hex: Seq<char>,
    width: u32,
    height: u32,
    feather_text: Seq<char>,
    invert: bool,
) -> Seq<char> {
    "shape-"@ + kind.spec_label() + "-"@ + trim_hashes(fill_hex) + "-"@ + decimal(width as nat)
        + "x"@ + decimal(height as nat) + "-f"@ + feather_text + (if invert {
        "-inv"@
    } else {
        Seq::empty()
    }) + ".png"@
}

/// The part of a shape's cache name before its size.
pub open spec fn name_head(kind: ShapeKind, fill_hex: Seq<char>) -> Seq<char> {
    "shape-"@ + kind.spec_label() + "-"@ + trim_hashes(fill_hex) + "-"@
}

/// The part of a shape's cache name after its size.
pub open spec fn name_tail(feather_text: Seq<char>, invert: bool) -> Seq<char> {
    "-f"@ + feather_text + (if invert {
        "-inv"@
    } else {
        Seq::empty()
    }) + ".png"@
}

proof fn lemma_name_parts(
    kind: ShapeKind,
    fill_hex: Seq<char>,
    width: u32,
    height: u32,
    feather_text: Seq<char>,
    invert: bool,
)
    ensures
        shape_cache_name(kind, fill_hex, width, height, feather_text, invert) == name_head(
            kind,
            fill_hex,
        ) + (decimal(width as nat) + "x"@ + decimal(height as nat)) + name_tail(feather_text, invert),
        shape_cache_name(kind, fill_hex, width, height, feather_text, invert) == "shape-"@
            + kind.spec_label() + ("-"@ + trim_hashes(fill_hex) + "-"@ + decimal(width as nat) + "x"@
            + decimal(height as nat) + name_tail(feather_text, invert)),
{
    assert(shape_cache_name(kind, fill_hex, width, height, feather_text, invert) =~= name_head(
        kind,
        fill_hex,
    ) + (decimal(width as nat) + "x"@ + decimal(height as nat)) + name_tail(feather_text, invert));
    assert(shape_cache_name(kind, fill_hex, width, height, feather_text, invert) =~= "shape-"@
        + kind.spec_label() + ("-"@ + trim_hashes(fill_hex) + "-"@ + decimal(width as nat) + "x"@
        + decimal(height as nat) + name_tail(feather_text, invert)));
}

/// `a + m1 + b == a + m2 + b` only when `m1 == m2`.
proof fn lemma_cancel_around(a: Seq<char>, m1: Seq<char>, m2: Seq<char>, b: Seq<char>)
    requires
        a + m1 + b == a + m2 + b,
    ensures
        m1 == m2,
{
    let s1 = a + m1 + b;
    let s2 = a + m2 + b;
    assert(s1.len() == a.len() + m1.len() + b.len());
    assert(s2.len() == a.len() + m2.len() + b.len());
    assert(m1.len() == m2.len());
    assert(s1.subrange(a.len() as int, (a.len() + m1.len()) as int) =~= m1);
    assert(s2.subrange(a.len() as int, (a.len() + m2.len()) as int) =~= m2);
}

/// Different kinds of shape have different names.
pub proof fn lemma_labels_distinct(k1: ShapeKind, k2: ShapeKind)
    requires
        k1 != k2,
    ensures
        k1.spec_label() != k2.spec_label(),
{
    reveal_strlit("Rect");
    reveal_strlit("Circle");
    reveal_strlit("Ellipse");
    reveal_strlit("Star");
    reveal_strlit("Polygon");
    reveal_strlit("Line");
    reveal_strlit("Arrow");
    if k1.spec_label() == k2.spec_label() {
        assert(k1.spec_label()[0] == k2.spec_label()[0]);
        assert(k1.spec_label().len() == k2.spec_label().len());
    }
}

/// Different shapes never share a cache file.
pub proof fn lemma_shape_names_differ_by_kind(
    k1: ShapeKind,
    k2: ShapeKind,
    fill_hex: Seq<char>,
    width: u32,
    height: u32,
    feather_text: Seq<char>,
    invert: bool,
)
    requires
        k1 != k2,
    ensures
        shape_cache_name(k1, fill_hex, width, height, feather_text, invert) != shape_cache_name(
            k2,
            fill_hex,
            width,
            height,
            feather_text,
            invert,
        ),
{
    lemma_name_parts(k1, fill_hex, width, height, feather_text, invert);
    lemma_name_parts(k2, fill_hex, width, height, feather_text, invert);
    lemma_labels_distinct(k1, k2);
    let rest = "-"@ + trim_hashes(fill_hex) + "-"@ + decimal(width as nat) + "x"@ + decimal(
        height as nat,
    ) + name_tail(feather_text, invert);
    if shape_cache_name(k1, fill_hex, width, height, feather_text, invert) == shape_cache_name(
        k2,
        fill_hex,
        width,
        height,
        feather_text,
        invert,
    ) {
        assert("shape-"@ + k1.spec_label() + rest == "shape-"@ + k2.spec_label() + rest);
        lemma_cancel_around("shape-"@, k1.spec_label(), k2.spec_label(), rest);
    }
}

/// Rasters of different sizes never share a cache file.
pub proof fn lemma_shape_names_differ_by_size(
    kind: ShapeKind,
    fill_hex: Seq<char>,
    w1: u32,
    h1: u32,
    w2: u32,
    h2: u32,
    feather_text: Seq<char>,
    invert: bool,
)
    requires
        w1 != w2 || h1 != h2,
    ensures
        shape_cache_name(kind, fill_hex, w1, h1, feather_text, invert) != shape_cache_name(
            kind,
            fill_hex,
            w2,
            h2,
            feather_text,
            invert,
        ),
{
    lemma_name_parts(kind, fill_hex, w1, h1, feather_text, invert);
    lemma_name_parts(kind, fill_hex, w2, h2, feather_text, invert);
    let head = name_head(kind, fill_hex);
    let tail = name_tail(feather_text, invert);
    let m1 = decimal(w1 as nat) + "x"@ + decimal(h1 as nat);
    let m2 = decimal(w2 as nat) + "x"@ + decimal(h2 as nat);
    if shape_cache_name(kind, fill_hex, w1, h1, feather_text, invert) == shape_cache_name(
        kind,
        fill_hex,
        w2,
        h2,
        feather_text,
        invert,
    ) {
        lemma_cancel_around(head, m1, m2, tail);
        reveal_strlit("x");
        assert("x"@ =~= seq!['x']);
        crate::text::lemma_decimal_pair_injective(w1 as nat, h1 as nat, w2 as nat, h2 as nat);
    }
}

/// An inverted raster never shares a cache file with the plain one.
pub proof fn lemma_shape_names_differ_by_inversion(
    kind: ShapeKind,
    fill_hex: Seq<char>,
    width: u32,
    height: u32,
    feather_text: Seq<char>,
)
    ensures
        shape_cache_name(kind, fill_hex, width, height, feather_text, false) != shape_cache_name(
            kind,
            fill_hex,
            width,
            height,
            feather_text,
            true,
        ),
{
    reveal_strlit("-inv");
    assert(shape_cache_name(kind, fill_hex, width, height, feather_text, true).len()
        == shape_cache_name(kind, fill_hex, width, height, feather_text, false).len() + 4);
}

/// A fill that is hex digits after its leading `#` characters.
pub open spec fn hex_fill(fill_hex: Seq<char>) -> bool {
    forall|i: int|
        0 <= i < trim_hashes(fill_hex).len() ==> crate::color::hex_digit_value(
            #[trigger] trim_hashes(fill_hex)[i],
        ) is Some
}

/// Text of the kind `{}` prints for a floating-point number: digits, `.`,
/// `-` and the letters of `inf` and `NaN`.
pub open spec fn float_text(s: Seq<char>) -> bool {
    forall|i: int|
        0 <= i < s.len() ==> ('0' <= #[trigger] s[i] <= '9') || s[i] == '.' || s[i] == '-' || s[i]
            == 'i' || s[i] == 'n' || s[i] == 'f' || s[i] == 'N' || s[i] == 'a'
}

/// `s` holds no `c`.
pub open spec fn lacks(s: Seq<char>, c: char) -> bool {
    forall|i: int| 0 <= i < s.len() ==> #[trigger] s[i] != c
}

proof fn lemma_cancel_prefix(p: Seq<char>, a: Seq<char>, b: Seq<char>)
    requires
        p + a == p + b,
    ensures
        a == b,
{
    assert((p + a).subrange(p.len() as int, (p + a).len() as int) =~= a);
    assert((p + b).subrange(p.len() as int, (p + b).len() as int) =~= b);
}

proof fn lemma_cancel_suffix(a: Seq<char>, b: Seq<char>, q: Seq<char>)
    requires
        a + q == b + q,
    ensures
        a == b,
{
    assert((a + q).len() == a.len() + q.len());
    assert((b + q).len() == b.len() + q.len());
    assert((a + q).subrange(0, a.len() as int) =~= a);
    assert((b + q).subrange(0, b.len() as int) =~= b);
}

/// Two texts that each run up to a first `c` split the same way.
proof fn lemma_split_at(c: char, a1: Seq<char>, b1: Seq<char>, a2: Seq<char>, b2: Seq<char>)
    requires
        a1 + b1 == a2 + b2,
        lacks(a1, c),
        lacks(a2, c),
        b1.len() > 0 && b1[0] == c,
        b2.len() > 0 && b2[0] == c,
    ensures
        a1 == a2,
        b1 == b2,
{
    let s = a1 + b1;
    if a1.len() < a2.len() {
        assert(s[a1.len() as int] == b1[0]);
        assert((a2 + b2)[a1.len() as int] == a2[a1.len() as int]);
    } else if a2.len() < a1.len() {
        assert((a2 + b2)[a2.len() as int] == b2[0]);
        assert(s[a2.len() as int] == a1[a2.len() as int]);
    }
    assert(a1.len() == a2.len());
    assert(s.subrange(0, a1.len() as int) =~= a1);
    assert((a2 + b2).subrange(0, a2.len() as int) =~= a2);
    assert(s.subrange(a1.len() as int, s.len() as int) =~= b1);
    assert((a2 + b2).subrange(a2.len() as int, (a2 + b2).len() as int) =~= b2);
}

proof fn lemma_label_lacks_dash(kind: ShapeKind)
    ensures
        lacks(kind.spec_label(), '-'),
{
    reveal_strlit("Rect");
    reveal_strlit("Circle");
    reveal_strlit("Ellipse");
    reveal_strlit("Star");
    reveal_strlit("Polygon");
    reveal_strlit("Line");
    reveal_strlit("Arrow");
}

/// The suffix that marks an inverted raster.
pub open spec fn inversion_mark(invert: bool) -> Seq<char> {
    if invert {
        "-inv"@
    } else {
        Seq::empty()
    }
}

proof fn lemma_name_fields(
    kind: ShapeKind,
    fill_hex: Seq<char>,
    width: u32,
    height: u32,
    feather_text: Seq<char>,
    invert: bool,
)
    ensures
        shape_cache_name(kind, fill_hex, width, height, feather_text, invert) == "shape-"@ + (
        kind.spec_label() + ("-"@ + (trim_hashes(fill_hex) + ("-"@ + ((decimal(width as nat) + "x"@
            + decimal(height as nat)) + ("-f"@ + (feather_text + (inversion_mark(invert)
            + ".png"@)))))))),
{
    assert(shape_cache_name(kind, fill_hex, width, height, feather_text, invert) =~= "shape-"@ + (
    kind.spec_label() + ("-"@ + (trim_hashes(fill_hex) + ("-"@ + ((decimal(width as nat) + "x"@
        + decimal(height as nat)) + ("-f"@ + (feather_text + (inversion_mark(invert)
        + ".png"@)))))))));
}

/// Cache names tell requests apart: for fills of hex digits and feathers
/// printed as numbers, two requests share a cache file exactly when they
/// agree on the kind, the fill without its leading `#`, the size, the
/// feather and the inversion.
pub proof fn lemma_shape_names_identify_requests(
    k1: ShapeKind,
    f1: Seq<char>,
    w1: u32,
    h1: u32,
    t1: Seq<char>,
    i1: bool,
    k2: ShapeKind,
    f2: Seq<char>,
    w2: u32,
    h2: u32,
    t2: Seq<char>,
    i2: bool,
)
    requires
        hex_fill(f1),
        hex_fill(f2),
        float_text(t1),
        float_text(t2),
    ensures
        shape_cache_name(k1, f1, w1, h1, t1, i1) == shape_cache_name(k2, f2, w2, h2, t2, i2) <==> (
        k1 == k2 && trim_hashes(f1) == trim_hashes(f2) && w1 == w2 && h1 == h2 && t1 == t2 && i1
            == i2),
{
    if shape_cache_name(k1, f1, w1, h1, t1, i1) == shape_cache_name(k2, f2, w2, h2, t2, i2) {
        reveal_strlit("shape-");
        reveal_strlit("-");
        reveal_strlit("x");
        reveal_strlit("-f");
        reveal_strlit("-inv");
        reveal_strlit(".png");
        lemma_name_fields(k1, f1, w1, h1, t1, i1);
        lemma_name_fields(k2, f2, w2, h2, t2, i2);
        let fill1 = trim_hashes(f1);
        let fill2 = trim_hashes(f2);
        let d1 = decimal(w1 as nat) + "x"@ + decimal(h1 as nat);
        let d2 = decimal(w2 as nat) + "x"@ + decimal(h2 as nat);
        let e1 = "-f"@ + (t1 + (inversion_mark(i1) + ".png"@));
        let e2 = "-f"@ + (t2 + (inversion_mark(i2) + ".png"@));
        let c1 = "-"@ + (d1 + e1);
        let c2 = "-"@ + (d2 + e2);
        let b1 = "-"@ + (fill1 + c1);
        let b2 = "-"@ + (fill2 + c2);
        lemma_cancel_prefix("shape-"@, k1.spec_label() + b1, k2.spec_label() + b2);
        lemma_label_lacks_dash(k1);
        lemma_label_lacks_dash(k2);
        lemma_split_at('-', k1.spec_label(), b1, k2.spec_label(), b2);
        if k1 != k2 {
            lemma_labels_distinct(k1, k2);
        }
        lemma_cancel_prefix("-"@, fill1 + c1, fill2 + c2);
        assert forall|i: int| 0 <= i < fill1.len() implies #[trigger] fill1[i] != '-' by {
            assert(crate::color::hex_digit_value(fill1[i]) is Some);
        }
        assert forall|i: int| 0 <= i < fill2.len() implies #[trigger] fill2[i] != '-' by {
            assert(crate::color::hex_digit_value(fill2[i]) is Some);
        }
        lemma_split_at('-', fill1, c1, fill2, c2);
        lemma_cancel_prefix("-"@, d1 + e1, d2 + e2);
        crate::text::lemma_decimal_digits(w1 as nat);
        crate::text::lemma_decimal_digits(h1 as nat);
        crate::text::lemma_decimal_digits(w2 as nat);
        crate::text::lemma_decimal_digits(h2 as nat);
        assert forall|i: int| 0 <= i < d1.len() implies #[trigger] d1[i] != '-' by {
            if i < decimal(w1 as nat).len() {
                assert(d1[i] == decimal(w1 as nat)[i]);
            } else if i > decimal(w1 as nat).len() {
                assert(d1[i] == decimal(h1 as nat)[i - decimal(w1 as nat).len() - 1]);
            }
        }
        assert forall|i: int| 0 <= i < d2.len() implies #[trigger] d2[i] != '-' by {
            if i < decimal(w2 as nat).len() {
                assert(d2[i] == decimal(w2 as nat)[i]);
            } else if i > decimal(w2 as nat).len() {
                assert(d2[i] == decimal(h2 as nat)[i - decimal(w2 as nat).len() - 1]);
            }
        }
        lemma_split_at('-', d1, e1, d2, e2);
        assert("x"@ =~= seq!['x']);
        crate::text::lemma_decimal_pair_injective(w1 as nat, h1 as nat, w2 as nat, h2 as nat);
        lemma_cancel_prefix("-f"@, t1 + (inversion_mark(i1) + ".png"@), t2 + (inversion_mark(i2)
            + ".png"@));
        assert(t1 + (inversion_mark(i1) + ".png"@) =~= (t1 + inversion_mark(i1)) + ".png"@);
        assert(t2 + (inversion_mark(i2) + ".png"@) =~= (t2 + inversion_mark(i2)) + ".png"@);
        lemma_cancel_suffix(t1 + inversion_mark(i1), t2 + inversion_mark(i2), ".png"@);
        let u1 = t1 + inversion_mark(i1);
        let u2 = t2 + inversion_mark(i2);
        if i1 && !i2 {
            assert(u1[u1.len() - 1] == 'v');
            assert(u2 =~= t2);
            assert(t2[t2.len() - 1] == 'v');
        } else if i2 && !i1 {
            assert(u2[u2.len() - 1] == 'v');
            assert(u1 =~= t1);
            assert(t1[t1.len() - 1] == 'v');
        }
        lemma_cancel_suffix(t1, t2, inversion_mark(i1));
    }
}

/// The cache file name of a shape raster. `feather_text` is the feather
/// radius as `{}` prints it (`0` for a hard edge).
pub fn shape_file_name(
    kind: ShapeKind,
    fill_hex: &str,
    width: u32,
    height: u32,
    feather_text: &str,
    invert: bool,
) -> (name: String)
    ensures
        name@ == shape_cache_name(kind, fill_hex@, width, height, feather_text@, invert),
{
    let mut s = String::new();
    s.append("shape-");
    s.append(kind.label());
    s.append("-");
    push_trimmed_hashes(&mut s, fill_hex);
    s.append("-");
    push_decimal(&mut s, width as u64);
    s.append("x");
    push_decimal(&mut s, height as u64);
    s.append("-f");
    s.append(feather_text);
    if invert {
        s.append("-inv");
    }
    s.append(".png");
    proof {
        reveal_strlit("shape-");
        reveal_strlit("-");
        reveal_strlit("x");
        reveal_strlit("-f");
        reveal_strlit("-inv");
        reveal_strlit(".png");
    }
    assert(s@ =~= shape_cache_name(kind, fill_hex@, width, height, feather_text@, invert));
    s
}

/// Bytes per row of the read-back buffer of a `width`-pixel RGBA frame:
/// `4 * width` rounded up to a multiple of 256.
pub fn readback_row_bytes(width: u32) -> (bpr: usize)
    requires
        4 * width + 255 <= usize::MAX,
    ensures
        bpr == round_up(4 * width as nat, 256),
        bpr % 256 == 0,
        4 * width <= bpr < 4 * width + 256,
{
    padded_row_len(4 * width as usize, 256)
}

/// Where a shape raster request stands: which outcome it waits for.
#[derive(Clone, Copy, Debug, PartialEq, Eq)]
pub enum ShapeStage {
    /// Waiting to learn whether the cache file exists.
    CheckingCache,
    /// Waiting for the rendered RGBA pixels.
    Rendering,
    /// Waiting for the PNG to be written.
    Saving,
    /// Finished; nothing more is expected.
    Done,
}

/// What the caller must do next for a shape raster request.
#[derive(Debug)]
pub enum ShapeAction {
    /// Report whether `file` exists in the cache directory.
    CheckCache { file: String },
    /// Create the cache directory, then render `kind` in `fill_hex` at
    /// `width` x `height`, unrotated, to tightly packed RGBA bytes.
    Render { kind: ShapeKind, fill_hex: String, width: u32, height: u32 },
    /// Soften `raster` by the feather radius when that is above zero, and
    /// write it as PNG to `file` in the cache directory.
    Save { file: String, raster: RgbaRaster },
    /// The request is over: the cache file name, or why it failed.
    Finish(Result<String, String>),
}

/// What the caller observed while doing the last action.
#[derive(Debug)]
pub enum ShapeEvent {
    /// The cache file exists.
    Cached,
    /// The cache file does not exist.
    NotCached,
    /// Rendering produced these RGBA bytes.
    Rendered(Vec<u8>),
    /// The PNG was written.
    Saved,
    /// The last action failed with this message.
    Failed(String),
}

/// A request for a cached shape raster, as a workflow: each outcome that
/// the caller reports gives the next thing to do.
#[derive(Debug)]
pub struct ShapeJob {
    pub kind: ShapeKind,
    pub fill_hex: String,
    pub width: u32,
    pub height: u32,
    pub invert: bool,
    /// The cache file name.
    pub file: String,
    pub stage: ShapeStage,
}

/// The message when the rendered bytes cannot hold the whole image.
pub open spec fn short_pixels_message() -> Seq<char> {
    "image from raw"@
}

impl ShapeJob {
    /// Whether the job, at its stage, can take this outcome.
    pub open spec fn accepts(&self, event: ShapeEvent) -> bool {
        match self.stage {
            ShapeStage::CheckingCache => event is Cached || event is NotCached,
            ShapeStage::Rendering => event is Rendered || event is Failed,
            ShapeStage::Saving => event is Saved || event is Failed,
            ShapeStage::Done => false,
        }
    }

    /// The pixels to save from what was rendered: unchanged, or with
    /// painted and unpainted regions swapped (unpainted becoming the fill
    /// colour, opaque) when the request inverts.
    pub open spec fn pixels_to_save(&self, rendered: Seq<u8>) -> Seq<u8> {
        if self.invert {
            let argb = color_argb(self.fill_hex@);
            inverted(
                rendered,
                ((argb / 0x1_0000) % 256) as u8,
                ((argb / 0x100) % 256) as u8,
                (argb % 256) as u8,
            )
        } else {
            rendered
        }
    }

    /// The stage and action that follow `event`: a cache hit finishes with
    /// the cache file and renders nothing; a miss asks for the render; the
    /// rendered bytes (swapped when inverting) go to be saved if they hold
    /// the whole image (and a row's byte count fits in `usize`), else the
    /// request fails; a write finishes with the
    /// cache file; a failure finishes with its message.
    pub open spec fn answers(&self, event: ShapeEvent, stage: ShapeStage, action: ShapeAction) -> bool {
        &&& (action is Finish) <==> stage == ShapeStage::Done
        &&& match event {
            ShapeEvent::Cached => action == ShapeAction::Finish(Ok(self.file)),
            ShapeEvent::NotCached => {
                &&& stage == ShapeStage::Rendering
                &&& action matches ShapeAction::Render { kind, fill_hex, width, height }
                &&& kind == self.kind && fill_hex == self.fill_hex
                &&& width == self.width && height == self.height
            },
            ShapeEvent::Rendered(px) => {
                let keep = self.pixels_to_save(px@);
                if 4 * self.width <= usize::MAX && 4 * self.width * self.height <= keep.len() {
                    &&& stage == ShapeStage::Saving
                    &&& action matches ShapeAction::Save { file, raster }
                    &&& file == self.file
                    &&& raster_width(raster) == self.width && raster_height(raster) == self.height
                    &&& raster_bytes(raster) == keep
                } else {
                    action matches ShapeAction::Finish(Err(e)) && e@ == short_pixels_message()
                }
            },
            ShapeEvent::Saved => action == ShapeAction::Finish(Ok(self.file)),
            ShapeEvent::Failed(e) => action == ShapeAction::Finish(Err(e)),
        }
    }

    /// Takes the outcome of the last action and gives the next one.
    pub fn step(&mut self, event: ShapeEvent) -> (action: ShapeAction)
        requires
            old(self).accepts(event),
        ensures
            final(self).kind == old(self).kind,
            final(self).fill_hex == old(self).fill_hex,
            final(self).width == old(self).width,
            final(self).height == old(self).height,
            final(self).invert == old(self).invert,
            final(self).file == old(self).file,
            old(self).answers(event, final(self).stage, action),
            event matches ShapeEvent::Failed(e) ==> action == ShapeAction::Finish(Err(e)),
            (event is Cached || event is Saved) ==> action == ShapeAction::Finish(Ok(old(self).file)),
            event is NotCached ==> action is Render,
    {
        match event {
            ShapeEvent::Cached => {
                self.stage = ShapeStage::Done;
                ShapeAction::Finish(Ok(self.file.clone()))
            },
            ShapeEvent::NotCached => {
                self.stage = ShapeStage::Rendering;
                ShapeAction::Render {
                    kind: self.kind,
                    fill_hex: self.fill_hex.clone(),
                    width: self.width,
                    height: self.height,
                }
            },
            ShapeEvent::Rendered(px) => {
                let mut pixels = px;
                if self.invert {
                    let argb = parse_color(self.fill_hex.as_str());
                    let (r, g, b, _a) = argb_channels(argb);
                    invert_coverage(&mut pixels, r, g, b);
                }
                match rgba_from_raw(self.width, self.height, pixels) {
                    Some(raster) => {
                        self.stage = ShapeStage::Saving;
                        ShapeAction::Save { file: self.file.clone(), raster }
                    },
                    None => {
                        self.stage = ShapeStage::Done;
                        let msg = String::from_str("image from raw");
                        proof {
                            reveal_strlit("image from raw");
                        }
                        ShapeAction::Finish(Err(msg))
                    },
                }
            },
            ShapeEvent::Saved => {
                self.stage = ShapeStage::Done;
                ShapeAction::Finish(Ok(self.file.clone()))
            },
            ShapeEvent::Failed(e) => {
                self.stage = ShapeStage::Done;
                ShapeAction::Finish(Err(e))
            },
        }
    }
}

/// The bytes that a save action writes, if it is one.
pub open spec fn saved_bytes(action: ShapeAction) -> Option<Seq<u8>> {
    match action {
        ShapeAction::Save { raster, .. } => Some(raster_bytes(raster)),
        _ => None,
    }
}

/// Pixel `k` of `out` is pixel `k` of `rendered` with coverage swapped:
/// the fill colour `argb` (red, green, blue bytes), opaque, where the
/// rendered pixel was clear; all zero where it was painted.
pub open spec fn pixel_swapped(out: Seq<u8>, rendered: Seq<u8>, k: int, argb: u32) -> bool {
    if rendered[4 * k + 3] == 0 {
        &&& out[4 * k] == (argb / 0x1_0000) % 256
        &&& out[4 * k + 1] == (argb / 0x100) % 256
        &&& out[4 * k + 2] == argb % 256
        &&& out[4 * k + 3] == 255
    } else {
        &&& out[4 * k] == 0
        &&& out[4 * k + 1] == 0
        &&& out[4 * k + 2] == 0
        &&& out[4 * k + 3] == 0
    }
}

/// An inverting request saves the rendered pixels with painted and
/// unpainted regions swapped: every unpainted pixel becomes the fill
/// colour, opaque (red, green and blue as `argb_channels` takes them from
/// the parsed fill), every painted pixel fully clear, and any bytes after
/// the last whole pixel stay as rendered. A plain request saves the
/// rendered bytes unchanged.
pub proof fn lemma_saved_pixels(job: ShapeJob, px: Vec<u8>, stage: ShapeStage, action: ShapeAction)
    requires
        job.accepts(ShapeEvent::Rendered(px)),
        job.answers(ShapeEvent::Rendered(px), stage, action),
        action is Save,
    ensures
        saved_bytes(action) is Some,
        saved_bytes(action).unwrap().len() == px@.len(),
        !job.invert ==> saved_bytes(action).unwrap() == px@,
        job.invert ==> forall|k: int|
            0 <= k < px@.len() / 4 ==> #[trigger] pixel_swapped(
                saved_bytes(action).unwrap(),
                px@,
                k,
                color_argb(job.fill_hex@),
            ),
        job.invert ==> forall|i: int|
            4 * (px@.len() / 4) <= i < px@.len() ==> #[trigger] saved_bytes(action).unwrap()[i]
                == px@[i],
{
    let out = saved_bytes(action).unwrap();
    if job.invert {
        let argb = color_argb(job.fill_hex@);
        assert forall|k: int| 0 <= k < px@.len() / 4 implies #[trigger] pixel_swapped(
            out,
            px@,
            k,
            argb,
        ) by {
            assert((4 * k) % 4 == 0);
            assert((4 * k + 1) % 4 == 1);
            assert((4 * k + 2) % 4 == 2);
            assert((4 * k + 3) % 4 == 3);
            assert((4 * k) - (4 * k) % 4 + 3 == 4 * k + 3);
            assert((4 * k + 1) - (4 * k + 1) % 4 + 3 == 4 * k + 3);
            assert((4 * k + 2) - (4 * k + 2) % 4 + 3 == 4 * k + 3);
            assert((4 * k + 3) - (4 * k + 3) % 4 + 3 == 4 * k + 3);
            assert(4 * k + 3 < 4 * (px@.len() / 4));
        }
    }
}

/// How far a shape raster request has come.
pub open spec fn shape_stage_rank(stage: ShapeStage) -> nat {
    match stage {
        ShapeStage::CheckingCache => 0,
        ShapeStage::Rendering => 1,
        ShapeStage::Saving => 2,
        ShapeStage::Done => 3,
    }
}

/// Every outcome moves a shape raster request forward, so it finishes
/// after at most three outcomes.
pub proof fn lemma_shape_job_progresses(
    job: ShapeJob,
    event: ShapeEvent,
    stage: ShapeStage,
    action: ShapeAction,
)
    requires
        job.accepts(event),
        job.answers(event, stage, action),
    ensures
        shape_stage_rank(stage) > shape_stage_rank(job.stage),
{
}

/// Starts a request for the cached raster of a shape, with an optional
/// soft edge (`feather_text`, the feather radius as `{}` prints it) and the
/// painted and unpainted regions optionally swapped (`invert`). The first
/// thing to do is to look the cache file up.
pub fn shape_png_maybe_inverted(
    kind: ShapeKind,
    fill_hex: &str,
    width: u32,
    height: u32,
    feather_text: &str,
    invert: bool,
) -> (start: (ShapeJob, ShapeAction))
    ensures
        start.0.kind == kind,
        start.0.fill_hex@ == fill_hex@,
        start.0.width == width,
        start.0.height == height,
        start.0.invert == invert,
        start.0.file@ == shape_cache_name(kind, fill_hex@, width, height, feather_text@, invert),
        start.0.stage == ShapeStage::CheckingCache,
        start.1 == (ShapeAction::CheckCache { file: start.0.file }),
{
    let file = shape_file_name(kind, fill_hex, width, height, feather_text, invert);
    let job = ShapeJob {
        kind,
        fill_hex: String::from_str(fill_hex),
        width,
        height,
        invert,
        file: file.clone(),
        stage: ShapeStage::CheckingCache,
    };
    (job, ShapeAction::CheckCache { file })
}

/// Starts a request for the cached raster of a shape with a hard edge,
/// not inverted: as [`shape_png_maybe_inverted`] with feather `0`.
pub fn shape_png(kind: ShapeKind, fill_hex: &str, width: u32, height: u32) -> (start: (
    ShapeJob,
    ShapeAction,
))
    ensures
        start.0.kind == kind,
        start.0.fill_hex@ == fill_hex@,
        start.0.width == width,
        start.0.height == height,
        !start.0.invert,
        start.0.file@ == shape_cache_name(kind, fill_hex@, width, height, "0"@, false),
        start.0.stage == ShapeStage::CheckingCache,
        start.1 == (ShapeAction::CheckCache { file: start.0.file }),
{
    shape_png_maybe_inverted(kind, fill_hex, width, height, "0", false)
}

} // verus!
