//! Tall-page capture: a page higher than the view is captured frame by frame
//! and the frames are joined into one image.
//!
//! The view shows `height` rows at a time. After each frame the view is
//! scrolled down by `height` rows. Where the page's height is no multiple of
//! the view's, the last scroll stops short, so the last frame repeats rows of
//! the frame before: those leading rows are dropped and only the rows at the
//! bottom are kept.

use vstd::prelude::*;

verus! {

/// Bytes per pixel of the row-major RGBA8 buffers handled here.
pub const BYTES_PER_PIXEL: u64 = 4;

/// How a page is captured.
#[derive(Clone, Copy, Debug, PartialEq, Eq, Structural)]
pub struct CapturePlan {
    /// The number of frames that are kept whole.
    pub frames: u32,
    /// 1 where one more frame follows of which only the bottom rows are kept,
    /// else 0.
    pub extra_frame: u32,
    /// The number of leading rows dropped from that extra frame.
    pub skip_rows: u32,
}

impl CapturePlan {
    /// The number of frames to capture.
    pub open spec fn total(self) -> nat {
        (self.frames + self.extra_frame) as nat
    }

    /// Whether leading rows are dropped from the frame at `index`.
    pub open spec fn trims(self, index: nat) -> bool {
        self.extra_frame == 1 && index == self.frames
    }

    /// The number of rows kept of the frame at `index`, for a view of
    /// `height` rows.
    pub open spec fn rows_kept(self, index: nat, height: u32) -> nat {
        if self.trims(index) {
            (height - self.skip_rows) as nat
        } else {
            height as nat
        }
    }

    /// The number of rows kept of all frames together.
    pub open spec fn rows(self, height: u32) -> nat {
        (self.frames * height + self.extra_frame * (height - self.skip_rows)) as nat
    }

    /// The number of frames to capture.
    pub fn frame_count(&self) -> (count: u64)
        ensures
            count == self.total(),
    {
        self.frames as u64 + self.extra_frame as u64
    }

    /// Whether leading rows are dropped from the frame at `index`.
    pub fn is_trimmed(&self, index: usize) -> (trimmed: bool)
        ensures
            trimmed == self.trims(index as nat),
    {
        self.extra_frame == 1 && index as u64 == self.frames as u64
    }
}

/// The plan for a page of `scroll_height` rows in a view of `height` rows.
///
/// A page that is not higher than the view takes one frame, kept whole. A
/// higher page takes one whole frame for each full view height, and where
/// rows remain, an extra frame of which just those remaining rows are kept.
pub open spec fn capture_plan(height: u32, scroll_height: u32) -> CapturePlan {
    if scroll_height < height {
        CapturePlan { frames: 1, extra_frame: 0, skip_rows: 0 }
    } else if scroll_height % height == 0 {
        CapturePlan { frames: (scroll_height / height) as u32, extra_frame: 0, skip_rows: 0 }
    } else {
        CapturePlan {
            frames: (scroll_height / height) as u32,
            extra_frame: 1,
            skip_rows: (height - scroll_height % height) as u32,
        }
    }
}

/// Plans the capture of a page of `scroll_height` rows in a view of `height`
/// rows.
pub fn plan_capture(height: u32, scroll_height: u32) -> (plan: CapturePlan)
    requires
        height > 0,
    ensures
        plan == capture_plan(height, scroll_height),
{
    if scroll_height < height {
        return CapturePlan { frames: 1, extra_frame: 0, skip_rows: 0 };
    }
    let frames: u32 = scroll_height / height;
    let remainder: u32 = scroll_height % height;
    if remainder == 0 {
        CapturePlan { frames, extra_frame: 0, skip_rows: 0 }
    } else {
        CapturePlan { frames, extra_frame: 1, skip_rows: height - remainder }
    }
}

/// The number of frames of a plan is the page height divided by the view
/// height, rounded up, and at least one; the rows kept are exactly the rows of
/// the page where the page is at least as high as the view, and one view
/// height where it is not; the extra frame, where there is one, keeps the
/// remainder of the division.
pub proof fn law_plan_covers_page(height: u32, scroll_height: u32)
    requires
        height > 0,
    ensures
        ({
            let plan = capture_plan(height, scroll_height);
            &&& plan.total() == if scroll_height < height {
                1
            } else {
                (scroll_height + height - 1) / (height as int)
            }
            &&& plan.rows(height) == if scroll_height < height {
                height
            } else {
                scroll_height
            }
            &&& plan.skip_rows < height
            &&& plan.extra_frame == 1 ==> plan.rows_kept(plan.frames as nat, height)
                == scroll_height % height
            &&& plan.extra_frame == 0 || plan.extra_frame == 1
        }),
{
    let h = height as int;
    let s = scroll_height as int;
    let q = s / h;
    let r = s % h;
    vstd::arithmetic::div_mod::lemma_fundamental_div_mod(s, h);
    if s >= h {
        // s == h * q + r with 0 <= r < h
        if r == 0 {
            assert((s + h - 1) / h == q) by (nonlinear_arith)
                requires
                    s == h * q,
                    h > 0,
            ;
            assert(q * h == s) by (nonlinear_arith)
                requires
                    s == h * q,
            ;
        } else {
            assert((s + h - 1) / h == q + 1) by (nonlinear_arith)
                requires
                    s == h * q + r,
                    0 < r < h,
            ;
            assert(q * h + 1 * (h - (h - r)) == s) by (nonlinear_arith)
                requires
                    s == h * q + r,
            ;
        }
    }
}

/// The number of bytes in one row of `width` pixels.
pub fn row_bytes(width: u32) -> (bytes: u64)
    ensures
        bytes == BYTES_PER_PIXEL * width,
{
    BYTES_PER_PIXEL * (width as u64)
}

/// The number of bytes of an image of `width` by `rows` pixels, or `None`
/// where a buffer of that size cannot exist on this machine.
pub fn image_bytes(width: u32, rows: u32) -> (bytes: Option<usize>)
    ensures
        match bytes {
            Some(n) => n == BYTES_PER_PIXEL * width * rows,
            None => BYTES_PER_PIXEL * width * rows > usize::MAX,
        },
{
    let row: u64 = row_bytes(width);
    assert(row * rows <= 0x3_FFFF_FFFC * 0xFFFF_FFFF) by (nonlinear_arith)
        requires
            0 <= row <= 0x3_FFFF_FFFC,
            0 <= rows <= 0xFFFF_FFFF,
    ;
    let total: u128 = (row as u128) * (rows as u128);
    if total > usize::MAX as u128 {
        None
    } else {
        Some(total as usize)
    }
}

/// The index of the first byte kept of a frame: past the dropped rows where
/// the frame is trimmed, and never past the frame's end.
pub open spec fn first_kept(plan: CapturePlan, index: nat, len: nat, width: u32) -> nat {
    if plan.trims(index) {
        let dropped = (plan.skip_rows * (BYTES_PER_PIXEL * width)) as nat;
        if dropped < len {
            dropped
        } else {
            len
        }
    } else {
        0
    }
}

/// The bytes kept of the frame at `index`.
pub open spec fn kept_pixels(plan: CapturePlan, index: nat, pixels: Seq<u8>, width: u32) -> Seq<
    u8,
> {
    pixels.subrange(first_kept(plan, index, pixels.len(), width) as int, pixels.len() as int)
}

/// The first `count` frames joined, each cut down to what is kept of it.
pub open spec fn assembled(plan: CapturePlan, width: u32, shots: Seq<Vec<u8>>, count: nat) -> Seq<
    u8,
>
    decreases count,
{
    if count == 0 {
        Seq::empty()
    } else {
        assembled(plan, width, shots, (count - 1) as nat) + kept_pixels(
            plan,
            (count - 1) as nat,
            shots[count - 1]@,
            width,
        )
    }
}

/// Appends to `frames` what is kept of the frame at `index`, whose pixels are
/// `pixels`, rows of `width` pixels each.
pub fn append_frame(
    frames: &mut Vec<u8>,
    plan: &CapturePlan,
    index: usize,
    pixels: &[u8],
    width: u32,
)
    ensures
        final(frames)@ == old(frames)@ + kept_pixels(*plan, index as nat, pixels@, width),
{
    let mut at: usize = 0;
    if plan.is_trimmed(index) {
        let row: u64 = row_bytes(width);
        assert(plan.skip_rows * row <= 0xFFFF_FFFF * 0x3_FFFF_FFFC) by (nonlinear_arith)
            requires
                0 <= plan.skip_rows <= 0xFFFF_FFFF,
                0 <= row <= 0x3_FFFF_FFFC,
        ;
        let dropped: u128 = (plan.skip_rows as u128) * (row as u128);
        if dropped < pixels.len() as u128 {
            at = dropped as usize;
        } else {
            at = pixels.len();
        }
    }
    let ghost start = at;
    while at < pixels.len()
        invariant
            start <= at <= pixels@.len(),
            frames@ == old(frames)@ + pixels@.subrange(start as int, at as int),
        decreases pixels@.len() - at,
    {
        frames.push(pixels[at]);
        at += 1;
    }
}

/// Joins the captured frames into one row-major buffer: every frame whole,
/// but for a trimmed last frame, of which only the bottom rows are kept.
pub fn assemble_frames(plan: &CapturePlan, width: u32, shots: &Vec<Vec<u8>>) -> (image: Vec<u8>)
    ensures
        image@ == assembled(*plan, width, shots@, shots@.len()),
{
    let mut image: Vec<u8> = Vec::new();
    let mut index: usize = 0;
    while index < shots.len()
        invariant
            0 <= index <= shots@.len(),
            image@ == assembled(*plan, width, shots@, index as nat),
        decreases shots@.len() - index,
    {
        append_frame(&mut image, plan, index, shots[index].as_slice(), width);
        index += 1;
    }
    image
}

/// The number of rows that the first `count` frames of a plan keep.
pub open spec fn rows_of_first(plan: CapturePlan, height: u32, count: nat) -> nat {
    if count <= plan.frames {
        (count * height) as nat
    } else {
        (plan.frames * height + (height - plan.skip_rows)) as nat
    }
}

/// Where every captured frame holds `height` full rows, the first `count`
/// frames joined hold the rows the plan keeps of them and no byte more.
pub proof fn lemma_assembled_len(
    plan: CapturePlan,
    height: u32,
    width: u32,
    shots: Seq<Vec<u8>>,
    count: nat,
)
    requires
        plan.skip_rows <= height,
        plan.extra_frame <= 1,
        count <= shots.len(),
        count <= plan.total(),
        forall|i: int|
            0 <= i < shots.len() ==> (#[trigger] shots[i])@.len() == height * (BYTES_PER_PIXEL
                * width),
    ensures
        assembled(plan, width, shots, count).len() == rows_of_first(plan, height, count) * (
        BYTES_PER_PIXEL * width),
    decreases count,
{
    let rb = (BYTES_PER_PIXEL * width) as int;
    let h = height as int;
    if count > 0 {
        let before = (count - 1) as nat;
        lemma_assembled_len(plan, height, width, shots, before);
        if plan.trims(before) {
            let k = plan.skip_rows as int;
            assert(k * rb <= h * rb) by (nonlinear_arith)
                requires
                    0 <= k <= h,
                    rb >= 0,
            ;
            assert((before * h) * rb + (h * rb - k * rb) == (before * h + (h - k)) * rb)
                by (nonlinear_arith);
        } else {
            assert((before * h) * rb + h * rb == ((before + 1) * h) * rb) by (nonlinear_arith);
        }
    } else {
        assert(0 * rb == 0);
    }
}

/// The joined image of a planned capture: where all frames of the plan were
/// captured and each holds `height` full rows, the image holds exactly the
/// rows of the page (one view height where the page is lower than the view),
/// `width` pixels each.
pub proof fn law_assembled_rows(height: u32, scroll_height: u32, width: u32, shots: Seq<Vec<u8>>)
    requires
        height > 0,
        shots.len() == capture_plan(height, scroll_height).total(),
        forall|i: int|
            0 <= i < shots.len() ==> (#[trigger] shots[i])@.len() == height * (BYTES_PER_PIXEL
                * width),
    ensures
        assembled(capture_plan(height, scroll_height), width, shots, shots.len()).len() == (
        if scroll_height < height {
            height
        } else {
            scroll_height
        }) * (BYTES_PER_PIXEL * width),
{
    let plan = capture_plan(height, scroll_height);
    law_plan_covers_page(height, scroll_height);
    lemma_assembled_len(plan, height, width, shots, shots.len());
    assert(rows_of_first(plan, height, shots.len()) == plan.rows(height)) by (nonlinear_arith)
        requires
            shots.len() == plan.frames + plan.extra_frame,
            plan.extra_frame == 0 || plan.extra_frame == 1,
            plan.extra_frame == 0 ==> rows_of_first(plan, height, shots.len()) == shots.len()
                * height,
            plan.extra_frame == 1 ==> rows_of_first(plan, height, shots.len()) == plan.frames
                * height + (height - plan.skip_rows),
            plan.rows(height) == plan.frames * height + plan.extra_frame * (height
                - plan.skip_rows),
    ;
}

} // verus!
