//! Row packing: greedy left-to-right placement of fixed-height,
//! variable-width thumbnails into width-bounded, horizontally centered rows.
//!
//! The packer is a pure function of its inputs — no state, no side effects —
//! so a caller may rerun it every frame on the current available width.
//! Widths are pixel counts: every image is scaled uniformly so its height
//! equals the target row height, and its scaled width follows from its
//! intrinsic aspect ratio.

use vstd::prelude::*;

verus! {

/// One thumbnail placed inside a row. `x` is the horizontal offset of the
/// image within the row's packed content; a renderer adds the row's
/// `left_padding` to obtain the absolute position.
#[derive(Clone, Copy, Debug)]
pub struct PlacedImage {
    /// Index of the image in the packer's input sequence.
    pub index: usize,
    /// Offset from the start of the row's packed content, in pixels.
    pub x: u64,
    /// Scaled width of the image, in pixels.
    pub width: u32,
}

/// One packed row: a contiguous run of input images, the width of its packed
/// content, and the left padding that centers it.
#[derive(Debug)]
pub struct LayoutRow {
    /// Input index of the row's first image.
    pub start: usize,
    /// The row's images, in input order.
    pub images: Vec<PlacedImage>,
    /// Width of the packed content: image widths plus the padding between them.
    pub total_width: u64,
    /// Horizontal offset that centers the row inside the available width.
    pub left_padding: u64,
}

/// Width of a run of images packed side by side: the sum of the widths plus
/// one padding gap between each neighbouring pair.
pub open spec fn row_total(ws: Seq<u32>, padding: u32) -> int
    decreases ws.len(),
{
    if ws.len() == 0 {
        0
    } else if ws.len() == 1 {
        ws.last() as int
    } else {
        row_total(ws.drop_last(), padding) + padding + ws.last()
    }
}

/// Well-formedness of one row against the input widths `ws` and the packing
/// parameters: the row is a non-empty contiguous run of inputs, its recorded
/// total is the packed width of that run, images sit left to right separated
/// by `padding`, a row of two or more images fits inside `available_width`,
/// and `left_padding` centers the row (an over-wide single image gets no
/// padding).
pub open spec fn row_wf(row: LayoutRow, ws: Seq<u32>, available_width: u32, padding: u32) -> bool {
    let n = row.images.len() as int;
    &&& n >= 1
    &&& row.start + n <= ws.len()
    &&& row.total_width == row_total(ws.subrange(row.start as int, row.start + n), padding)
    &&& (forall|k: int|
        0 <= k < n ==> (#[trigger] row.images[k]).index == row.start + k && row.images[k].width
            == ws[row.start + k])
    &&& row.images[0].x == 0
    &&& (forall|k: int|
        1 <= k < n ==> (#[trigger] row.images[k]).x == row.images[k - 1].x + row.images[k
            - 1].width + padding)
    &&& (n > 1 ==> row.total_width <= available_width)
    &&& (if row.total_width <= available_width {
        row.left_padding == (available_width - row.total_width) as u64 / 2
    } else {
        row.left_padding == 0
    })
}

/// Well-formedness of a whole packing: every row is well formed, the rows
/// partition the input in order, and each break is forced — the image that
/// opens a row would have overflowed the row before it.
pub open spec fn packing_wf(
    rows: Seq<LayoutRow>,
    ws: Seq<u32>,
    available_width: u32,
    padding: u32,
) -> bool {
    &&& (rows.len() == 0 <==> ws.len() == 0)
    &&& (forall|r: int| 0 <= r < rows.len() ==> row_wf(#[trigger] rows[r], ws, available_width, padding))
    &&& (rows.len() > 0 ==> rows[0].start == 0)
    &&& (forall|r: int|
        1 <= r < rows.len() ==> (#[trigger] rows[r]).start == rows[r - 1].start + rows[r
            - 1].images.len())
    &&& (rows.len() > 0 ==> rows.last().start + rows.last().images.len() == ws.len())
    &&& (forall|r: int|
        0 <= r < rows.len() && (#[trigger] rows[r]).start + rows[r].images.len() < ws.len()
            ==> rows[r].total_width + padding + ws[rows[r].start + rows[r].images.len()]
            > available_width)
}

/// Packs scaled image widths into centered rows.
///
/// Images are appended left to right while the row still fits inside
/// `available_width`; an image that would overflow closes the row and opens
/// the next one. The first image of a row is never rejected, however wide,
/// so a single oversized image forms its own row. Zero images produce zero
/// rows.
pub fn pack_rows(widths: &Vec<u32>, available_width: u32, padding: u32) -> (rows: Vec<LayoutRow>)
    ensures
        packing_wf(rows@, widths@, available_width, padding),
{
    let ghost ws = widths@;
    let mut rows: Vec<LayoutRow> = Vec::new();
    let mut cur: Vec<PlacedImage> = Vec::new();
    let mut cur_start: usize = 0;
    let mut cur_width: u64 = 0;
    let mut i: usize = 0;
    while i < widths.len()
        invariant
            ws == widths@,
            i <= ws.len(),
            i == 0 ==> rows@.len() == 0 && cur@.len() == 0 && cur_start == 0 && cur_width == 0,
            i > 0 ==> cur@.len() >= 1,
            cur_start + cur@.len() == i,
            rows@.len() == 0 ==> cur_start == 0,
            rows@.len() > 0 ==> rows@[0].start == 0,
            forall|r: int|
                1 <= r < rows@.len() ==> (#[trigger] rows@[r]).start == rows@[r - 1].start
                    + rows@[r - 1].images.len(),
            rows@.len() > 0 ==> rows@.last().start + rows@.last().images.len() == cur_start,
            forall|r: int|
                0 <= r < rows@.len() ==> row_wf(#[trigger] rows@[r], ws, available_width, padding),
            forall|r: int|
                0 <= r < rows@.len() && (#[trigger] rows@[r]).start + rows@[r].images.len()
                    < ws.len() ==> rows@[r].total_width + padding + ws[rows@[r].start
                    + rows@[r].images.len()] > available_width,
            cur@.len() >= 1 ==> {
                &&& cur_width == row_total(ws.subrange(cur_start as int, i as int), padding)
                &&& cur@[0].x == 0
                &&& (forall|k: int|
                    0 <= k < cur@.len() ==> (#[trigger] cur@[k]).index == cur_start + k
                        && cur@[k].width == ws[cur_start + k])
                &&& (forall|k: int|
                    1 <= k < cur@.len() ==> (#[trigger] cur@[k]).x == cur@[k - 1].x + cur@[k
                        - 1].width + padding)
                &&& cur@.last().x + cur@.last().width == cur_width
                &&& (cur@.len() > 1 ==> cur_width <= available_width)
                &&& cur_width <= u32::MAX as u64
            },
        decreases ws.len() - i,
    {
        let w = widths[i];
        if cur.len() > 0 && cur_width + (padding as u64) + (w as u64) > available_width as u64 {
            let lp: u64 = if cur_width <= available_width as u64 {
                ((available_width as u64) - cur_width) / 2
            } else {
                0
            };
            let closed = LayoutRow { start: cur_start, images: cur, total_width: cur_width, left_padding: lp };
            rows.push(closed);
            cur = Vec::new();
            cur_start = i;
            cur_width = 0;
        }
        let x: u64 = if cur.len() == 0 {
            0
        } else {
            cur_width + (padding as u64)
        };
        if cur.len() == 0 {
            cur_width = w as u64;
        } else {
            cur_width = cur_width + (padding as u64) + (w as u64);
        }
        cur.push(PlacedImage { index: i, x, width: w });
        proof {
            let run = ws.subrange(cur_start as int, i + 1);
            assert(run.drop_last() =~= ws.subrange(cur_start as int, i as int));
            assert(run.last() == ws[i as int]);
        }
        i += 1;
    }
    if cur.len() > 0 {
        let lp: u64 = if cur_width <= available_width as u64 {
            ((available_width as u64) - cur_width) / 2
        } else {
            0
        };
        let closed = LayoutRow { start: cur_start, images: cur, total_width: cur_width, left_padding: lp };
        rows.push(closed);
    }
    rows
}

/// The width of an image scaled uniformly so its height equals
/// `target_height`, truncated to whole pixels and saturated at `u32::MAX`.
pub open spec fn scaled_width_of(width: u32, height: u32, target_height: u32) -> u32 {
    let exact = (width as int) * (target_height as int) / (height as int);
    if exact > u32::MAX {
        u32::MAX
    } else {
        exact as u32
    }
}

/// The scaled widths of a whole image sequence at one target row height.
pub open spec fn scaled_seq(dims: Seq<(u32, u32)>, target_height: u32) -> Seq<u32> {
    dims.map_values(|d: (u32, u32)| scaled_width_of(d.0, d.1, target_height))
}

/// Scales one image's intrinsic dimensions to the target row height.
pub fn scaled_width(width: u32, height: u32, target_height: u32) -> (r: u32)
    requires
        height > 0,
    ensures
        r == scaled_width_of(width, height, target_height),
{
    proof {
        assert((width as int) * (target_height as int) <= (u32::MAX as int) * (u32::MAX as int))
            by (nonlinear_arith)
            requires
                width <= u32::MAX,
                target_height <= u32::MAX,
        ;
    }
    let product: u64 = (width as u64) * (target_height as u64);
    let q: u64 = product / (height as u64);
    if q > u32::MAX as u64 {
        u32::MAX
    } else {
        q as u32
    }
}

/// Packs a sequence of images, given by intrinsic pixel dimensions, into
/// centered rows of uniform height `target_height`. Pure: the layout is
/// re-derivable every frame from the current inputs alone. The packer
/// imposes no bound on `target_height`; bounding the user's scale factor is
/// the caller's concern.
pub fn pack(
    dims: &Vec<(u32, u32)>,
    target_height: u32,
    available_width: u32,
    padding: u32,
) -> (rows: Vec<LayoutRow>)
    requires
        forall|i: int| 0 <= i < dims@.len() ==> (#[trigger] dims@[i]).1 > 0,
    ensures
        packing_wf(rows@, scaled_seq(dims@, target_height), available_width, padding),
{
    let mut widths: Vec<u32> = Vec::new();
    let mut i: usize = 0;
    while i < dims.len()
        invariant
            i <= dims@.len(),
            widths@.len() == i,
            forall|j: int| 0 <= j < dims@.len() ==> (#[trigger] dims@[j]).1 > 0,
            forall|j: int|
                0 <= j < i ==> widths@[j] == scaled_width_of(
                    (#[trigger] dims@[j]).0,
                    dims@[j].1,
                    target_height,
                ),
        decreases dims@.len() - i,
    {
        let (w, h) = dims[i];
        let sw = scaled_width(w, h, target_height);
        widths.push(sw);
        i += 1;
    }
    proof {
        assert(widths@ =~= scaled_seq(dims@, target_height));
    }
    pack_rows(&widths, available_width, padding)
}

/// Centering: a row that fits inside the available width is placed so that
/// the space on its left equals the space on its right, up to one pixel of
/// integer rounding.
pub proof fn lemma_row_centered(row: LayoutRow, ws: Seq<u32>, available_width: u32, padding: u32)
    requires
        row_wf(row, ws, available_width, padding),
        row.total_width <= available_width,
    ensures
        2 * row.left_padding + row.total_width <= available_width,
        available_width - (2 * row.left_padding + row.total_width) <= 1,
{
}

/// The plain sum of a run of widths.
pub open spec fn widths_sum(ws: Seq<u32>) -> int
    decreases ws.len(),
{
    if ws.len() == 0 {
        0
    } else {
        widths_sum(ws.drop_last()) + ws.last()
    }
}

/// A row's packed width spelled out: the sum of its image widths plus one
/// padding gap for every neighbouring pair.
pub proof fn lemma_row_total_is_sum(ws: Seq<u32>, padding: u32)
    requires
        ws.len() >= 1,
    ensures
        row_total(ws, padding) == widths_sum(ws) + (padding as int) * (ws.len() - 1),
    decreases ws.len(),
{
    if ws.len() == 1 {
        assert(widths_sum(ws.drop_last()) == 0);
        assert(widths_sum(ws) == ws.last());
    } else {
        lemma_row_total_is_sum(ws.drop_last(), padding);
        assert((padding as int) * (ws.len() - 1) == (padding as int) * (ws.len() - 2) + padding)
            by (nonlinear_arith);
    }
}

/// Width invariant: a packed row never exceeds the available width unless it
/// holds exactly one image wider than the available width, which is emitted
/// alone. Spelled out over the plain sum: `sum(width) + padding * (n - 1)`
/// stays within the available width for every row of two or more images.
pub proof fn lemma_row_width_bound(row: LayoutRow, ws: Seq<u32>, available_width: u32, padding: u32)
    requires
        row_wf(row, ws, available_width, padding),
    ensures
        row.total_width > available_width ==> row.images.len() == 1,
        row.images.len() > 1 ==> widths_sum(
            ws.subrange(row.start as int, row.start + row.images.len()),
        ) + (padding as int) * (row.images.len() - 1) <= available_width,
{
    lemma_row_total_is_sum(
        ws.subrange(row.start as int, row.start + row.images.len() as int),
        padding,
    );
}

} // verus!
