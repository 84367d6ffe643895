//! The deterministic render schedule: image rows are split into one
//! contiguous band per worker, every worker traces its band independently,
//! and the main thread reassembles the bands in worker order.
//!
//! The partition is fixed by the image height and the worker count alone,
//! and reassembling the bands in order restores exactly the original row
//! sequence — so the output image does not depend on how many workers
//! traced it. That independence is [`lemma_bands_reassemble`].

use vstd::prelude::*;

use vstd::arithmetic::div_mod::{lemma_fundamental_div_mod, lemma_mod_bound, lemma_div_is_ordered_by_denominator, lemma_div_pos_is_pos};
use vstd::arithmetic::mul::{lemma_mul_inequality, lemma_mul_is_distributive_add};

use crate::color::Color;

verus! {

/// Camera flag bit: render four jittered samples per pixel and average them.
pub const ANTI_ALIASING: u8 = 1;

/// Camera flag bit: skip shadow rays; every light reaches every surface.
pub const NO_SHADOW: u8 = 2;

/// Whether the anti-aliasing flag is set.
pub fn has_anti_aliasing(flags: u8) -> (r: bool)
    ensures
        r == ((flags & ANTI_ALIASING) != 0),
{
    flags & ANTI_ALIASING != 0
}

/// Whether the shadow pass is disabled.
pub fn has_no_shadow(flags: u8) -> (r: bool)
    ensures
        r == ((flags & NO_SHADOW) != 0),
{
    flags & NO_SHADOW != 0
}

/// How many rows each worker band spans: the image height divided by the
/// worker count, rounded upward.
pub open spec fn spec_band_step(height: int, threads: int) -> int
    recommends
        threads >= 1,
{
    height / threads + if height % threads == 0 {
        0int
    } else {
        1int
    }
}

/// The first row of band `k`, clamped to the image height: trailing bands
/// of a partition wider than the image are empty.
pub open spec fn spec_band_start(height: int, threads: int, k: int) -> int
    recommends
        threads >= 1,
{
    if k * spec_band_step(height, threads) < height {
        k * spec_band_step(height, threads)
    } else {
        height
    }
}

/// The row after the last of band `k`: where band `k + 1` starts.
pub open spec fn spec_band_stop(height: int, threads: int, k: int) -> int
    recommends
        threads >= 1,
{
    spec_band_start(height, threads, k + 1)
}

/// The band width is non-negative, and `threads` bands reach the full
/// height without overshooting it by a worker's worth of rows.
proof fn lemma_step_bounds(height: int, threads: int)
    requires
        threads >= 1,
        height >= 0,
    ensures
        spec_band_step(height, threads) >= 0,
        threads * spec_band_step(height, threads) >= height,
        threads * spec_band_step(height, threads) <= height + threads - 1,
{
    let q = height / threads;
    lemma_fundamental_div_mod(height, threads);
    lemma_mod_bound(height, threads);
    lemma_div_pos_is_pos(height, threads);
    if height % threads != 0 {
        lemma_mul_is_distributive_add(threads, q, 1);
    }
}

/// The number of rows in each worker band.
pub fn band_step(height: usize, threads: usize) -> (s: usize)
    requires
        threads >= 1,
    ensures
        s == spec_band_step(height as int, threads as int),
{
    if threads == 1 {
        proof {
            lemma_fundamental_div_mod(height as int, 1);
        }
        height
    } else {
        let q = height / threads;
        let r = height % threads;
        if r == 0 {
            q
        } else {
            proof {
                lemma_div_is_ordered_by_denominator(height as int, 2, threads as int);
            }
            q + 1
        }
    }
}

/// The half-open row range `[start, stop)` that worker `k` renders.
pub fn band_range(height: usize, threads: usize, k: usize) -> (r: (usize, usize))
    requires
        1 <= threads,
        k < threads,
        height + threads - 1 <= usize::MAX,
    ensures
        r.0 == spec_band_start(height as int, threads as int, k as int),
        r.1 == spec_band_stop(height as int, threads as int, k as int),
        r.0 <= r.1 <= height,
{
    let step = band_step(height, threads);
    proof {
        lemma_step_bounds(height as int, threads as int);
        lemma_mul_inequality(k as int, threads as int, step as int);
        lemma_mul_inequality(k as int + 1, threads as int, step as int);
        lemma_mul_inequality(k as int, k as int + 1, step as int);
    }
    let lo_raw = k * step;
    let lo = if lo_raw < height {
        lo_raw
    } else {
        height
    };
    let hi_raw = (k + 1) * step;
    let hi = if hi_raw < height {
        hi_raw
    } else {
        height
    };
    (lo, hi)
}

/// The slice of `rows` that worker `k` contributes.
pub open spec fn band_of<T>(rows: Seq<T>, threads: int, k: int) -> Seq<T>
    recommends
        threads >= 1,
{
    rows.subrange(
        spec_band_start(rows.len() as int, threads, k),
        spec_band_stop(rows.len() as int, threads, k),
    )
}

/// The first `k` worker bands of `rows`, concatenated in worker order.
pub open spec fn concat_bands<T>(rows: Seq<T>, threads: int, k: int) -> Seq<T>
    recommends
        threads >= 1,
    decreases k,
{
    if k <= 0 {
        Seq::empty()
    } else {
        concat_bands(rows, threads, k - 1) + band_of(rows, threads, k - 1)
    }
}

/// The first `k` bands together are exactly the rows up to band `k`'s start.
proof fn lemma_concat_bands_prefix<T>(rows: Seq<T>, threads: int, k: int)
    requires
        threads >= 1,
        0 <= k,
    ensures
        concat_bands(rows, threads, k) == rows.subrange(
            0,
            spec_band_start(rows.len() as int, threads, k),
        ),
    decreases k,
{
    let h = rows.len() as int;
    let step = spec_band_step(h, threads);
    lemma_step_bounds(h, threads);
    if k == 0 {
        assert(0 * step == 0);
        assert(concat_bands(rows, threads, 0) == rows.subrange(0, spec_band_start(h, threads, 0)));
    } else {
        lemma_concat_bands_prefix(rows, threads, k - 1);
        lemma_mul_inequality(k - 1, k, step);
        assert(concat_bands(rows, threads, k) =~= rows.subrange(
            0,
            spec_band_start(h, threads, k),
        ));
    }
}

/// Reassembling every worker band in worker order restores the row sequence
/// itself: for any row sequence and any worker count, the rendered image is
/// the same, independent of how many bands it was split into.
pub proof fn lemma_bands_reassemble<T>(rows: Seq<T>, threads: int)
    requires
        threads >= 1,
    ensures
        concat_bands(rows, threads, threads) == rows,
{
    let h = rows.len() as int;
    lemma_concat_bands_prefix(rows, threads, threads);
    lemma_step_bounds(h, threads);
    assert(spec_band_start(h, threads, threads) == h);
    assert(rows.subrange(0, h) =~= rows);
}

/// The first `k` worker buffers, concatenated back to front, are the first
/// `k` bands of `rows` whenever each buffer holds exactly its band.
proof fn lemma_flatten_alt_matches_concat<T>(bands: Seq<Seq<T>>, rows: Seq<T>, threads: int, k: int)
    requires
        threads >= 1,
        bands.len() == threads,
        forall|j: int| 0 <= j < threads ==> bands[j] == band_of(rows, threads, j),
        0 <= k <= threads,
    ensures
        bands.subrange(0, k).flatten_alt() == concat_bands(rows, threads, k),
    decreases k,
{
    if k == 0 {
        assert(bands.subrange(0, 0) =~= Seq::<Seq<T>>::empty());
    } else {
        lemma_flatten_alt_matches_concat(bands, rows, threads, k - 1);
        let prefix = bands.subrange(0, k);
        assert(prefix.drop_last() =~= bands.subrange(0, k - 1));
        assert(prefix.last() == bands[k - 1]);
    }
}

/// If every worker's buffer holds exactly its band of `rows`, flattening
/// the buffers in worker order restores `rows` itself: the assembled image
/// does not depend on the worker count.
pub proof fn lemma_assembly_restores_rows<T>(bands: Seq<Seq<T>>, rows: Seq<T>, threads: int)
    requires
        threads >= 1,
        bands.len() == threads,
        forall|j: int| 0 <= j < threads ==> bands[j] == band_of(rows, threads, j),
    ensures
        bands.flatten() == rows,
{
    lemma_flatten_alt_matches_concat(bands, rows, threads, threads);
    assert(bands.subrange(0, threads) =~= bands);
    bands.lemma_flatten_and_flatten_alt_are_equivalent();
    lemma_bands_reassemble(rows, threads);
}

/// Concatenates the per-worker pixel buffers in worker order into one
/// buffer, first worker first.
pub fn assemble_bands(bands: Vec<Vec<Color>>) -> (out: Vec<Color>)
    ensures
        out@ == bands@.map_values(|b: Vec<Color>| b@).flatten(),
{
    let mut out: Vec<Color> = Vec::new();
    let mut i: usize = 0;
    while i < bands.len()
        invariant
            i <= bands@.len(),
            out@ == bands@.subrange(0, i as int).map_values(|b: Vec<Color>| b@).flatten(),
        decreases bands@.len() - i,
    {
        let band = &bands[i];
        let ghost prev = out@;
        let mut j: usize = 0;
        while j < band.len()
            invariant
                j <= band@.len(),
                band == &bands[i as int],
                i < bands@.len(),
                out@ == prev + band@.subrange(0, j as int),
            decreases band@.len() - j,
        {
            out.push(band[j]);
            assert(band@.subrange(0, j + 1 as int) =~= band@.subrange(0, j as int).push(
                band@[j as int],
            ));
            j = j + 1;
        }
        proof {
            assert(band@.subrange(0, band@.len() as int) =~= band@);
            let prefix = bands@.subrange(0, i as int).map_values(|b: Vec<Color>| b@);
            prefix.lemma_flatten_push(band@);
            assert(bands@.subrange(0, i + 1 as int).map_values(|b: Vec<Color>| b@) =~= prefix.push(
                band@,
            ));
        }
        i = i + 1;
    }
    proof {
        assert(bands@.subrange(0, bands@.len() as int) =~= bands@);
    }
    out
}

/// Flattens pixels to the packed 8-bit RGB buffer the image encoder
/// consumes: three bytes per pixel, red then green then blue, in pixel
/// order.
pub fn pack_rgb(pixels: &Vec<Color>) -> (buf: Vec<u8>)
    requires
        pixels@.len() * 3 <= usize::MAX,
    ensures
        buf@.len() == 3 * pixels@.len(),
        forall|i: int|
            0 <= i < pixels@.len() ==> {
                &&& buf@[3 * i] == (#[trigger] pixels@[i]).red
                &&& buf@[3 * i + 1] == pixels@[i].green
                &&& buf@[3 * i + 2] == pixels@[i].blue
            },
{
    let mut buf: Vec<u8> = Vec::new();
    let mut i: usize = 0;
    while i < pixels.len()
        invariant
            i <= pixels@.len(),
            pixels@.len() * 3 <= usize::MAX,
            buf@.len() == 3 * i,
            forall|p: int|
                0 <= p < i ==> {
                    &&& buf@[3 * p] == (#[trigger] pixels@[p]).red
                    &&& buf@[3 * p + 1] == pixels@[p].green
                    &&& buf@[3 * p + 2] == pixels@[p].blue
                },
        decreases pixels@.len() - i,
    {
        let pix = pixels[i];
        buf.push(pix.red);
        buf.push(pix.green);
        buf.push(pix.blue);
        i = i + 1;
    }
    buf
}

} // verus!
