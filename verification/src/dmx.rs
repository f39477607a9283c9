//! The DMX universe store that every input writes and every output reads,
//! and the parameters that the pixel effects take from DMX.

use vstd::prelude::*;

use crate::{DMX_CHANNELS, MAX_UNIVERSES};

verus! {

/// Effect parameters driven over DMX.
#[derive(Clone, Copy, PartialEq, Eq, Debug)]
pub struct DmxParams {
    pub r: u8,
    pub g: u8,
    pub b: u8,
    pub base_effect_id: u8,
    pub top_effect_id: u8,
    pub speed: u8,
}

impl Default for DmxParams {
    /// White, base effect 1 (4th July wheel), no top effect, speed 5.
    fn default() -> (p: Self)
        ensures
            p == (DmxParams { r: 255, g: 255, b: 255, base_effect_id: 1, top_effect_id: 0, speed: 5 }),
    {
        DmxParams { r: 255, g: 255, b: 255, base_effect_id: 1, top_effect_id: 0, speed: 5 }
    }
}

/// Every stored universe, 0-based rows of 0-based channels: config universe
/// `N` channel `C` lives at `[N - 1][C - 1]`.
pub type DmxMatrix = [[u8; DMX_CHANNELS]; MAX_UNIVERSES];

/// A matrix with every channel at 0.
pub fn new_matrix() -> (m: DmxMatrix)
    ensures
        forall|u: int, c: int| 0 <= u < MAX_UNIVERSES && 0 <= c < DMX_CHANNELS ==> m[u][c] == 0,
{
    [[0u8; DMX_CHANNELS]; MAX_UNIVERSES]
}

/// Value of 1-based `channel` in 1-based `universe`; anything outside the
/// stored universes and channels reads as 0.
pub open spec fn channel_value(m: DmxMatrix, universe: int, channel: int) -> u8 {
    if 1 <= universe <= MAX_UNIVERSES && 1 <= channel <= DMX_CHANNELS {
        m[universe - 1][channel - 1]
    } else {
        0
    }
}

/// The `k`-th value `read_channels` returns: a request that starts outside
/// 1..=512 reads all zeros, and the tail past channel 512 reads as 0.
pub open spec fn read_value(m: DmxMatrix, universe: int, start_channel: int, k: int) -> u8 {
    if 1 <= start_channel <= DMX_CHANNELS {
        channel_value(m, universe, start_channel + k)
    } else {
        0
    }
}

/// Reads `N` consecutive channels starting at `start_channel`. Both
/// `universe` (1..=MAX_UNIVERSES) and `start_channel` (1..=512) are 1-based;
/// out-of-range requests, and any tail past channel 512, read as 0.
pub fn read_channels<const N: usize>(matrix: &DmxMatrix, universe: usize, start_channel: usize) -> (r: [u8; N])
    ensures
        forall|k: int| 0 <= k < N ==> r[k] == read_value(*matrix, universe as int, start_channel as int, k),
{
    let mut dest = [0u8; N];
    if 1 <= universe && universe <= MAX_UNIVERSES && 1 <= start_channel && start_channel <= DMX_CHANNELS {
        let row = universe - 1;
        let start = start_channel - 1;
        let mut k: usize = 0;
        while k < N && k < DMX_CHANNELS - start
            invariant
                k <= N,
                start + k <= DMX_CHANNELS,
                row < MAX_UNIVERSES,
                row == universe - 1,
                start == start_channel - 1,
                1 <= start_channel <= DMX_CHANNELS,
                1 <= universe <= MAX_UNIVERSES,
                forall|j: int| 0 <= j < k ==> dest[j] == read_value(*matrix, universe as int, start_channel as int, j),
                forall|j: int| k <= j < N ==> dest[j] == 0,
            decreases N - k,
        {
            dest[k] = matrix[row][start + k];
            k = k + 1;
        }
    }
    dest
}

/// Row `row` after its first `data.len()` channels are overwritten by `data`;
/// the other channels keep their values.
pub open spec fn row_after_write(old_row: [u8; DMX_CHANNELS], data: Seq<u8>, c: int) -> u8 {
    if c < data.len() {
        data[c]
    } else {
        old_row[c]
    }
}

/// Copies `data` into the first `data.len()` channels of 0-based `row`;
/// every other channel of the matrix is unchanged.
pub fn write_channels(matrix: &mut DmxMatrix, row: usize, data: &[u8])
    requires
        row < MAX_UNIVERSES,
        data.len() <= DMX_CHANNELS,
    ensures
        forall|u: int, c: int|
            0 <= u < MAX_UNIVERSES && 0 <= c < DMX_CHANNELS ==> final(matrix)[u][c] == if u == row {
                row_after_write(old(matrix)[u], data@, c)
            } else {
                old(matrix)[u][c]
            },
{
    let mut k: usize = 0;
    while k < data.len()
        invariant
            row < MAX_UNIVERSES,
            data.len() <= DMX_CHANNELS,
            k <= data.len(),
            forall|u: int, c: int|
                0 <= u < MAX_UNIVERSES && 0 <= c < DMX_CHANNELS ==> matrix[u][c] == if u == row && c
                    < k {
                    data@[c]
                } else {
                    old(matrix)[u][c]
                },
        decreases data.len() - k,
    {
        matrix[row][k] = data[k];
        k = k + 1;
    }
}

/// Sets every channel of 0-based `row` to 0; other rows are unchanged.
pub fn clear_row(matrix: &mut DmxMatrix, row: usize)
    requires
        row < MAX_UNIVERSES,
    ensures
        forall|u: int, c: int|
            0 <= u < MAX_UNIVERSES && 0 <= c < DMX_CHANNELS ==> final(matrix)[u][c] == if u == row {
                0
            } else {
                old(matrix)[u][c]
            },
{
    let mut k: usize = 0;
    while k < DMX_CHANNELS
        invariant
            row < MAX_UNIVERSES,
            k <= DMX_CHANNELS,
            forall|u: int, c: int|
                0 <= u < MAX_UNIVERSES && 0 <= c < DMX_CHANNELS ==> matrix[u][c] == if u == row && c
                    < k {
                    0
                } else {
                    old(matrix)[u][c]
                },
        decreases DMX_CHANNELS - k,
    {
        matrix[row][k] = 0;
        k = k + 1;
    }
}

/// Reading back what was written: after `data` is written to row
/// `universe - 1`, reading `N` channels of that universe from channel `start`
/// gives `data[start - 1 + k]` for every position inside `data`, and the old
/// value of the channel for every position past it.
pub proof fn lemma_read_after_write(
    before: DmxMatrix,
    after: DmxMatrix,
    universe: int,
    data: Seq<u8>,
    start: int,
    k: int,
)
    requires
        1 <= universe <= MAX_UNIVERSES,
        data.len() <= DMX_CHANNELS,
        1 <= start <= DMX_CHANNELS,
        0 <= k,
        forall|u: int, c: int|
            0 <= u < MAX_UNIVERSES && 0 <= c < DMX_CHANNELS ==> after[u][c] == if u == universe
                - 1 {
                row_after_write(before[u], data, c)
            } else {
                before[u][c]
            },
    ensures
        start - 1 + k < data.len() ==> read_value(after, universe, start, k) == data[start - 1 + k],
        start - 1 + k >= data.len() ==> read_value(after, universe, start, k) == read_value(
            before,
            universe,
            start,
            k,
        ),
{
}

} // verus!

verus! {

/// Row contents after the row is replaced by `data`: the channels past
/// `data` read as 0.
pub open spec fn row_after_replace(data: Seq<u8>, c: int) -> u8 {
    if c < data.len() {
        data[c]
    } else {
        0
    }
}

/// Replaces 0-based `row` by `data`, clearing the channels past it so a
/// shorter frame leaves no stale values; other rows are unchanged.
pub fn replace_row(matrix: &mut DmxMatrix, row: usize, data: &[u8])
    requires
        row < MAX_UNIVERSES,
        data.len() <= DMX_CHANNELS,
    ensures
        forall|u: int, c: int|
            0 <= u < MAX_UNIVERSES && 0 <= c < DMX_CHANNELS ==> final(matrix)[u][c] == if u == row {
                row_after_replace(data@, c)
            } else {
                old(matrix)[u][c]
            },
{
    let mut k: usize = 0;
    while k < DMX_CHANNELS
        invariant
            row < MAX_UNIVERSES,
            data.len() <= DMX_CHANNELS,
            k <= DMX_CHANNELS,
            forall|u: int, c: int|
                0 <= u < MAX_UNIVERSES && 0 <= c < DMX_CHANNELS ==> matrix[u][c] == if u == row && c
                    < k {
                    row_after_replace(data@, c)
                } else {
                    old(matrix)[u][c]
                },
        decreases DMX_CHANNELS - k,
    {
        let v = if k < data.len() {
            data[k]
        } else {
            0
        };
        matrix[row][k] = v;
        k = k + 1;
    }
}

} // verus!

verus! {

/// Requests outside the stored universes, or starting outside channels
/// 1..=512, read as 0; so does any position past channel 512.
pub proof fn lemma_out_of_range_reads_zero(m: DmxMatrix, universe: int, start: int, k: int)
    requires
        0 <= k,
        universe < 1 || universe > MAX_UNIVERSES || start < 1 || start > DMX_CHANNELS || start + k
            > DMX_CHANNELS,
    ensures
        read_value(m, universe, start, k) == 0,
{
}

/// Reading back a replaced universe: the replacing data where it reaches,
/// 0 past its end.
pub proof fn lemma_read_after_replace(
    after: DmxMatrix,
    universe: int,
    data: Seq<u8>,
    start: int,
    k: int,
)
    requires
        1 <= universe <= MAX_UNIVERSES,
        data.len() <= DMX_CHANNELS,
        1 <= start <= DMX_CHANNELS,
        0 <= k,
        forall|c: int| 0 <= c < DMX_CHANNELS ==> after[universe - 1][c] == row_after_replace(data, c),
    ensures
        read_value(after, universe, start, k) == if start - 1 + k < data.len() {
            data[start - 1 + k]
        } else {
            0
        },
{
    if start + k <= DMX_CHANNELS {
        assert(after[universe - 1][start - 1 + k] == row_after_replace(data, start - 1 + k));
    }
}

} // verus!
