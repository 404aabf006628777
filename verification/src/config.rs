//! Decoder-configuration selection and surface-size alignment.

use vstd::prelude::*;
use vstd::arithmetic::div_mod::lemma_fundamental_div_mod;
use vstd::arithmetic::div_mod::lemma_mod_multiples_basic;

verus! {

/// Hardware decode surfaces are tile-aligned; this is the assumed tile
/// granularity in pixels.  A heuristic, kept as a named constant.
pub const TILE_GRANULARITY: u32 = 128;

/// Number of decode-target surfaces allocated per probed triple.  A fixed
/// heuristic sufficient for construction-only testing, not derived from any
/// codec's buffering requirements.
pub const SURFACE_POOL_COUNT: u32 = 20;

/// One decoder configuration, as the decode service enumerates them; the
/// probing policy reads only its raw-bitstream mode.
#[derive(Clone, Copy, PartialEq, Eq, Structural, Debug)]
pub struct DecoderConfig {
    /// Raw-bitstream acceptance mode; 1 and 2 mean the driver accepts
    /// unparsed or minimally-parsed bitstream.
    pub bitstream_raw_mode: u32,
}

/// A configuration is usable when its raw-bitstream mode is 1 or 2, the
/// common and most permissive modes.
pub open spec fn accepts_raw_bitstream(c: DecoderConfig) -> bool {
    c.bitstream_raw_mode == 1 || c.bitstream_raw_mode == 2
}

/// Rounds `num` up to the next multiple of `mult`: the result is the least
/// multiple of `mult` that is at least `num`.
pub fn round_up_to_multiple_of(num: u32, mult: u32) -> (r: u32)
    requires
        1 <= mult,
        num + mult - 1 <= u32::MAX,
    ensures
        r % mult == 0,
        num <= r,
        r < num + mult,
{
    let q = (num + (mult - 1)) / mult;
    proof {
        let n = num as int;
        let m = mult as int;
        lemma_fundamental_div_mod(n + m - 1, m);
        lemma_mod_multiples_basic((n + m - 1) / m, m);
        assert(m * ((n + m - 1) / m) == ((n + m - 1) / m) * m) by (nonlinear_arith);
    }
    q * mult
}

/// Rounds a requested sample size up to the tile-aligned surface size used
/// for the decode-target pool.  Each dimension becomes the least multiple of
/// `TILE_GRANULARITY` that is at least the requested dimension.
pub fn surface_dimensions(width: u32, height: u32) -> (r: (u32, u32))
    requires
        width + TILE_GRANULARITY - 1 <= u32::MAX,
        height + TILE_GRANULARITY - 1 <= u32::MAX,
    ensures
        r.0 % TILE_GRANULARITY == 0,
        width <= r.0 < width + TILE_GRANULARITY,
        r.1 % TILE_GRANULARITY == 0,
        height <= r.1 < height + TILE_GRANULARITY,
{
    (
        round_up_to_multiple_of(width, TILE_GRANULARITY),
        round_up_to_multiple_of(height, TILE_GRANULARITY),
    )
}

/// Selects the decoder configuration to use: among the enumerated
/// configurations, the last one whose raw-bitstream mode is usable wins; if
/// none qualifies, no configuration is selected.
pub fn select_configuration(configs: &Vec<DecoderConfig>) -> (r: Option<usize>)
    ensures
        r matches Some(i) ==> i < configs@.len() && accepts_raw_bitstream(configs@[i as int])
            && (forall|j: int|
                i < j < configs@.len() ==> !accepts_raw_bitstream(#[trigger] configs@[j])),
        r is None ==> forall|j: int|
            0 <= j < configs@.len() ==> !accepts_raw_bitstream(#[trigger] configs@[j]),
{
    let mut best: Option<usize> = None;
    let mut i: usize = 0;
    while i < configs.len()
        invariant
            i <= configs@.len(),
            best matches Some(b) ==> b < i && accepts_raw_bitstream(configs@[b as int])
                && (forall|j: int|
                    b < j < i ==> !accepts_raw_bitstream(#[trigger] configs@[j])),
            best is None ==> forall|j: int|
                0 <= j < i ==> !accepts_raw_bitstream(#[trigger] configs@[j]),
        decreases configs@.len() - i,
    {
        let c = configs[i];
        if c.bitstream_raw_mode == 1 || c.bitstream_raw_mode == 2 {
            best = Some(i);
        }
        i += 1;
    }
    best
}

} // verus!
