//! Pseudorandom numbers: a xoshiro128++ generator seeded through splitmix64,
//! with unbiased sampling of a range.
use vstd::prelude::*;

verus! {

/// Increment of the splitmix64 state per output.
pub const SPLITMIX64_GAMMA: u64 = 0x9e3779b97f4a7c15;

/// Most draws that one call of [`Rng::random`] makes before it accepts a
/// draw as it is.
pub const MAX_DRAWS: u32 = 64;

/// The 32-bit word `x` rotated left by `k` bits, for `0 < k < 32`.
pub open spec fn rotl32(x: u32, k: u32) -> u32 {
    (x << k) | (x >> ((32 - k) as u32))
}

/// State of splitmix64 after one more output.
pub open spec fn splitmix64_state(x: u64) -> u64 {
    vstd::wrapping::u64_specs::wrapping_add(x, SPLITMIX64_GAMMA)
}

/// Output of splitmix64 for the state `z` that the output was drawn at.
pub open spec fn splitmix64_mix(z: u64) -> u64 {
    let z1 = vstd::wrapping::u64_specs::wrapping_mul(z ^ (z >> 30), 0xbf58476d1ce4e5b9);
    let z2 = vstd::wrapping::u64_specs::wrapping_mul(z1 ^ (z1 >> 27), 0x94d049bb133111eb);
    z2 ^ (z2 >> 31)
}

/// The four state words of the generator.
pub struct RngState {
    pub s0: u32,
    pub s1: u32,
    pub s2: u32,
    pub s3: u32,
}

impl RngState {
    /// The word that the generator puts out in this state.
    pub open spec fn output(self) -> u32 {
        vstd::wrapping::u32_specs::wrapping_add(
            rotl32(vstd::wrapping::u32_specs::wrapping_add(self.s0, self.s3), 7),
            self.s0,
        )
    }

    /// The state that follows this one.
    pub open spec fn next(self) -> RngState {
        let t = self.s1 << 9;
        let s2 = self.s2 ^ self.s0;
        let s3 = self.s3 ^ self.s1;
        let s1 = self.s1 ^ s2;
        let s0 = self.s0 ^ s3;
        RngState { s0, s1, s2: s2 ^ t, s3: rotl32(s3, 11) }
    }

    /// The state that a seed expands to: two outputs of splitmix64, low word first.
    pub open spec fn from_seed(seed: u64) -> RngState {
        let x1 = splitmix64_state(seed);
        let x2 = splitmix64_state(x1);
        let mixed_lo = splitmix64_mix(x1);
        let mixed_hi = splitmix64_mix(x2);
        RngState {
            s0: (mixed_lo & 0xffffffff) as u32,
            s1: (mixed_lo >> 32) as u32,
            s2: (mixed_hi & 0xffffffff) as u32,
            s3: (mixed_hi >> 32) as u32,
        }
    }
}

/// Low 32 bits of the product of a draw and the range.
pub open spec fn low_word(x: u32, s: u32) -> u32 {
    (((x as u64 * s as u64) as u64) & 0xffffffff) as u32
}

/// High 32 bits of the product of a draw and the range: the sample.
pub open spec fn high_word(x: u32, s: u32) -> u32 {
    (((x as u64 * s as u64) as u64) >> 32) as u32
}

/// Draws whose low word is below this bound would make some samples more
/// likely than others: 2^32 modulo the range.
pub open spec fn reject_below(s: u32) -> u32
    recommends
        s > 0,
{
    (((0x1_0000_0000 - s) as int) % (s as int)) as u32
}

/// A draw is taken as it is: its low word is not in the biased part.
pub open spec fn accepts(x: u32, s: u32) -> bool {
    low_word(x, s) >= s || low_word(x, s) >= reject_below(s)
}

/// Sample of `0..s` and following state, starting in `state` with `draws`
/// draws left: the first accepted draw, or the last one allowed.
pub open spec fn sample(state: RngState, s: u32, draws: nat) -> (u32, RngState)
    decreases draws,
{
    let x = state.output();
    if draws <= 1 || s == 0 || accepts(x, s) {
        (high_word(x, s), state.next())
    } else {
        sample(state.next(), s, (draws - 1) as nat)
    }
}

/// xoshiro128++ pseudorandom number generator.
pub struct Rng {
    state: RngState,
}

impl View for Rng {
    type V = RngState;

    closed spec fn view(&self) -> RngState {
        self.state
    }
}

fn low32(m: u64) -> (r: u32)
    ensures
        r == (m & 0xffffffff) as u32,
        r == m & 0xffffffff,
{
    assert(m & 0xffffffff <= 0xffffffff) by (bit_vector);
    (m & 0xffffffff) as u32
}

fn high32(m: u64) -> (r: u32)
    ensures
        r == (m >> 32) as u32,
        r == m >> 32,
{
    assert(m >> 32 <= 0xffffffff) by (bit_vector);
    (m >> 32) as u32
}

fn mul_wide(x: u32, s: u32) -> (m: u64)
    ensures
        m == x as int * s as int,
        m == (x as u64 * s as u64) as u64,
{
    assert(x as int * s as int <= 0xffff_ffff * 0xffff_ffff) by (nonlinear_arith)
        requires
            0 <= x <= 0xffff_ffff,
            0 <= s <= 0xffff_ffff,
    ;
    assert(0 <= x as int * s as int) by (nonlinear_arith)
        requires
            0 <= x,
            0 <= s,
    ;
    x as u64 * s as u64
}

fn rotate_left(x: u32, k: u32) -> (r: u32)
    requires
        0 < k < 32,
    ensures
        r == rotl32(x, k),
{
    (x << k) | (x >> (32 - k))
}

impl Rng {
    /// A generator whose state is expanded from `seed`.
    pub fn new(seed: u64) -> (rng: Rng)
        ensures
            rng@ == RngState::from_seed(seed),
    {
        let mut seed = seed;
        let processed_1 = splitmix64_next(&mut seed);
        let processed_2 = splitmix64_next(&mut seed);
        Rng {
            state: RngState {
                s0: low32(processed_1),
                s1: high32(processed_1),
                s2: low32(processed_2),
                s3: high32(processed_2),
            },
        }
    }

    /// A generator in a given state.
    pub fn from_state(s0: u32, s1: u32, s2: u32, s3: u32) -> (rng: Rng)
        ensures
            rng@ == (RngState { s0, s1, s2, s3 }),
    {
        Rng { state: RngState { s0, s1, s2, s3 } }
    }

    /// The four words of the state.
    pub fn state(&self) -> (words: (u32, u32, u32, u32))
        ensures
            words == (self@.s0, self@.s1, self@.s2, self@.s3),
    {
        (self.state.s0, self.state.s1, self.state.s2, self.state.s3)
    }

    /// A number of `0..s`, each as likely as the others; 0 where `s` is 0.
    ///
    /// Draws words until one is accepted (Lemire's method), at most
    /// [`MAX_DRAWS`] of them.
    pub fn random(&mut self, s: u32) -> (r: u32)
        ensures
            (r, final(self)@) == sample(old(self)@, s, MAX_DRAWS as nat),
            s > 0 ==> r < s,
            s == 0 ==> r == 0,
    {
        let ghost start = self.state;
        let mut draws: u32 = MAX_DRAWS;
        let t: u32 = if s == 0 {
            0
        } else {
            proof {
                lemma_wrapping_neg(s);
            }
            (0u32.wrapping_sub(s)) % s
        };
        let mut x: u32 = 0;
        let mut accepted = false;
        while !accepted
            invariant
                1 <= draws <= MAX_DRAWS,
                s > 0 ==> t == reject_below(s),
                !accepted ==> sample(start, s, MAX_DRAWS as nat) == sample(
                    self.state,
                    s,
                    draws as nat,
                ),
                accepted ==> sample(start, s, MAX_DRAWS as nat) == (high_word(x, s), self.state),
            decreases draws + (if accepted { 0int } else { 1int }),
        {
            x = self.xoshiro128pp_next();
            let l: u32 = low32(mul_wide(x, s));
            assert(l == low_word(x, s));
            if draws <= 1 || s == 0 || l >= s || l >= t {
                accepted = true;
            } else {
                draws = draws - 1;
            }
        }
        proof {
            lemma_high_word_in_range(x, s);
        }
        high32(mul_wide(x, s))
    }

    /// The next word of the generator.
    pub fn xoshiro128pp_next(&mut self) -> (r: u32)
        ensures
            r == old(self)@.output(),
            final(self)@ == old(self)@.next(),
    {
        let result = rotate_left(self.state.s0.wrapping_add(self.state.s3), 7).wrapping_add(
            self.state.s0,
        );
        let t = self.state.s1 << 9;
        self.state.s2 = self.state.s2 ^ self.state.s0;
        self.state.s3 = self.state.s3 ^ self.state.s1;
        self.state.s1 = self.state.s1 ^ self.state.s2;
        self.state.s0 = self.state.s0 ^ self.state.s3;
        self.state.s2 = self.state.s2 ^ t;
        self.state.s3 = rotate_left(self.state.s3, 11);
        result
    }
}

/// Advances a splitmix64 state and returns the output drawn at the new state.
pub fn splitmix64_next(x: &mut u64) -> (r: u64)
    ensures
        *final(x) == splitmix64_state(*old(x)),
        r == splitmix64_mix(*final(x)),
{
    *x = x.wrapping_add(SPLITMIX64_GAMMA);
    let z = *x;
    let z = (z ^ (z >> 30)).wrapping_mul(0xbf58476d1ce4e5b9);
    let z = (z ^ (z >> 27)).wrapping_mul(0x94d049bb133111eb);
    z ^ (z >> 31)
}

proof fn lemma_wrapping_neg(s: u32)
    requires
        s > 0,
    ensures
        vstd::wrapping::u32_specs::wrapping_sub(0u32, s) == 0x1_0000_0000 - s,
{
}

/// The sample taken from a draw lies in the range.
pub proof fn lemma_high_word_in_range(x: u32, s: u32)
    ensures
        s > 0 ==> high_word(x, s) < s,
        s == 0 ==> high_word(x, s) == 0,
{
    let m: u64 = (x as u64 * s as u64) as u64;
    assert(x as u64 * s as u64 <= 0xffff_ffff * s) by (nonlinear_arith)
        requires
            x <= 0xffff_ffff,
            s >= 0,
    ;
    assert(m == x as int * s as int);
    assert(m >> 32 == m / 0x1_0000_0000) by (bit_vector);
    if s == 0 {
        assert(x as int * 0 == 0);
    }
}

/// Every sample lies in the range, however many draws it took.
pub proof fn lemma_sample_in_range(state: RngState, s: u32, draws: nat)
    ensures
        s > 0 ==> sample(state, s, draws).0 < s,
        s == 0 ==> sample(state, s, draws).0 == 0,
    decreases draws,
{
    let x = state.output();
    lemma_high_word_in_range(x, s);
    if !(draws <= 1 || s == 0 || accepts(x, s)) {
        lemma_sample_in_range(state.next(), s, (draws - 1) as nat);
    }
}

} // verus!
