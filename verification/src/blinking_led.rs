//! The timing of a blinking LED: four phases, each of four intervals that
//! alternate between the light and the glass.

use rand::rngs::ThreadRng;
use rand::Rng;
use vstd::prelude::*;

verus! {

/// The shortest light interval that a random sequence holds.
pub const MIN_LIGHT_INTERVAL: u32 = 50;

/// The bound below which every light interval of a random sequence lies.
pub const MAX_LIGHT_INTERVAL: u32 = 200;

/// The shortest glass interval that a random sequence holds.
pub const MIN_GLASS_INTERVAL: u32 = 200;

/// The bound below which every glass interval of a random sequence lies.
pub const MAX_GLASS_INTERVAL: u32 = 600;

/// The number of phases in a sequence.
pub const PHASES: usize = 4;

/// `rand::rngs::ThreadRng`, the handle to the thread's random number
/// generator. Nothing is known of what it holds.
#[verifier::external_type_specification]
#[verifier::external_body]
pub struct ExThreadRng(ThreadRng);

/// `rand::rng` hands out the handle to the thread's generator. Nothing is
/// claimed of it. (The first call on a thread seeds the generator from the
/// operating system.)
pub assume_specification[ rand::rng ]() -> (rng: ThreadRng)
;

/// `Rng::random_range` on the half-open range `low..high` of `u32`: the value
/// drawn lies in the range. The range must not be empty, or the call panics.
/// Which value comes is left open.
#[verifier::external_body]
fn random_below(rng: &mut ThreadRng, low: u32, high: u32) -> (value: u32)
    requires
        low < high,
    ensures
        low <= value < high,
{
    rng.random_range(low..high)
}

/// Whether a value can stand as a light interval of a random sequence.
pub open spec fn is_light_interval(value: u32) -> bool {
    MIN_LIGHT_INTERVAL <= value < MAX_LIGHT_INTERVAL
}

/// Whether a value can stand as a glass interval of a random sequence.
pub open spec fn is_glass_interval(value: u32) -> bool {
    MIN_GLASS_INTERVAL <= value < MAX_GLASS_INTERVAL
}

/// Whether a phase is one that a random sequence can hold: a light interval,
/// a glass interval, a light interval, a glass interval.
pub open spec fn is_random_phase(phase: [u32; 4]) -> bool {
    &&& is_light_interval(phase[0])
    &&& is_glass_interval(phase[1])
    &&& is_light_interval(phase[2])
    &&& is_glass_interval(phase[3])
}

/// The phases that sixteen intervals form when they are taken four by four.
pub open spec fn grouped(intervals: Seq<u32>) -> Seq<Seq<u32>> {
    Seq::new(4, |i: int| Seq::new(4, |j: int| intervals[4 * i + j]))
}

/// The timing of a blinking LED material.
#[derive(Debug, Clone, Copy)]
pub struct BlinkingLEDMaterial {
    pub sequence: [[u32; 4]; 4],
}

impl BlinkingLEDMaterial {
    /// The phases of the sequence, each as its four intervals.
    pub open spec fn phases(self) -> Seq<Seq<u32>> {
        Seq::new(4, |i: int| self.sequence[i]@)
    }

    /// Whether every phase is one that a random sequence can hold.
    pub open spec fn is_random_sequence(self) -> bool {
        forall|i: int| 0 <= i < 4 ==> is_random_phase(#[trigger] self.sequence[i])
    }

    /// A material whose sequence is all zeros: it never blinks.
    pub fn new() -> (material: Self)
        ensures
            forall|i: int, j: int|
                0 <= i < 4 && 0 <= j < 4 ==> (#[trigger] material.phases()[i][j]) == 0,
    {
        broadcast use vstd::array::group_array_axioms;

        BlinkingLEDMaterial { sequence: [[0u32;4];4] }
    }

    /// Replaces the sequence by one drawn at random: in each phase the light
    /// intervals lie from `MIN_LIGHT_INTERVAL` up to, but not at,
    /// `MAX_LIGHT_INTERVAL`, and the glass intervals from
    /// `MIN_GLASS_INTERVAL` up to, but not at, `MAX_GLASS_INTERVAL`.
    pub fn with_random_sequence(self) -> (material: Self)
        ensures
            material.is_random_sequence(),
    {
        broadcast use vstd::array::group_array_axioms;

        let mut rng = rand::rng();
        let mut sequence = self.sequence;
        let mut i: usize = 0;
        while i < PHASES
            invariant
                i <= PHASES,
                forall|k: int| 0 <= k < i ==> is_random_phase(#[trigger] sequence[k]),
            decreases PHASES - i,
        {
            let phase = [
                random_below(&mut rng, MIN_LIGHT_INTERVAL, MAX_LIGHT_INTERVAL),
                random_below(&mut rng, MIN_GLASS_INTERVAL, MAX_GLASS_INTERVAL),
                random_below(&mut rng, MIN_LIGHT_INTERVAL, MAX_LIGHT_INTERVAL),
                random_below(&mut rng, MIN_GLASS_INTERVAL, MAX_GLASS_INTERVAL),
            ];
            sequence[i] = phase;
            i += 1;
        }
        BlinkingLEDMaterial { sequence }
    }

    /// Replaces the sequence by sixteen given intervals, taken four by four.
    pub fn with_sequence(self, sequence: [u32; 16]) -> (material: Self)
        ensures
            material.phases() == grouped(sequence@),
    {
        broadcast use vstd::array::group_array_axioms;

        let material = BlinkingLEDMaterial {
            sequence: [
                [sequence[0], sequence[1], sequence[2], sequence[3]],
                [sequence[4], sequence[5], sequence[6], sequence[7]],
                [sequence[8], sequence[9], sequence[10], sequence[11]],
                [sequence[12], sequence[13], sequence[14], sequence[15]],
            ],
        };
        assert(material.phases() =~~= grouped(sequence@));
        material
    }
}

} // verus!
