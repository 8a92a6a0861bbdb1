//! Procedural placement of the background crowd: randomized but bounded
//! positions for the jury and audience, and weighted-random appearance
//! variants drawn through the monochrome substitution table.
//!
//! Randomness comes from `rand`'s thread-local generator behind one trusted
//! wrapper; everything stated here holds of every outcome the generator can
//! produce.

use rand::Rng;
use vstd::prelude::*;

use crate::enums::PersonType;
use crate::enums::is_colored_only;
use crate::enums::lemma_monochrome_substitution;
use crate::enums::person_for_roll;
use crate::enums::spec_person_for_roll;

verus! {

#[verifier::external_type_specification]
#[verifier::external_body]
pub struct ExThreadRng(rand::rngs::ThreadRng);

/// Relies on rand's `Rng::gen_range` over the inclusive integer range
/// `lo..=hi`: the sample always lies within the range. The range must be
/// non-empty, as `gen_range` panics on an empty one.
#[verifier::external_body]
fn rand_in_range(rng: &mut rand::rngs::ThreadRng, lo: i32, hi: i32) -> (r: i32)
    requires
        lo <= hi,
    ensures
        lo <= r <= hi,
{
    rng.gen_range(lo..=hi)
}

/// One background actor: a pixel position and an appearance, immutable once
/// placed for the scene's duration.
#[derive(Clone, Copy, Debug, PartialEq, Eq, Structural)]
pub struct PlacedActor {
    pub x: i32,
    pub y: i32,
    pub kind: PersonType,
}

/// True of the appearances that a uniform roll in `1..=15` can produce in
/// the given color context. No such appearance is a texture-key placeholder.
pub open spec fn sampled_appearance(p: PersonType, colored: bool) -> bool {
    exists|roll: int| 1 <= roll <= 15 && p == spec_person_for_roll(roll, colored)
}

/// What holds of every generated jury member: position within the jury box,
/// a monochrome-sampled appearance, and a drawable (non-placeholder) kind.
pub open spec fn jury_placed(a: PlacedActor) -> bool {
    &&& 48 <= a.x <= 156
    &&& 48 <= a.y <= 96
    &&& sampled_appearance(a.kind, false)
    &&& !a.kind.is_placeholder()
}

/// What holds of every generated audience member: position within the
/// audience box, a colored-sampled appearance, and a drawable kind.
pub open spec fn audience_placed(a: PlacedActor) -> bool {
    &&& 48 <= a.x <= 550
    &&& 260 <= a.y <= 540
    &&& sampled_appearance(a.kind, true)
    &&& !a.kind.is_placeholder()
}

/// Draws a uniform roll in `1..=15` and maps it through the appearance
/// table. A non-colored sample never shows a colored-only appearance, and no
/// sample is ever a texture-key placeholder.
pub fn rand_person(rng: &mut rand::rngs::ThreadRng, colored: bool) -> (r: PersonType)
    ensures
        sampled_appearance(r, colored),
        !r.is_placeholder(),
        !colored ==> !is_colored_only(r),
{
    let roll = rand_in_range(rng, 1, 15);
    let r = person_for_roll(roll, colored);
    proof {
        lemma_monochrome_substitution(roll as int, colored);
        assert(1 <= roll as int <= 15 && r == spec_person_for_roll(roll as int, colored));
    }
    r
}

/// Generates the twelve jury members, each positioned uniformly within
/// `x in [48, 156]`, `y in [48, 96]` with a monochrome appearance.
pub fn sample_jury(rng: &mut rand::rngs::ThreadRng) -> (r: Vec<PlacedActor>)
    ensures
        r@.len() == 12,
        forall|i: int| 0 <= i < r@.len() ==> jury_placed(#[trigger] r@[i]),
{
    let mut actors: Vec<PlacedActor> = Vec::new();
    let mut k: usize = 0;
    while k < 12
        invariant
            k <= 12,
            actors@.len() == k,
            forall|i: int| 0 <= i < actors@.len() ==> jury_placed(#[trigger] actors@[i]),
        decreases 12 - k,
    {
        let x = rand_in_range(rng, 48, 156);
        let y = rand_in_range(rng, 48, 96);
        let kind = rand_person(rng, false);
        actors.push(PlacedActor { x, y, kind });
        k += 1;
    }
    actors
}

/// Generates the hundred audience members, each positioned uniformly within
/// `x in [48, 550]`, `y in [260, 540]` with a colored appearance.
pub fn sample_audience(rng: &mut rand::rngs::ThreadRng) -> (r: Vec<PlacedActor>)
    ensures
        r@.len() == 100,
        forall|i: int| 0 <= i < r@.len() ==> audience_placed(#[trigger] r@[i]),
{
    let mut actors: Vec<PlacedActor> = Vec::new();
    let mut k: usize = 0;
    while k < 100
        invariant
            k <= 100,
            actors@.len() == k,
            forall|i: int| 0 <= i < actors@.len() ==> audience_placed(#[trigger] actors@[i]),
        decreases 100 - k,
    {
        let x = rand_in_range(rng, 48, 550);
        let y = rand_in_range(rng, 260, 540);
        let kind = rand_person(rng, true);
        actors.push(PlacedActor { x, y, kind });
        k += 1;
    }
    actors
}

} // verus!
