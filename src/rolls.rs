//! The roll range of an identification, and where a roll lies within it.
use vstd::prelude::*;
use crate::items::{Id, Identification};

verus! {

/// `a / b` rounded to the nearest integer, halves away from zero.
pub open spec fn round_div(a: int, b: int) -> int
    recommends
        b != 0,
{
    let n = if b < 0 {
        -a
    } else {
        a
    };
    let d = if b < 0 {
        -b
    } else {
        b
    };
    if n >= 0 {
        (2 * n + d) / (2 * d)
    } else {
        -((-2 * n + d) / (2 * d))
    }
}

/// `x` brought into the range of `i32`, as a float-to-integer cast does.
pub open spec fn saturate(x: int) -> int {
    if x > i32::MAX {
        i32::MAX as int
    } else if x < i32::MIN {
        i32::MIN as int
    } else {
        x
    }
}

/// Whether a roll cannot vary: the catalogue marks it fixed, or its base
/// value is -1, 0 or 1.
pub open spec fn effectively_fixed(fixed: bool, base: int) -> bool {
    fixed || (-1 <= base && base <= 1)
}

/// The lowest roll: the base itself when fixed; else 130% of a base below 1
/// and 30% of a base above, rounded.
pub open spec fn min_roll(fixed: bool, base: int) -> int {
    if effectively_fixed(fixed, base) {
        base
    } else if base < 1 {
        saturate(round_div(base * 13, 10))
    } else {
        saturate(round_div(base * 3, 10))
    }
}

/// The highest roll: the base itself when fixed; else 70% of a base below 1
/// and 130% of a base above, rounded.
pub open spec fn max_roll(fixed: bool, base: int) -> int {
    if effectively_fixed(fixed, base) {
        base
    } else if base < 1 {
        saturate(round_div(base * 7, 10))
    } else {
        saturate(round_div(base * 13, 10))
    }
}

/// `a / b` rounded to the nearest integer, halves away from zero.
pub(crate) fn rounded_div(a: i64, b: i64) -> (r: i64)
    requires
        b != 0,
        -0x1_0000_0000_0000 <= a <= 0x1_0000_0000_0000,
        -0x1_0000_0000_0000 <= b <= 0x1_0000_0000_0000,
    ensures
        r == round_div(a as int, b as int),
{
    let n: i64 = if b < 0 {
        -a
    } else {
        a
    };
    let d: i64 = if b < 0 {
        -b
    } else {
        b
    };
    if n >= 0 {
        (2 * n + d) / (2 * d)
    } else {
        let m: i64 = -n;
        -((2 * m + d) / (2 * d))
    }
}

fn saturate_i32(x: i64) -> (r: i32)
    ensures
        r == saturate(x as int),
{
    if x > i32::MAX as i64 {
        i32::MAX
    } else if x < i32::MIN as i64 {
        i32::MIN
    } else {
        x as i32
    }
}

impl Id {
    /// Whether this identification's roll cannot vary.
    pub open spec fn is_fixed_spec(&self) -> bool {
        effectively_fixed(self.fixed, self.baseval as int)
    }

    pub open spec fn min_spec(&self) -> int {
        min_roll(self.fixed, self.baseval as int)
    }

    pub open spec fn max_spec(&self) -> int {
        max_roll(self.fixed, self.baseval as int)
    }

    /// Whether this identification's roll cannot vary: the catalogue marks
    /// it fixed, or its base value is -1, 0 or 1.
    pub fn is_effectively_fixed(&self) -> (r: bool)
        ensures
            r == self.is_fixed_spec(),
    {
        self.fixed || (-1 <= self.baseval && self.baseval <= 1)
    }

    /// The highest value this identification can roll.
    pub fn max_id(&self) -> (r: i32)
        ensures
            r == self.max_spec(),
    {
        let b = self.baseval as i64;
        if self.is_effectively_fixed() {
            self.baseval
        } else if self.baseval < 1 {
            saturate_i32(rounded_div(b * 7, 10))
        } else {
            saturate_i32(rounded_div(b * 13, 10))
        }
    }

    /// The lowest value this identification can roll.
    pub fn min_id(&self) -> (r: i32)
        ensures
            r == self.min_spec(),
    {
        let b = self.baseval as i64;
        if self.is_effectively_fixed() {
            self.baseval
        } else if self.baseval < 1 {
            saturate_i32(rounded_div(b * 13, 10))
        } else {
            saturate_i32(rounded_div(b * 3, 10))
        }
    }
}


/// The range of a roll that can vary holds its base and is never empty:
/// below 1 it spans 130% to 70% of the base, above 1 30% to 130%.
proof fn lemma_range_around_base(base: int)
    requires
        !effectively_fixed(false, base),
        i32::MIN <= base <= i32::MAX,
    ensures
        min_roll(false, base) <= base <= max_roll(false, base),
        min_roll(false, base) < max_roll(false, base),
{
    if base < 1 {
        let c = -base;
        assert(round_div(base * 13, 10) == -((26 * c + 10) / 20));
        assert(round_div(base * 7, 10) == -((14 * c + 10) / 20));
        assert((26 * c + 10) / 20 > c);
        assert((14 * c + 10) / 20 < c);
    } else {
        assert(round_div(base * 3, 10) == (6 * base + 10) / 20);
        assert(round_div(base * 13, 10) == (26 * base + 10) / 20);
        assert((6 * base + 10) / 20 < base);
        assert((26 * base + 10) / 20 > base);
    }
}

/// For every identification whose roll can vary, its lowest roll is at most
/// its base value and its highest roll at least its base value.
pub proof fn base_within_roll_range(id: Id)
    requires
        !id.is_fixed_spec(),
    ensures
        id.min_spec() <= id.baseval <= id.max_spec(),
{
    lemma_range_around_base(id.baseval as int);
}

/// For every identification whose roll cannot vary, its lowest and highest
/// rolls both equal its base value.
pub proof fn fixed_range_is_base(id: Id)
    requires
        id.is_fixed_spec(),
    ensures
        id.min_spec() == id.baseval,
        id.max_spec() == id.baseval,
{
}

/// Whether `key` is one of the keys in `inverted`.
pub open spec fn is_inverted(inverted: Seq<Identification>, key: Identification) -> bool {
    exists|i: int| 0 <= i < inverted.len() && (#[trigger] inverted[i]).0@ == key.0@
}

/// The width of a roll range, the denominator of a percentage.
pub open spec fn percent_den(id: Id) -> int {
    id.max_spec() - id.min_spec()
}

/// The numerator of the percentage of `value` within the range of `id`:
/// `100 * (value - min)` over the width, or 100 minus that when lower is better.
pub open spec fn percent_num(id: Id, inverted: bool, value: int) -> int {
    let raw = 100 * (value - id.min_spec());
    if inverted {
        100 * percent_den(id) - raw
    } else {
        raw
    }
}

/// A percentage held exactly, as `num / den` percent.
#[derive(Clone, Copy, PartialEq, Eq, Structural, Debug)]
pub struct Percent {
    pub num: i64,
    pub den: i64,
}

/// Where `value` lies in the roll range of `id`, in percent: 0 at its lowest
/// roll and 100 at its highest, reversed for keys in `inverted`. The range of
/// a roll that can vary is never empty.
pub fn get_percent(value: i32, id: &Id, inverted: &Vec<Identification>) -> (r: Percent)
    requires
        !id.is_fixed_spec(),
    ensures
        r.den == percent_den(*id),
        r.den > 0,
        r.num == percent_num(*id, is_inverted(inverted@, id.id), value as int),
{
    proof {
        lemma_range_around_base(id.baseval as int);
    }
    let min = id.min_id() as i64;
    let max = id.max_id() as i64;
    let den = max - min;
    let raw = 100 * (value as i64 - min);
    let num = if contains_key(inverted, &id.id) {
        100 * den - raw
    } else {
        raw
    };
    Percent { num, den }
}

/// Whether `key` is one of the keys in `keys`.
pub fn contains_key(keys: &Vec<Identification>, key: &Identification) -> (r: bool)
    ensures
        r == is_inverted(keys@, *key),
{
    let mut i: usize = 0;
    while i < keys.len()
        invariant
            i <= keys@.len(),
            forall|j: int| 0 <= j < i ==> (#[trigger] keys@[j]).0@ != key.0@,
        decreases keys.len() - i,
    {
        if keys[i].0 == key.0 {
            return true;
        }
        i = i + 1;
    }
    false
}

/// For every identification whose roll can vary, the percentage never falls
/// as the roll grows (never rises, for keys where lower is better), and it
/// lies between 0 and 100 for every roll within the range.
pub proof fn percent_monotone_and_bounded(
    id: Id,
    inverted: Seq<Identification>,
    v1: i32,
    v2: i32,
)
    requires
        !id.is_fixed_spec(),
    ensures
        percent_den(id) > 0,
        v1 <= v2 && !is_inverted(inverted, id.id) ==> percent_num(id, false, v1 as int)
            <= percent_num(id, false, v2 as int),
        v1 <= v2 && is_inverted(inverted, id.id) ==> percent_num(id, true, v1 as int)
            >= percent_num(id, true, v2 as int),
        id.min_spec() <= v1 <= id.max_spec() ==> 0 <= percent_num(
            id,
            is_inverted(inverted, id.id),
            v1 as int,
        ) <= 100 * percent_den(id),
{
    lemma_range_around_base(id.baseval as int);
}

} // verus!
