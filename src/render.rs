//! What the item preview shows for an item and its identifications: colour
//! classes, unit suffixes, signed numbers and the grouping of identifications.
use vstd::prelude::*;
use crate::items::{range_ends, Identification, Powders, Rarity, StatusType, WynntilsRange};
use crate::rolls::Percent;
use crate::text::{decimal, i32_to_string};

verus! {

impl Rarity {
    /// The colour class an item of this rarity is shown in.
    pub open spec fn color_spec(self) -> Seq<char> {
        match self {
            Rarity::COMMON => "mc-white"@,
            Rarity::UNIQUE => "mc-yellow"@,
            Rarity::RARE => "mc-light-purple"@,
            Rarity::LEGENDARY => "mc-aqua"@,
            Rarity::FABLED => "mc-red"@,
            Rarity::MYTHIC => "mc-purple"@,
            Rarity::SET => "mc-green"@,
            Rarity::INVALID => "mc-white"@,
        }
    }

    /// The colour class an item of this rarity is shown in.
    pub fn color_class(&self) -> (r: &'static str)
        ensures
            r@ == self.color_spec(),
    {
        match self {
            Rarity::COMMON => "mc-white",
            Rarity::UNIQUE => "mc-yellow",
            Rarity::RARE => "mc-light-purple",
            Rarity::LEGENDARY => "mc-aqua",
            Rarity::FABLED => "mc-red",
            Rarity::MYTHIC => "mc-purple",
            Rarity::SET => "mc-green",
            Rarity::INVALID => "mc-white",
        }
    }
}

impl StatusType {
    /// The unit written after a value of this type.
    pub open spec fn suffix_spec(self) -> Seq<char> {
        match self {
            StatusType::PERCENTAGE => "%"@,
            StatusType::INTEGER => ""@,
            StatusType::TIER => ""@,
            StatusType::FOUR_SECONDS => "/4s"@,
            StatusType::THREE_SECONDS => "/3s"@,
        }
    }

    /// The unit written after a value of this type.
    pub fn suffix(&self) -> (r: &'static str)
        ensures
            r@ == self.suffix_spec(),
    {
        match self {
            StatusType::PERCENTAGE => "%",
            StatusType::INTEGER => "",
            StatusType::TIER => "",
            StatusType::FOUR_SECONDS => "/4s",
            StatusType::THREE_SECONDS => "/3s",
        }
    }
}

impl Powders {
    /// The colour class of this element.
    pub open spec fn color_spec(self) -> Seq<char> {
        match self {
            Powders::EARTH => "mc-dark-green"@,
            Powders::THUNDER => "mc-yellow"@,
            Powders::WATER => "mc-aqua"@,
            Powders::FIRE => "mc-red"@,
            Powders::AIR => "mc-white"@,
        }
    }

    /// The colour class of this element.
    pub fn color_class(self) -> (r: &'static str)
        ensures
            r@ == self.color_spec(),
    {
        match self {
            Powders::EARTH => "mc-dark-green",
            Powders::THUNDER => "mc-yellow",
            Powders::WATER => "mc-aqua",
            Powders::FIRE => "mc-red",
            Powders::AIR => "mc-white",
        }
    }

    /// The symbol of this element.
    pub open spec fn symbol_spec(self) -> Seq<char> {
        match self {
            Powders::EARTH => "\u{2724}"@,
            Powders::THUNDER => "\u{2726}"@,
            Powders::WATER => "\u{273D}"@,
            Powders::FIRE => "\u{2739}"@,
            Powders::AIR => "\u{274B}"@,
        }
    }

    /// The symbol of this element.
    pub fn symbol(self) -> (r: &'static str)
        ensures
            r@ == self.symbol_spec(),
    {
        match self {
            Powders::EARTH => "\u{2724}",
            Powders::THUNDER => "\u{2726}",
            Powders::WATER => "\u{273D}",
            Powders::FIRE => "\u{2739}",
            Powders::AIR => "\u{274B}",
        }
    }
}

/// Whether a value counts as good: not negative, or not positive where
/// lower is better.
pub open spec fn is_good_value(value: int, inverted: bool) -> bool {
    if inverted {
        value <= 0
    } else {
        value >= 0
    }
}

/// The colour class of a value: green when good, red otherwise.
pub fn value_color(value: i32, inverted: bool) -> (r: &'static str)
    ensures
        r@ == if is_good_value(value as int, inverted) {
            "mc-green"@
        } else {
            "mc-red"@
        },
{
    if !inverted {
        if value >= 0 {
            "mc-green"
        } else {
            "mc-red"
        }
    } else {
        if value <= 0 {
            "mc-green"
        } else {
            "mc-red"
        }
    }
}

/// The colour class of a percentage with a positive denominator: red below
/// 30, yellow below 80, green below 97, aqua from 97 on.
pub open spec fn percent_color_spec(num: int, den: int) -> Seq<char> {
    if num < 30 * den {
        "mc-red"@
    } else if num < 80 * den {
        "mc-yellow"@
    } else if num < 97 * den {
        "mc-green"@
    } else {
        "mc-aqua"@
    }
}

/// The colour class of a percentage: red below 30, yellow below 80, green
/// below 97, aqua from 97 on.
pub fn percent_color(p: &Percent) -> (r: &'static str)
    requires
        p.den > 0,
        p.den <= 0x1_0000_0000_0000,
    ensures
        r@ == percent_color_spec(p.num as int, p.den as int),
{
    if p.num < 30 * p.den {
        "mc-red"
    } else if p.num < 80 * p.den {
        "mc-yellow"
    } else if p.num < 97 * p.den {
        "mc-green"
    } else {
        "mc-aqua"
    }
}

/// A number in decimal, with a `+` before a positive one.
pub open spec fn signed_text(num: int) -> Seq<char> {
    if num > 0 {
        seq!['+'] + decimal(num)
    } else {
        decimal(num)
    }
}

/// A number in decimal, with a `+` before a positive one.
pub fn formatnum(num: i32) -> (r: String)
    ensures
        r@ == signed_text(num as int),
{
    let digits = i32_to_string(num);
    if num > 0 {
        let mut s = String::from_str("+");
        s.append(digits.as_str());
        proof {
            reveal_strlit("+");
        }
        s
    } else {
        digits
    }
}

/// The position of `key` in `order`: its first entry's, or 0 when it has none.
pub open spec fn position_spec(order: Seq<(Identification, i32)>, key: Identification) -> i32
    decreases order.len(),
{
    if order.len() == 0 {
        0
    } else if order[0].0.0@ == key.0@ {
        order[0].1
    } else {
        position_spec(order.drop_first(), key)
    }
}

/// The position of `key` in `order`, or 0 when it has none.
pub fn position_of(order: &Vec<(Identification, i32)>, key: &Identification) -> (r: i32)
    ensures
        r == position_spec(order@, *key),
{
    let mut i: usize = 0;
    proof {
        assert(order@.skip(0) == order@);
    }
    while i < order.len()
        invariant
            i <= order@.len(),
            position_spec(order@, *key) == position_spec(order@.skip(i as int), *key),
        decreases order.len() - i,
    {
        proof {
            assert(order@.skip(i as int).drop_first() == order@.skip(i + 1));
        }
        if order[i].0.0 == key.0 {
            return order[i].1;
        }
        i = i + 1;
    }
    0
}

/// The group an identification at `pos` belongs to: the last of `groups`
/// whose range holds `pos`, or `last` when none does.
pub open spec fn group_after(groups: Seq<WynntilsRange>, pos: int, last: Option<(i32, i32)>) -> Option<
    (i32, i32),
>
    decreases groups.len(),
{
    if groups.len() == 0 {
        last
    } else {
        let ends = range_ends(groups.last().0@);
        if ends.0 <= pos && pos <= ends.1 {
            Some(ends)
        } else {
            group_after(groups.drop_last(), pos, last)
        }
    }
}

/// The group of an identification at `pos`, given the group of the one
/// shown before it (`last`): the last of `groups` whose range holds `pos`,
/// or `last` when none does.
pub fn next_group(groups: &Vec<WynntilsRange>, pos: i32, last: Option<(i32, i32)>) -> (r: Option<
    (i32, i32),
>)
    ensures
        r == group_after(groups@, pos as int, last),
{
    let mut cur = last;
    let mut i: usize = 0;
    while i < groups.len()
        invariant
            i <= groups@.len(),
            cur == group_after(groups@.take(i as int), pos as int, last),
        decreases groups.len() - i,
    {
        let (a, b) = groups[i].ends();
        proof {
            assert(groups@.take(i + 1).drop_last() == groups@.take(i as int));
        }
        if a <= pos && pos <= b {
            cur = Some((a, b));
        }
        i = i + 1;
    }
    proof {
        assert(groups@.take(groups@.len() as int) == groups@);
    }
    cur
}

/// Whether an identification at `pos` starts a new group: the one before
/// it had a group, and that group's range does not hold `pos`.
pub fn starts_new_group(last: Option<(i32, i32)>, pos: i32) -> (r: bool)
    ensures
        r == match last {
            Some((a, b)) => !(a <= pos && pos <= b),
            None => false,
        },
{
    match last {
        Some((a, b)) => !(a <= pos && pos <= b),
        None => false,
    }
}

} // verus!
