//! The item catalogue's types, and the identifications of one selected item.
use vstd::prelude::*;
use core::ops::RangeInclusive;
use crate::text::{
    ascii_upper, char_is_upper, first_index_of, is_upper, lower_of, parse_i32, parse_i32_str,
    push_char, split_once_char, to_ascii_upper, to_lower,
};

verus! {

/// All possible rarities of items.
#[derive(Clone, Copy, PartialEq, Eq, Structural, Debug)]
pub enum Rarity {
    COMMON,
    UNIQUE,
    RARE,
    LEGENDARY,
    FABLED,
    MYTHIC,
    SET,
    /// Any rarity the catalogue names that is not one of the above.
    INVALID,
}

impl Rarity {
    /// The name shown for this rarity.
    pub open spec fn label(self) -> Seq<char> {
        match self {
            Rarity::COMMON => "Common"@,
            Rarity::UNIQUE => "Unique"@,
            Rarity::RARE => "Rare"@,
            Rarity::LEGENDARY => "Legendary"@,
            Rarity::FABLED => "Fabled"@,
            Rarity::MYTHIC => "Mythic"@,
            Rarity::SET => "Set"@,
            Rarity::INVALID => ""@,
        }
    }

    /// The name shown for this rarity.
    pub fn to_display_string(&self) -> (r: String)
        ensures
            r@ == self.label(),
    {
        let s = match self {
            Rarity::COMMON => "Common",
            Rarity::UNIQUE => "Unique",
            Rarity::RARE => "Rare",
            Rarity::LEGENDARY => "Legendary",
            Rarity::FABLED => "Fabled",
            Rarity::MYTHIC => "Mythic",
            Rarity::SET => "Set",
            Rarity::INVALID => "",
        };
        String::from_str(s)
    }
}


/// Item types.
#[derive(Clone, Copy, PartialEq, Eq, Structural, Debug)]
pub enum Type {
    SPEAR,
    WAND,
    BOW,
    DAGGER,
    RELIK,
    HELMET,
    CHESTPLATE,
    LEGGINGS,
    BOOTS,
    RING,
    BRACELET,
    NECKLACE,
    /// Any type the catalogue names that is not one of the above.
    INVALID,
}

impl Type {
    /// The name shown for this type.
    pub open spec fn label(self) -> Seq<char> {
        match self {
            Type::SPEAR => "Spear"@,
            Type::WAND => "Wand"@,
            Type::BOW => "Bow"@,
            Type::DAGGER => "Dagger"@,
            Type::RELIK => "Relik"@,
            Type::HELMET => "Helmet"@,
            Type::CHESTPLATE => "Chestplate"@,
            Type::LEGGINGS => "Leggings"@,
            Type::BOOTS => "Boots"@,
            Type::RING => "Ring"@,
            Type::BRACELET => "Bracelet"@,
            Type::NECKLACE => "Necklace"@,
            Type::INVALID => ""@,
        }
    }

    /// The name shown for this type.
    pub fn to_display_string(&self) -> (r: String)
        ensures
            r@ == self.label(),
    {
        let s = match self {
            Type::SPEAR => "Spear",
            Type::WAND => "Wand",
            Type::BOW => "Bow",
            Type::DAGGER => "Dagger",
            Type::RELIK => "Relik",
            Type::HELMET => "Helmet",
            Type::CHESTPLATE => "Chestplate",
            Type::LEGGINGS => "Leggings",
            Type::BOOTS => "Boots",
            Type::RING => "Ring",
            Type::BRACELET => "Bracelet",
            Type::NECKLACE => "Necklace",
            Type::INVALID => "",
        };
        String::from_str(s)
    }
}

/// The key of one identification (a stat), as the catalogue spells it,
/// e.g. `rawStrength` or `healthRegen`.
#[derive(Debug)]
pub struct Identification(pub String);

impl Clone for Identification {
    fn clone(&self) -> (r: Self)
        ensures
            r == *self,
    {
        Identification(self.0.clone())
    }
}

impl PartialEq for Identification {
    fn eq(&self, o: &Identification) -> (r: bool) {
        self.0 == o.0
    }
}

impl vstd::std_specs::cmp::PartialEqSpecImpl for Identification {
    open spec fn obeys_eq_spec() -> bool {
        true
    }

    open spec fn eq_spec(&self, o: &Identification) -> bool {
        self.0@ == o.0@
    }
}

impl Eq for Identification {}

/// A key split into words: its first character upper-cased, and a space
/// before every later upper-case character.
pub open spec fn spaced_words(s: Seq<char>) -> Seq<char> {
    if s.len() == 0 {
        Seq::empty()
    } else {
        seq![ascii_upper(s[0])] + spaced_rest(s.drop_first())
    }
}

/// The characters after the first one, each upper-case one preceded by a space.
pub open spec fn spaced_rest(t: Seq<char>) -> Seq<char>
    decreases t.len(),
{
    if t.len() == 0 {
        Seq::empty()
    } else {
        spaced_rest(t.drop_last()) + if is_upper(t.last()) {
            seq![' ', t.last()]
        } else {
            seq![t.last()]
        }
    }
}

/// The name shown for an identification key: a few keys have a fixed name,
/// chosen by the key's lower-case form; the rest are split into words.
pub open spec fn id_label(s: Seq<char>) -> Seq<char> {
    let low = lower_of(s);
    if low == "rawstrength"@ {
        "Strength"@
    } else if low == "rawdexterity"@ {
        "Dexterity"@
    } else if low == "rawintelligence"@ {
        "Intelligence"@
    } else if low == "rawdefence"@ {
        "Defence"@
    } else if low == "rawagility"@ {
        "Agility"@
    } else if low == "xpbonus"@ {
        "XP Bonus"@
    } else {
        spaced_words(s)
    }
}

impl Identification {
    /// The name shown for this identification. An empty key gives an empty name.
    pub fn to_display_string(&self) -> (r: String)
        ensures
            r@ == id_label(self.0@),
    {
        let low = to_lower(self.0.as_str());
        if low == String::from_str("rawstrength") {
            String::from_str("Strength")
        } else if low == String::from_str("rawdexterity") {
            String::from_str("Dexterity")
        } else if low == String::from_str("rawintelligence") {
            String::from_str("Intelligence")
        } else if low == String::from_str("rawdefence") {
            String::from_str("Defence")
        } else if low == String::from_str("rawagility") {
            String::from_str("Agility")
        } else if low == String::from_str("xpbonus") {
            String::from_str("XP Bonus")
        } else {
            split_words(self.0.as_str())
        }
    }
}

fn split_words(s: &str) -> (r: String)
    ensures
        r@ == spaced_words(s@),
{
    let n = s.unicode_len();
    let mut out = String::new();
    if n == 0 {
        return out;
    }
    push_char(&mut out, to_ascii_upper(s.get_char(0)));
    let ghost rest = s@.drop_first();
    let mut i: usize = 1;
    while i < n
        invariant
            1 <= i <= n,
            n == s@.len(),
            rest == s@.drop_first(),
            out@ == seq![ascii_upper(s@[0])] + spaced_rest(rest.take(i - 1)),
        decreases n - i,
    {
        let c = s.get_char(i);
        proof {
            assert(rest.take(i as int).drop_last() == rest.take(i - 1));
            assert(rest.take(i as int).last() == c);
        }
        if char_is_upper(c) {
            push_char(&mut out, ' ');
        }
        push_char(&mut out, c);
        i = i + 1;
    }
    proof {
        assert(rest.take(n - 1) == rest);
    }
    out
}


/// How fast a weapon attacks.
#[allow(non_camel_case_types)]
#[derive(Clone, Copy, PartialEq, Eq, Structural, Debug)]
pub enum AttackSpeed {
    SUPER_SLOW,
    VERY_SLOW,
    SLOW,
    NORMAL,
    FAST,
    VERY_FAST,
    SUPER_FAST,
}

impl AttackSpeed {
    /// The name shown for this attack speed.
    pub open spec fn label(self) -> Seq<char> {
        match self {
            AttackSpeed::SUPER_SLOW => "Super Slow"@,
            AttackSpeed::VERY_SLOW => "Very Slow"@,
            AttackSpeed::SLOW => "Slow"@,
            AttackSpeed::NORMAL => "Normal"@,
            AttackSpeed::FAST => "Fast"@,
            AttackSpeed::VERY_FAST => "Very Fast"@,
            AttackSpeed::SUPER_FAST => "Super Fast"@,
        }
    }

    /// The name shown for this attack speed.
    pub fn to_display_string(&self) -> (r: String)
        ensures
            r@ == self.label(),
    {
        let s = match self {
            AttackSpeed::SUPER_SLOW => "Super Slow",
            AttackSpeed::VERY_SLOW => "Very Slow",
            AttackSpeed::SLOW => "Slow",
            AttackSpeed::NORMAL => "Normal",
            AttackSpeed::FAST => "Fast",
            AttackSpeed::VERY_FAST => "Very Fast",
            AttackSpeed::SUPER_FAST => "Super Fast",
        };
        String::from_str(s)
    }
}

/// The whole catalogue: every item, and how identifications are ordered.
#[derive(Clone, Debug)]
pub struct ItemList {
    pub items: Vec<Item>,
    pub order: IdentificationOrder,
}

/// One item of the catalogue.
#[derive(Clone, Debug)]
pub struct Item {
    /// Name of the item.
    pub name: String,
    /// Rarity of the item.
    pub tier: Rarity,
    /// Number of powder slots on the item.
    pub max_powders: u8,
    /// Information about the item.
    pub item_info: ItemInfo,
    /// Requirements to wear the item.
    pub requirements: Requirements,
    /// Damage values of the item.
    pub damages: Option<DamageTypes>,
    /// Defence values of the item.
    pub defenses: Option<DefenseTypes>,
    /// Attack speed of the item.
    pub speed: Option<AttackSpeed>,
    /// The identifications of the item, each key at most once.
    pub statuses: Vec<(Identification, StatusId)>,
}

#[derive(Clone, Copy, PartialEq, Eq, Structural, Debug)]
pub struct ItemInfo {
    pub item_type: Type,
}

/// Requirements of an item.
#[derive(Clone, Copy, PartialEq, Eq, Structural, Debug)]
pub struct Requirements {
    pub level: Option<i32>,
    pub strength: Option<i32>,
    pub dexterity: Option<i32>,
    pub intelligence: Option<i32>,
    pub defense: Option<i32>,
    pub agility: Option<i32>,
}

/// Damage values of an item, as the catalogue writes them (e.g. `10-20`).
#[derive(Clone, Debug)]
pub struct DamageTypes {
    pub neutral: Option<String>,
    pub earth: Option<String>,
    pub thunder: Option<String>,
    pub water: Option<String>,
    pub fire: Option<String>,
    pub air: Option<String>,
}

/// Defence values of an item.
#[derive(Clone, Copy, PartialEq, Eq, Structural, Debug)]
pub struct DefenseTypes {
    pub health: Option<i32>,
    pub earth: Option<i32>,
    pub thunder: Option<i32>,
    pub water: Option<i32>,
    pub fire: Option<i32>,
    pub air: Option<i32>,
}

/// The unit an identification is shown in.
#[allow(non_camel_case_types)]
#[derive(Clone, Copy, PartialEq, Eq, Structural, Debug)]
pub enum StatusType {
    PERCENTAGE,
    INTEGER,
    FOUR_SECONDS,
    THREE_SECONDS,
    TIER,
}

/// One identification of an item, as the catalogue gives it.
#[derive(Clone, Copy, PartialEq, Eq, Structural, Debug)]
pub struct StatusId {
    pub status_type: StatusType,
    /// Whether the catalogue marks the roll as not random.
    pub fixed: bool,
    /// The nominal value that the roll range is derived from.
    pub base: i32,
}

/// How identifications are ordered and grouped for display, and which of
/// them are better when lower.
#[derive(Clone, Debug)]
pub struct IdentificationOrder {
    /// The position of each identification key, each key at most once.
    pub order: Vec<(Identification, i32)>,
    /// Ranges of positions that are shown together.
    pub groups: Vec<WynntilsRange>,
    /// The keys whose lower values are better.
    pub inverted: Vec<Identification>,
}

/// A range of positions as the catalogue writes it: `first-last`.
#[derive(Clone, Debug)]
pub struct WynntilsRange(pub String);

/// The number a text denotes, or 0 when it is no `i32`.
pub open spec fn parse_or_zero(s: Seq<char>) -> i32 {
    match parse_i32(s) {
        Some(v) => v,
        None => 0,
    }
}

/// The two ends that a range text denotes: the texts before and after its
/// first `-`, each read as a number (0 where it is none); `0..=0` without a `-`.
pub open spec fn range_ends(s: Seq<char>) -> (i32, i32) {
    match first_index_of(s, '-') {
        Some(i) => (parse_or_zero(s.take(i)), parse_or_zero(s.skip(i + 1))),
        None => (0, 0),
    }
}

fn parse_or_zero_str(s: &str) -> (r: i32)
    ensures
        r == parse_or_zero(s@),
{
    match parse_i32_str(s) {
        Some(v) => v,
        None => 0,
    }
}

impl WynntilsRange {
    /// The two ends this text denotes.
    pub(crate) fn ends(&self) -> (r: (i32, i32))
        ensures
            r == range_ends(self.0@),
    {
        let r = match split_once_char(self.0.as_str(), '-') {
            Some((a, b)) => (parse_or_zero_str(a), parse_or_zero_str(b)),
            None => (0, 0),
        };
        proof {
            if first_index_of(self.0@, '-') is None {
                reveal_strlit("0");
            }
        }
        r
    }

    /// The inclusive range of positions this text denotes.
    pub fn as_range(&self) -> (r: RangeInclusive<i32>)
        ensures
            r@.start == range_ends(self.0@).0,
            r@.end == range_ends(self.0@).1,
            !r@.exhausted,
    {
        let (first, second) = self.ends();
        first..=second
    }
}

/// Powder elements.
#[derive(Clone, Copy, PartialEq, Eq, Structural, Debug)]
pub enum Powders {
    EARTH,
    THUNDER,
    WATER,
    FIRE,
    AIR,
}

impl Powders {
    /// The element that the selection control numbers `n` (from 0), if any.
    pub open spec fn from_choice(n: int) -> Option<Powders> {
        if n == 0 {
            Some(Powders::EARTH)
        } else if n == 1 {
            Some(Powders::THUNDER)
        } else if n == 2 {
            Some(Powders::WATER)
        } else if n == 3 {
            Some(Powders::FIRE)
        } else if n == 4 {
            Some(Powders::AIR)
        } else {
            None
        }
    }

    /// The element's digit in the encoded string (from 1).
    pub open spec fn digit(self) -> int {
        match self {
            Powders::EARTH => 1,
            Powders::THUNDER => 2,
            Powders::WATER => 3,
            Powders::FIRE => 4,
            Powders::AIR => 5,
        }
    }

    /// The element that the selection control numbers `n`: 0 to 4 for
    /// earth, thunder, water, fire and air; `None` for any other number.
    pub fn from_i32(n: i32) -> (r: Option<Self>)
        ensures
            r == Self::from_choice(n as int),
    {
        match n {
            0 => Some(Powders::EARTH),
            1 => Some(Powders::THUNDER),
            2 => Some(Powders::WATER),
            3 => Some(Powders::FIRE),
            4 => Some(Powders::AIR),
            _ => None,
        }
    }

    /// The element's digit in the encoded string: 1 to 5 for earth,
    /// thunder, water, fire and air.
    pub fn to_i32(self) -> (r: i32)
        ensures
            r == self.digit(),
    {
        match self {
            Powders::EARTH => 1,
            Powders::THUNDER => 2,
            Powders::WATER => 3,
            Powders::FIRE => 4,
            Powders::AIR => 5,
        }
    }
}

/// One identification of the selected item, with its current roll.
#[derive(Clone, Debug)]
pub struct Id {
    pub id: Identification,
    pub idtype: StatusType,
    /// Whether the catalogue marks the roll as not random.
    pub fixed: bool,
    /// The nominal value that the roll range is derived from.
    pub baseval: i32,
    /// The current roll.
    pub value: i32,
}

} // verus!
