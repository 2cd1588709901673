use idmangler::items::{
    AttackSpeed, Id, Identification, IdentificationOrder, Item, ItemInfo, Powders, Rarity,
    Requirements, StatusId, StatusType, Type, WynntilsRange,
};
use idmangler::render::{
    formatnum, next_group, percent_color, position_of, starts_new_group, value_color,
};
use idmangler::rolls::Percent;
use idmangler::select::{find_item, read_ids};

fn key(s: &str) -> Identification {
    Identification(s.to_string())
}

fn item(name: &str, statuses: Vec<(Identification, StatusId)>) -> Item {
    Item {
        name: name.to_string(),
        tier: Rarity::UNIQUE,
        max_powders: 2,
        item_info: ItemInfo { item_type: Type::RING },
        requirements: Requirements {
            level: None,
            strength: None,
            dexterity: None,
            intelligence: None,
            defense: None,
            agility: None,
        },
        damages: None,
        defenses: None,
        speed: Some(AttackSpeed::FAST),
        statuses,
    }
}

fn status(base: i32) -> StatusId {
    StatusId { status_type: StatusType::INTEGER, fixed: false, base }
}

#[test]
fn powder_numbering() {
    assert!(Powders::from_i32(0) == Some(Powders::EARTH));
    assert!(Powders::from_i32(2) == Some(Powders::WATER));
    assert!(Powders::from_i32(4) == Some(Powders::AIR));
    assert!(Powders::from_i32(5).is_none());
    assert!(Powders::from_i32(6).is_none());
    assert!(Powders::from_i32(-1).is_none());
    assert_eq!(Powders::EARTH.to_i32(), 1);
    assert_eq!(Powders::THUNDER.to_i32(), 2);
    assert_eq!(Powders::WATER.to_i32(), 3);
    assert_eq!(Powders::FIRE.to_i32(), 4);
    assert_eq!(Powders::AIR.to_i32(), 5);
    assert_eq!(Powders::FIRE.symbol(), "\u{2739}");
    assert_eq!(Powders::WATER.color_class(), "mc-aqua");
}

#[test]
fn range_text() {
    assert_eq!(WynntilsRange("1-5".to_string()).as_range(), 1..=5);
    assert_eq!(WynntilsRange("12-40".to_string()).as_range(), 12..=40);
    assert_eq!(WynntilsRange("abc".to_string()).as_range(), 0..=0);
    assert_eq!(WynntilsRange("7-x".to_string()).as_range(), 7..=0);
    assert_eq!(WynntilsRange("-3-4".to_string()).as_range(), 0..=0);
    assert_eq!(WynntilsRange("+2-9".to_string()).as_range(), 2..=9);
}

#[test]
fn display_names() {
    assert_eq!(Rarity::LEGENDARY.to_display_string(), "Legendary");
    assert_eq!(Rarity::INVALID.to_display_string(), "");
    assert_eq!(Type::CHESTPLATE.to_display_string(), "Chestplate");
    assert_eq!(AttackSpeed::SUPER_SLOW.to_display_string(), "Super Slow");
    assert_eq!(key("rawStrength").to_display_string(), "Strength");
    assert_eq!(key("RAWAGILITY").to_display_string(), "Agility");
    assert_eq!(key("xpBonus").to_display_string(), "XP Bonus");
    assert_eq!(key("healthRegenRaw").to_display_string(), "Health Regen Raw");
    assert_eq!(key("spellCostPct1").to_display_string(), "Spell Cost Pct1");
    assert_eq!(key("").to_display_string(), "");
}

#[test]
fn ids_follow_catalogue_order() {
    let it = item(
        "Ring",
        vec![(key("b"), status(10)), (key("a"), status(20)), (key("c"), status(-5))],
    );
    let ord = IdentificationOrder {
        order: vec![(key("a"), 3), (key("b"), 1), (key("d"), 0), (key("c"), 3)],
        groups: Vec::new(),
        inverted: Vec::new(),
    };
    let ids: Vec<Id> = read_ids(&it, &ord);
    let keys: Vec<String> = ids.iter().map(|i| i.id.0.clone()).collect();
    assert_eq!(keys, vec!["b", "a", "c"]);
    assert_eq!(ids[0].baseval, 10);
    assert_eq!(ids[0].value, 10);
    assert_eq!(ids[2].baseval, -5);
    assert!(!ids[1].fixed);
}

#[test]
fn item_lookup_ignores_ascii_case() {
    let items = vec![item("Ring", Vec::new()), item("Cancer", Vec::new()), item("cancer", Vec::new())];
    assert_eq!(find_item(&items, "CANCER"), Some(1));
    assert_eq!(find_item(&items, "ring"), Some(0));
    assert_eq!(find_item(&items, "rin"), None);
}

#[test]
fn signed_numbers() {
    assert_eq!(formatnum(5), "+5");
    assert_eq!(formatnum(0), "0");
    assert_eq!(formatnum(-12), "-12");
    assert_eq!(formatnum(i32::MIN), "-2147483648");
}

#[test]
fn colours() {
    assert_eq!(Rarity::MYTHIC.color_class(), "mc-purple");
    assert_eq!(Rarity::COMMON.color_class(), "mc-white");
    assert_eq!(StatusType::FOUR_SECONDS.suffix(), "/4s");
    assert_eq!(StatusType::PERCENTAGE.suffix(), "%");
    assert_eq!(value_color(3, false), "mc-green");
    assert_eq!(value_color(-3, false), "mc-red");
    assert_eq!(value_color(-3, true), "mc-green");
    assert_eq!(value_color(0, true), "mc-green");
    assert_eq!(percent_color(&Percent { num: 29, den: 1 }), "mc-red");
    assert_eq!(percent_color(&Percent { num: 60, den: 2 }), "mc-yellow");
    assert_eq!(percent_color(&Percent { num: 800, den: 10 }), "mc-green");
    assert_eq!(percent_color(&Percent { num: 97, den: 1 }), "mc-aqua");
}

#[test]
fn grouping() {
    let order = vec![(key("a"), 4), (key("b"), 12)];
    assert_eq!(position_of(&order, &key("b")), 12);
    assert_eq!(position_of(&order, &key("z")), 0);
    let groups = vec![WynntilsRange("1-5".to_string()), WynntilsRange("10-20".to_string())];
    assert_eq!(next_group(&groups, 4, None), Some((1, 5)));
    assert_eq!(next_group(&groups, 12, Some((1, 5))), Some((10, 20)));
    assert_eq!(next_group(&groups, 7, Some((1, 5))), Some((1, 5)));
    assert!(!starts_new_group(None, 4));
    assert!(!starts_new_group(Some((1, 5)), 4));
    assert!(starts_new_group(Some((1, 5)), 12));
}
