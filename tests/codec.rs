use idmangler::codec::{id_string, END_MARK, NAME_END_MARK, OFFSET, POWDER_MARK, START_MARK};
use idmangler::items::{
    Id, Identification, Item, ItemInfo, Powders, Rarity, Requirements, StatusType, Type,
};

fn item(name: &str) -> Item {
    Item {
        name: name.to_string(),
        tier: Rarity::RARE,
        max_powders: 5,
        item_info: ItemInfo { item_type: Type::WAND },
        requirements: Requirements {
            level: Some(50),
            strength: None,
            dexterity: None,
            intelligence: None,
            defense: None,
            agility: None,
        },
        damages: None,
        defenses: None,
        speed: None,
        statuses: Vec::new(),
    }
}

fn stat(key: &str, fixed: bool, base: i32, value: i32) -> Id {
    Id {
        id: Identification(key.to_string()),
        idtype: StatusType::INTEGER,
        fixed,
        baseval: base,
        value,
    }
}

fn ch(n: i32) -> char {
    char::from_u32((OFFSET + n) as u32).unwrap()
}

/// The characters between the name's end mark and the end mark.
fn body(s: &str) -> Vec<char> {
    let chars: Vec<char> = s.chars().collect();
    let start = chars.iter().position(|c| *c == NAME_END_MARK).unwrap() + 1;
    assert_eq!(*chars.last().unwrap(), END_MARK);
    chars[start..chars.len() - 1].to_vec()
}

#[test]
fn linear_branch_at_base_hundred() {
    let ids = vec![stat("rawStrength", false, 100, 100)];
    assert_eq!(ids[0].min_id(), 30);
    assert_eq!(ids[0].max_id(), 130);
    let s = id_string(&Some(item("Stick")), &ids, &Vec::new(), 1);
    assert_eq!(body(&s), vec![ch(280), ch(1)]);
}

#[test]
fn percentage_branch_above_hundred() {
    let ids = vec![stat("healthBonus", false, 500, 500)];
    let s = id_string(&Some(item("Stick")), &ids, &Vec::new(), 1);
    assert_eq!(body(&s), vec![ch(280), ch(1)]);
}

#[test]
fn percentage_branch_rounds_and_handles_negative_base() {
    // 333 * 100 / 250 = 133.2 -> 133; (133 - 30) * 4 = 412
    let ids = vec![stat("a", false, 250, 333)];
    assert_eq!(body(&id_string(&None, &ids, &Vec::new(), 1))[0], ch(412));
    // -150 * 100 / -200 = 75; (75 - 30) * 4 = 180
    let ids = vec![stat("b", false, -200, -150)];
    assert_eq!(body(&id_string(&None, &ids, &Vec::new(), 1))[0], ch(180));
    // 101 * 100 / 202 = 50 exactly; 303 * 100 / 202 = 150 exactly
    let ids = vec![stat("c", false, 202, 101)];
    assert_eq!(body(&id_string(&None, &ids, &Vec::new(), 1))[0], ch(80));
}

#[test]
fn small_base_is_fixed_placeholder_or_nothing() {
    let open = vec![stat("a", false, 1, 1)];
    assert_eq!(body(&id_string(&None, &open, &Vec::new(), 1)), vec![ch(0), ch(1)]);
    let flagged = vec![stat("a", true, 1, 1)];
    assert_eq!(body(&id_string(&None, &flagged, &Vec::new(), 1)), vec![ch(1)]);
    let zero = vec![stat("a", false, 0, 0), stat("b", false, -1, -1)];
    assert_eq!(body(&id_string(&None, &zero, &Vec::new(), 1)), vec![ch(0), ch(0), ch(1)]);
    let flagged_big = vec![stat("a", true, 40, 40)];
    assert_eq!(body(&id_string(&None, &flagged_big, &Vec::new(), 1)), vec![ch(1)]);
}

#[test]
fn four_powders_make_one_group() {
    let p = vec![Some(Powders::EARTH), Some(Powders::FIRE), Some(Powders::AIR), Some(Powders::THUNDER)];
    let s = id_string(&None, &Vec::new(), &p, 1);
    // digits 1, 4, 5, 2: ((1 * 6 + 4) * 6 + 5) * 6 + 2 = 392
    assert_eq!(body(&s), vec![POWDER_MARK, ch(392), ch(1)]);
}

#[test]
fn fifth_powder_starts_second_group() {
    let p = vec![
        Some(Powders::EARTH),
        Some(Powders::FIRE),
        Some(Powders::AIR),
        Some(Powders::THUNDER),
        Some(Powders::WATER),
    ];
    let s = id_string(&None, &Vec::new(), &p, 1);
    assert_eq!(body(&s), vec![POWDER_MARK, ch(392), ch(3), ch(1)]);
}

#[test]
fn empty_slots_are_skipped_and_no_powders_means_no_mark() {
    let none = vec![None, None, None];
    assert_eq!(body(&id_string(&None, &Vec::new(), &none, 1)), vec![ch(1)]);
    let gaps = vec![None, Some(Powders::WATER), None, Some(Powders::EARTH)];
    // digits 3, 1 -> 3 * 6 + 1 = 19
    assert_eq!(body(&id_string(&None, &Vec::new(), &gaps, 1)), vec![POWDER_MARK, ch(19), ch(1)]);
}

#[test]
fn powder_character_count_is_groups_of_four_rounded_up() {
    for filled in 0..=9usize {
        let p: Vec<Option<Powders>> = (0..filled).map(|_| Some(Powders::AIR)).collect();
        let b = body(&id_string(&None, &Vec::new(), &p, 1));
        let expected_groups = (filled + 3) / 4;
        if filled == 0 {
            assert_eq!(b.len(), 1);
        } else {
            assert_eq!(b.len(), 1 + expected_groups + 1);
            assert_eq!(b[0], POWDER_MARK);
        }
    }
}

#[test]
fn reroll_character_is_unscaled() {
    let ids = vec![stat("a", false, 100, 80)];
    let p = vec![Some(Powders::FIRE)];
    let s = id_string(&Some(item("Stick")), &ids, &p, 7);
    let b = body(&s);
    assert_eq!(*b.last().unwrap(), ch(7));
    let t = id_string(&None, &Vec::new(), &Vec::new(), 7);
    assert_eq!(*body(&t).last().unwrap(), ch(7));
}

#[test]
fn whole_string_layout() {
    let ids = vec![stat("rawStrength", false, 10, 12)];
    let s = id_string(&Some(item("Stick")), &ids, &vec![Some(Powders::EARTH)], 3);
    // base 10: lowest roll round(3) = 3, so (12 - 3) * 4 = 36
    let expected: String = [START_MARK]
        .iter()
        .chain("Stick".chars().collect::<Vec<_>>().iter())
        .chain([NAME_END_MARK, ch(36), POWDER_MARK, ch(1), ch(3), END_MARK].iter())
        .collect();
    assert_eq!(s, expected);
    assert_eq!(START_MARK as u32, 0xF5FF0);
    assert_eq!(NAME_END_MARK as u32, 0xF5FF2);
    assert_eq!(POWDER_MARK as u32, 0xF5FF2);
    assert_eq!(END_MARK as u32, 0xF5FF1);
}

#[test]
fn missing_item_uses_placeholder_name() {
    let s = id_string(&None, &Vec::new(), &Vec::new(), 1);
    let expected = format!("{}oops something went wrong{}{}{}", START_MARK, NAME_END_MARK, ch(1), END_MARK);
    assert_eq!(s, expected);
}

#[test]
fn invalid_code_point_becomes_question_mark() {
    let ids = vec![stat("a", false, 50, -1_000_000)];
    assert_eq!(body(&id_string(&None, &ids, &Vec::new(), 1))[0], '?');
    let s = id_string(&None, &Vec::new(), &Vec::new(), -0xF6000);
    assert_eq!(*body(&s).last().unwrap(), '?');
}

#[test]
fn stat_order_is_mirrored() {
    let a = stat("a", false, 100, 100);
    let b = stat("b", false, 100, 30);
    let ab = body(&id_string(&None, &vec![a.clone(), b.clone()], &Vec::new(), 1));
    let ba = body(&id_string(&None, &vec![b, a], &Vec::new(), 1));
    assert_eq!(ab, vec![ch(280), ch(0), ch(1)]);
    assert_eq!(ba, vec![ch(0), ch(280), ch(1)]);
    assert_ne!(ab, ba);
}

#[test]
fn encoding_is_deterministic() {
    let ids = vec![stat("a", false, 120, 100), stat("b", false, -20, -15)];
    let p = vec![Some(Powders::WATER), None];
    let first = id_string(&Some(item("Stick")), &ids, &p, 9);
    let second = id_string(&Some(item("Stick")), &ids, &p, 9);
    assert_eq!(first, second);
}
