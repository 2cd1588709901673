//! The id string: an item's name, its rolls, its powders and its reroll
//! count, packed into one line of private-use characters.
use vstd::prelude::*;
use crate::items::{Id, Item, Powders};
use crate::rolls::{round_div, rounded_div};
use crate::text::{char_from_u32, char_or_fallback, is_scalar, push_char};

verus! {

/// The code that a value of 0 is carried on; a value `n` is the character
/// `OFFSET + n`.
pub const OFFSET: i32 = 0xF5000;

/// Opens the string, before the item's name.
pub const START_MARK: char = '\u{F5FF0}';

/// Separates the name from the encoded values.
pub const NAME_END_MARK: char = '\u{F5FF2}';

/// Comes before the powder characters, when there are any.
pub const POWDER_MARK: char = '\u{F5FF2}';

/// Closes the string.
pub const END_MARK: char = '\u{F5FF1}';

/// Name used when no item is selected.
pub open spec fn placeholder_name() -> Seq<char> {
    "oops something went wrong"@
}

/// The character carrying the value `n`, or `'?'` when `OFFSET + n` is no
/// valid character.
pub open spec fn value_char(n: int) -> char {
    char_or_fallback(OFFSET + n)
}

/// The characters that one identification contributes. A roll that can
/// vary gives one character: for a base beyond ±100 the roll's percentage
/// of the base (rounded) less 30, else the roll less its lowest roll; both
/// times 4. A roll that cannot vary gives a value-0 character, unless the
/// catalogue marks it fixed, in which case it gives none.
pub open spec fn stat_piece(id: Id) -> Seq<char> {
    if !id.is_fixed_spec() {
        if id.baseval > 100 || id.baseval < -100 {
            let pct = round_div(id.value * 100, id.baseval as int);
            seq![value_char((pct - 30) * 4)]
        } else {
            seq![value_char((id.value - id.min_spec()) * 4)]
        }
    } else if !id.fixed {
        seq![value_char(0)]
    } else {
        Seq::empty()
    }
}

/// The pieces of all identifications, in the order given.
pub open spec fn stat_chars(ids: Seq<Id>) -> Seq<char>
    decreases ids.len(),
{
    if ids.len() == 0 {
        Seq::empty()
    } else {
        stat_chars(ids.drop_last()) + stat_piece(ids.last())
    }
}

/// The state after reading powder slots: the digits gathered for the
/// current group (read in base 6), how many there are, and the groups
/// already complete. A full group of four is closed when the next slot comes.
pub open spec fn powder_fold(slots: Seq<Option<Powders>>) -> (int, int, Seq<int>)
    decreases slots.len(),
{
    if slots.len() == 0 {
        (0, 0, Seq::empty())
    } else {
        let (acc, count, groups) = powder_fold(slots.drop_last());
        let (acc1, count1, groups1) = if count == 4 {
            (0int, 0int, groups.push(acc))
        } else {
            (acc, count, groups)
        };
        match slots.last() {
            Some(p) => (acc1 * 6 + p.digit(), count1 + 1, groups1),
            None => (acc1, count1, groups1),
        }
    }
}

/// The groups of powder digits, each read in base 6: four per group, the
/// last one partial; empty slots are skipped.
pub open spec fn powder_groups(slots: Seq<Option<Powders>>) -> Seq<int> {
    let (acc, count, groups) = powder_fold(slots);
    if acc != 0 {
        groups.push(acc)
    } else {
        groups
    }
}

pub open spec fn value_chars(values: Seq<int>) -> Seq<char> {
    values.map_values(|v: int| value_char(v))
}

/// The powder section: nothing when no slot is filled, else the powder mark
/// and one character per group.
pub open spec fn powder_chars(slots: Seq<Option<Powders>>) -> Seq<char> {
    let groups = powder_groups(slots);
    if groups.len() == 0 {
        Seq::empty()
    } else {
        seq![POWDER_MARK] + value_chars(groups)
    }
}

/// The whole id string for an item named `name`.
pub open spec fn encoding(
    name: Seq<char>,
    ids: Seq<Id>,
    slots: Seq<Option<Powders>>,
    rerolls: int,
) -> Seq<char> {
    seq![START_MARK] + name + seq![NAME_END_MARK] + stat_chars(ids) + powder_chars(slots) + seq![
        value_char(rerolls),
    ] + seq![END_MARK]
}

/// The name written for the selected item, if any.
pub open spec fn item_name(item: Option<Item>) -> Seq<char> {
    match item {
        Some(it) => it.name@,
        None => placeholder_name(),
    }
}

/// The character carrying `n`, or `'?'`.
fn value_char_of(n: i64) -> (r: char)
    requires
        -0x1_0000_0000_0000 <= n <= 0x1_0000_0000_0000,
    ensures
        r == value_char(n as int),
{
    let v: i64 = OFFSET as i64 + n;
    if 0 <= v && v <= u32::MAX as i64 {
        match char_from_u32(v as u32) {
            Some(c) => {
                proof {
                    vstd::utf8::char_u32_cast(c, v as u32);
                }
                c
            },
            None => '?',
        }
    } else {
        '?'
    }
}

/// The largest value a group of `count` base-6 digits from 1 to 5 can have.
pub open spec fn max_group(count: int) -> int {
    if count <= 0 {
        0
    } else if count == 1 {
        5
    } else if count == 2 {
        35
    } else if count == 3 {
        215
    } else {
        1295
    }
}

/// How many slots are filled.
pub open spec fn filled_count(slots: Seq<Option<Powders>>) -> int
    decreases slots.len(),
{
    if slots.len() == 0 {
        0
    } else {
        filled_count(slots.drop_last()) + if slots.last() is Some {
            1int
        } else {
            0
        }
    }
}

/// What holds of the powder state after any slots: at most four digits are
/// pending, their value fits their count and is zero exactly when there are
/// none, and four digits went into each complete group.
proof fn lemma_powder_fold(slots: Seq<Option<Powders>>)
    ensures
        0 <= powder_fold(slots).1 <= 4,
        0 <= powder_fold(slots).0 <= max_group(powder_fold(slots).1),
        (powder_fold(slots).0 == 0) == (powder_fold(slots).1 == 0),
        4 * powder_fold(slots).2.len() + powder_fold(slots).1 == filled_count(slots),
    decreases slots.len(),
{
    if slots.len() > 0 {
        lemma_powder_fold(slots.drop_last());
    }
}

fn push_stat(out: &mut String, id: &Id)
    ensures
        final(out)@ == old(out)@ + stat_piece(*id),
{
    if !id.is_effectively_fixed() {
        if id.baseval > 100 || id.baseval < -100 {
            let pct = rounded_div(id.value as i64 * 100, id.baseval as i64);
            push_char(out, value_char_of((pct - 30) * 4));
        } else {
            push_char(out, value_char_of((id.value as i64 - id.min_id() as i64) * 4));
        }
    } else if !id.fixed {
        push_char(out, value_char_of(0));
    }
}

fn push_stats(out: &mut String, ids: &Vec<Id>)
    ensures
        final(out)@ == old(out)@ + stat_chars(ids@),
{
    let ghost start = out@;
    let mut i: usize = 0;
    while i < ids.len()
        invariant
            i <= ids@.len(),
            out@ == start + stat_chars(ids@.take(i as int)),
        decreases ids.len() - i,
    {
        push_stat(out, &ids[i]);
        proof {
            assert(ids@.take(i + 1).drop_last() == ids@.take(i as int));
        }
        i = i + 1;
    }
    proof {
        assert(ids@.take(ids@.len() as int) == ids@);
    }
}

fn push_powders(out: &mut String, slots: &Vec<Option<Powders>>)
    ensures
        final(out)@ == old(out)@ + powder_chars(slots@),
{
    let mut groups = String::new();
    let mut n_groups: usize = 0;
    let mut acc: i64 = 0;
    let mut count: i64 = 0;
    let ghost mut done: Seq<int> = Seq::empty();
    let mut i: usize = 0;
    while i < slots.len()
        invariant
            i <= slots@.len(),
            powder_fold(slots@.take(i as int)) == (acc as int, count as int, done),
            groups@ == value_chars(done),
            n_groups == done.len(),
            n_groups <= i,
        decreases slots.len() - i,
    {
        proof {
            lemma_powder_fold(slots@.take(i as int));
            assert(slots@.take(i + 1).drop_last() == slots@.take(i as int));
        }
        if count == 4 {
            push_char(&mut groups, value_char_of(acc));
            proof {
                assert(value_chars(done.push(acc as int)) == value_chars(done).push(
                    value_char(acc as int),
                ));
                done = done.push(acc as int);
            }
            n_groups = n_groups + 1;
            acc = 0;
            count = 0;
        }
        match slots[i] {
            Some(p) => {
                acc = acc * 6 + p.to_i32() as i64;
                count = count + 1;
            },
            None => {},
        }
        i = i + 1;
    }
    proof {
        assert(slots@.take(slots@.len() as int) == slots@);
        lemma_powder_fold(slots@);
    }
    if acc != 0 {
        push_char(&mut groups, value_char_of(acc));
        proof {
            assert(value_chars(done.push(acc as int)) == value_chars(done).push(
                value_char(acc as int),
            ));
            done = done.push(acc as int);
        }
    }
    if n_groups > 0 || acc != 0 {
        push_char(out, POWDER_MARK);
        out.append(groups.as_str());
    }
}

/// The id string of the selected item: the start mark, the item's name (a
/// placeholder when none is selected), the name's end mark, one piece per
/// identification in the order given, the powder section, the reroll count
/// as a value character of its own, and the end mark.
pub fn id_string(
    item: &Option<Item>,
    ids: &Vec<Id>,
    powders: &Vec<Option<Powders>>,
    rerolls: i32,
) -> (r: String)
    ensures
        r@ == encoding(item_name(*item), ids@, powders@, rerolls as int),
{
    let mut out = String::new();
    push_char(&mut out, START_MARK);
    match item {
        Some(it) => out.append(it.name.as_str()),
        None => out.append("oops something went wrong"),
    }
    push_char(&mut out, NAME_END_MARK);
    push_stats(&mut out, ids);
    push_powders(&mut out, powders);
    push_char(&mut out, value_char_of(rerolls as i64));
    push_char(&mut out, END_MARK);
    out
}

/// The encoding is a function of its inputs: equal names, identifications,
/// powder slots and reroll counts give equal id strings.
pub proof fn encoding_is_deterministic(
    name1: Seq<char>,
    ids1: Seq<Id>,
    slots1: Seq<Option<Powders>>,
    rerolls1: int,
    name2: Seq<char>,
    ids2: Seq<Id>,
    slots2: Seq<Option<Powders>>,
    rerolls2: int,
)
    requires
        name1 == name2,
        ids1 == ids2,
        slots1 == slots2,
        rerolls1 == rerolls2,
    ensures
        encoding(name1, ids1, slots1, rerolls1) == encoding(name2, ids2, slots2, rerolls2),
{
}

/// The identifications' characters keep the order of the identifications:
/// those of a list followed by another are the first list's characters
/// followed by the second's.
pub proof fn stat_order_is_kept(a: Seq<Id>, b: Seq<Id>)
    ensures
        stat_chars(a + b) == stat_chars(a) + stat_chars(b),
    decreases b.len(),
{
    if b.len() == 0 {
        assert(a + b == a);
    } else {
        stat_order_is_kept(a, b.drop_last());
        assert((a + b).drop_last() == a + b.drop_last());
        assert(stat_chars(b) == stat_chars(b.drop_last()) + stat_piece(b.last()));
    }
}

/// Swapping two identifications that each give one character, and not the
/// same one, changes the id string.
pub proof fn swapping_stats_changes_output(
    name: Seq<char>,
    x: Id,
    y: Id,
    slots: Seq<Option<Powders>>,
    rerolls: int,
)
    requires
        stat_piece(x).len() == 1,
        stat_piece(y).len() == 1,
        stat_piece(x) != stat_piece(y),
    ensures
        encoding(name, seq![x, y], slots, rerolls) != encoding(name, seq![y, x], slots, rerolls),
{
    let xy = seq![x, y];
    let yx = seq![y, x];
    assert(xy.drop_last() == seq![x]);
    assert(yx.drop_last() == seq![y]);
    assert(seq![x].drop_last() == Seq::<Id>::empty());
    assert(seq![y].drop_last() == Seq::<Id>::empty());
    assert(stat_chars(Seq::<Id>::empty()) == Seq::<char>::empty());
    assert(seq![x].last() == x);
    assert(seq![y].last() == y);
    assert(xy.last() == y);
    assert(yx.last() == x);
    assert(stat_chars(seq![x]) =~= stat_piece(x));
    assert(stat_chars(seq![y]) =~= stat_piece(y));
    assert(stat_chars(xy) == stat_piece(x) + stat_piece(y));
    assert(stat_chars(yx) == stat_piece(y) + stat_piece(x));
    let e1 = encoding(name, xy, slots, rerolls);
    let e2 = encoding(name, yx, slots, rerolls);
    let k = name.len() as int + 2;
    assert(e1[k] == stat_piece(x)[0]);
    assert(e2[k] == stat_piece(y)[0]);
    assert(stat_piece(x) == seq![stat_piece(x)[0]]);
    assert(stat_piece(y) == seq![stat_piece(y)[0]]);
}

/// The powder section holds one character per started group of four filled
/// slots (the filled count divided by four, rounded up), after the powder
/// mark; with no slot filled it is empty, mark included.
pub proof fn powder_group_count(slots: Seq<Option<Powders>>)
    ensures
        powder_groups(slots).len() == (filled_count(slots) + 3) / 4,
        filled_count(slots) == 0 ==> powder_chars(slots) == Seq::<char>::empty(),
        filled_count(slots) > 0 ==> powder_chars(slots).len() == 1 + (filled_count(slots) + 3)
            / 4 && powder_chars(slots)[0] == POWDER_MARK,
{
    lemma_powder_fold(slots);
}

/// The character before the end mark carries the reroll count itself,
/// whatever the name, identifications and powders are: it is the character
/// `OFFSET + rerolls` whenever that is a valid character.
pub proof fn reroll_char_is_offset(
    name: Seq<char>,
    ids: Seq<Id>,
    slots: Seq<Option<Powders>>,
    rerolls: int,
)
    ensures
        encoding(name, ids, slots, rerolls)[encoding(name, ids, slots, rerolls).len() - 2]
            == value_char(rerolls),
        is_scalar(OFFSET + rerolls) ==> encoding(name, ids, slots, rerolls)[encoding(
            name,
            ids,
            slots,
            rerolls,
        ).len() - 2] as u32 == OFFSET + rerolls,
{
}

} // verus!
