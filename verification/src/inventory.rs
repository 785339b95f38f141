//! Inventory items and the effects processor: the colon-delimited
//! effect descriptors, their parser, the item catalog, and stacking.

use vstd::prelude::*;

verus! {

use vstd::pervasive::VecAdditionalExecFns;
use vstd::string::{StrSliceExecFns, StringExecFns};

use crate::{EngineError, MAX_STACK_LIMIT};
use crate::buffs::StatKind;

/// An item effect, parsed from its descriptor: one case per effect
/// kind, with strongly typed parameters.  Multipliers and stat amounts
/// are in hundredths, durations in minutes.
#[derive(Clone, Copy, Debug, PartialEq, Eq, Structural)]
pub enum ItemEffect {
    RestoreHealth { amount: i64 },
    XpMultiplier { value_hundredths: i64, duration_minutes: i64 },
    GoldMultiplier { value_hundredths: i64, duration_minutes: i64 },
    StatBoost { stat: StatKind, value_hundredths: i64, duration_minutes: i64 },
}

/// An inventory entry: a catalog item held in some quantity, bounded
/// by the item's stack size.  The effect descriptor stays encoded as
/// text; the effects processor parses it when the item is used.
#[derive(Debug, PartialEq)]
pub struct InventoryItem {
    pub id: String,
    pub name: String,
    pub description: String,
    pub item_type: String,
    pub effect: Option<String>,
    pub quantity: i64,
    pub max_stack: i64,
    pub rarity: String,
    pub icon: String,
    pub obtained_at: i64,
}

impl Clone for InventoryItem {
    fn clone(&self) -> (res: Self)
        ensures
            res == *self,
    {
        InventoryItem {
            id: self.id.clone(),
            name: self.name.clone(),
            description: self.description.clone(),
            item_type: self.item_type.clone(),
            effect: match &self.effect {
                Some(e) => Some(e.clone()),
                None => None,
            },
            quantity: self.quantity,
            max_stack: self.max_stack,
            rarity: self.rarity.clone(),
            icon: self.icon.clone(),
            obtained_at: self.obtained_at,
        }
    }
}

impl InventoryItem {
    /// A well-formed entry: quantity within the stack bound.
    pub open spec fn wf(self) -> bool {
        &&& 0 <= self.quantity <= self.max_stack
        &&& 1 <= self.max_stack <= MAX_STACK_LIMIT
        &&& 0 <= self.obtained_at
    }
}

/// Every inventory entry is well-formed.
pub open spec fn inventory_wf(inv: Seq<InventoryItem>) -> bool {
    forall|i: int| 0 <= i < inv.len() ==> (#[trigger] inv[i]).wf()
}

/// The index of the first inventory entry with the given id, or the
/// inventory's length when no entry has it.
pub open spec fn find_item_index(inv: Seq<InventoryItem>, id: Seq<char>) -> int
    decreases inv.len(),
{
    if inv.len() == 0 {
        0
    } else if inv[0].id@ == id {
        0
    } else {
        1 + find_item_index(inv.subrange(1, inv.len() as int), id)
    }
}

/// `find_item_index` returns exactly the first entry with the id.
pub proof fn lemma_find_item_index_is_first(inv: Seq<InventoryItem>, id: Seq<char>, i: int)
    requires
        0 <= i <= inv.len(),
        forall|k: int| 0 <= k < i ==> (#[trigger] inv[k]).id@ != id,
        i < inv.len() ==> inv[i].id@ == id,
    ensures
        find_item_index(inv, id) == i,
    decreases inv.len(),
{
    if inv.len() > 0 && inv[0].id@ != id {
        let tail = inv.subrange(1, inv.len() as int);
        assert(forall|k: int| 0 <= k < i - 1 ==> (#[trigger] tail[k]).id@ != id);
        lemma_find_item_index_is_first(tail, id, i - 1);
    }
}

/// Finds the first inventory entry with the given id, or the
/// inventory's length when no entry has it.
pub fn find_item(inventory: &Vec<InventoryItem>, id: &String) -> (r: usize)
    ensures
        r == find_item_index(inventory@, id@),
        r <= inventory@.len(),
        r < inventory@.len() ==> inventory@[r as int].id@ == id@,
{
    let n = inventory.len();
    let mut i: usize = 0;
    while i < n
        invariant
            n == inventory@.len(),
            i <= n,
            forall|k: int| 0 <= k < i ==> (#[trigger] inventory@[k]).id@ != id@,
        decreases n - i,
    {
        if inventory[i].id.eq(id) {
            proof {
                lemma_find_item_index_is_first(inventory@, id@, i as int);
            }
            return i;
        }
        i = i + 1;
    }
    proof {
        lemma_find_item_index_is_first(inventory@, id@, n as int);
    }
    n
}

/// Adds an acquired item to the inventory: it merges into the first
/// existing stack of the same id when the stack bound allows, and
/// otherwise becomes an independent entry, so an overflowing
/// acquisition is never silently dropped.
pub fn add_item_to_inventory(inventory: &mut Vec<InventoryItem>, item: InventoryItem)
    requires
        inventory_wf(old(inventory)@),
        item.wf(),
    ensures
        ({
            let idx = find_item_index(old(inventory)@, item.id@);
            if idx < old(inventory)@.len() && old(inventory)@[idx].quantity + item.quantity <= old(
                inventory,
            )@[idx].max_stack {
                final(inventory)@ == old(inventory)@.update(
                    idx,
                    InventoryItem {
                        quantity: (old(inventory)@[idx].quantity + item.quantity) as i64,
                        ..old(inventory)@[idx]
                    },
                )
            } else {
                final(inventory)@ == old(inventory)@.push(item)
            }
        }),
        inventory_wf(final(inventory)@),
{
    let idx = find_item(inventory, &item.id);
    if idx < inventory.len() {
        let existing_quantity = inventory[idx].quantity;
        let existing_max = inventory[idx].max_stack;
        if existing_quantity + item.quantity <= existing_max {
            let mut merged = inventory[idx].clone();
            merged.quantity = existing_quantity + item.quantity;
            inventory.set(idx, merged);
            return ;
        }
    }
    inventory.push(item);
}

/// The inventory after one unit of the entry at an index is consumed:
/// the entry's quantity drops by one, and the entry disappears when it
/// reaches zero.
pub open spec fn consume_at(inv: Seq<InventoryItem>, i: int) -> Seq<InventoryItem> {
    if inv[i].quantity == 1 {
        inv.remove(i)
    } else {
        inv.update(i, InventoryItem { quantity: (inv[i].quantity - 1) as i64, ..inv[i] })
    }
}

/// Consumes one unit of the inventory entry at an index.
pub fn consume_item(inventory: &mut Vec<InventoryItem>, i: usize)
    requires
        inventory_wf(old(inventory)@),
        i < old(inventory)@.len(),
        old(inventory)@[i as int].quantity >= 1,
    ensures
        final(inventory)@ == consume_at(old(inventory)@, i as int),
        inventory_wf(final(inventory)@),
{
    if inventory[i].quantity == 1 {
        inventory.remove(i);
        proof {
            assert forall|j: int|
                0 <= j < inventory@.len() implies (#[trigger] inventory@[j]).wf() by {
                if j < i {
                    assert(inventory@[j] == old(inventory)@[j]);
                } else {
                    assert(inventory@[j] == old(inventory)@[j + 1]);
                }
            }
        }
    } else {
        let mut reduced = inventory[i].clone();
        reduced.quantity = reduced.quantity - 1;
        inventory.set(i, reduced);
    }
}

/// The index of the first occurrence of a character in a sequence, or
/// the sequence's length when it does not occur.
pub open spec fn find_char(s: Seq<char>, target: char) -> int
    decreases s.len(),
{
    if s.len() == 0 {
        0
    } else if s[0] == target {
        0
    } else {
        1 + find_char(s.subrange(1, s.len() as int), target)
    }
}

/// `find_char` returns exactly the first occurrence: any position
/// before which the character is absent, and at which it stands (or
/// which is the end), is its value.
pub proof fn lemma_find_char_is_first(s: Seq<char>, target: char, i: int)
    requires
        0 <= i <= s.len(),
        forall|k: int| 0 <= k < i ==> s[k] != target,
        i < s.len() ==> s[i] == target,
    ensures
        find_char(s, target) == i,
    decreases s.len(),
{
    if s.len() > 0 && s[0] != target {
        let tail = s.subrange(1, s.len() as int);
        assert(forall|k: int| 0 <= k < i - 1 ==> tail[k] != target);
        lemma_find_char_is_first(tail, target, i - 1);
    }
}

/// Finds the first occurrence of a character, or the length of the
/// string when it is absent.
fn find_char_exec(s: &str, target: char) -> (r: usize)
    ensures
        r == find_char(s@, target),
        r <= s@.len(),
{
    let n = s.unicode_len();
    let mut i: usize = 0;
    while i < n
        invariant
            n == s@.len(),
            i <= n,
            forall|k: int| 0 <= k < i ==> s@[k] != target,
        decreases n - i,
    {
        if s.get_char(i) == target {
            proof {
                lemma_find_char_is_first(s@, target, i as int);
            }
            return i;
        }
        i = i + 1;
    }
    proof {
        lemma_find_char_is_first(s@, target, n as int);
    }
    n
}

/// Whether a character is a decimal digit.
pub open spec fn is_digit(c: char) -> bool {
    48 <= (c as u32) <= 57
}

/// A non-empty sequence of decimal digits.
pub open spec fn is_digits(s: Seq<char>) -> bool {
    &&& s.len() > 0
    &&& forall|i: int| 0 <= i < s.len() ==> is_digit(#[trigger] s[i])
}

/// The number a digit sequence denotes.
pub open spec fn digits_val(s: Seq<char>) -> int
    decreases s.len(),
{
    if s.len() == 0 {
        0
    } else {
        digits_val(s.drop_last()) * 10 + ((s.last() as u32) - 48)
    }
}

/// Ten to a power.
pub open spec fn pow10(n: nat) -> int
    decreases n,
{
    if n == 0 {
        1
    } else {
        10 * pow10((n - 1) as nat)
    }
}

/// A digit sequence denotes a number below ten to its length.
pub proof fn lemma_digits_val_bound(s: Seq<char>)
    requires
        forall|i: int| 0 <= i < s.len() ==> is_digit(#[trigger] s[i]),
    ensures
        0 <= digits_val(s) < pow10(s.len()),
    decreases s.len(),
{
    if s.len() > 0 {
        assert(forall|i: int|
            0 <= i < s.drop_last().len() ==> is_digit(#[trigger] s.drop_last()[i]));
        lemma_digits_val_bound(s.drop_last());
        assert(is_digit(s.last()));
    }
}

/// A whole number accepted from a descriptor: at most nine digits, so
/// its value stays below one billion.
pub open spec fn parse_digits_spec(s: Seq<char>) -> Option<int> {
    if is_digits(s) && s.len() <= 9 {
        Some(digits_val(s))
    } else {
        None
    }
}

/// Parses a whole number of at most nine digits.
fn parse_digits(s: &str) -> (r: Option<i64>)
    ensures
        match r {
            Some(v) => parse_digits_spec(s@) == Some(v as int) && 0 <= v <= 999_999_999,
            None => parse_digits_spec(s@) is None,
        },
{
    let n = s.unicode_len();
    if n == 0 || n > 9 {
        return None;
    }
    let mut val: i64 = 0;
    let mut i: usize = 0;
    proof {
        assert(s@.subrange(0, 0) =~= Seq::<char>::empty());
    }
    while i < n
        invariant
            n == s@.len(),
            1 <= n <= 9,
            i <= n,
            forall|k: int| 0 <= k < i ==> is_digit(#[trigger] s@[k]),
            val == digits_val(s@.subrange(0, i as int)),
            0 <= val < pow10(i as nat),
        decreases n - i,
    {
        let c = s.get_char(i);
        let code = c as u32;
        if code < 48 || code > 57 {
            return None;
        }
        proof {
            assert(s@.subrange(0, i + 1).drop_last() =~= s@.subrange(0, i as int));
            assert(s@.subrange(0, i + 1).last() == s@[i as int]);
            lemma_pow10_le_nine(i as nat);
            assert(pow10((i + 1) as nat) == 10 * pow10(i as nat));
        }
        val = val * 10 + ((code - 48) as i64);
        i = i + 1;
    }
    proof {
        assert(s@.subrange(0, n as int) =~= s@);
        lemma_digits_val_bound(s@);
        lemma_pow10_le_nine(s@.len());
    }
    Some(val)
}

/// For lengths up to nine, ten to the length is at most one billion.
proof fn lemma_pow10_le_nine(n: nat)
    requires
        n <= 9,
    ensures
        pow10(n) <= 1_000_000_000,
    decreases n,
{
    reveal_with_fuel(pow10, 11);
}

/// A decimal number accepted from a descriptor, read in hundredths: a
/// whole part of at most nine digits, optionally followed by a point
/// and one or two fraction digits.
pub open spec fn parse_decimal_hundredths_spec(s: Seq<char>) -> Option<int> {
    let d = find_char(s, '.');
    if d >= s.len() {
        match parse_digits_spec(s) {
            Some(v) => Some(v * 100),
            None => None,
        }
    } else {
        let whole = s.subrange(0, d);
        let frac = s.subrange(d + 1, s.len() as int);
        if is_digits(frac) && frac.len() <= 2 {
            match parse_digits_spec(whole) {
                Some(v) => Some(
                    v * 100 + digits_val(frac) * if frac.len() == 1 {
                        10int
                    } else {
                        1int
                    },
                ),
                None => None,
            }
        } else {
            None
        }
    }
}

/// Parses a decimal number into hundredths: "2" and "2.0" give 200,
/// "1.5" gives 150, "0.25" gives 25.
fn parse_decimal_hundredths(s: &str) -> (r: Option<i64>)
    ensures
        match r {
            Some(v) => parse_decimal_hundredths_spec(s@) == Some(v as int) && 0 <= v
                <= 99_999_999_999,
            None => parse_decimal_hundredths_spec(s@) is None,
        },
{
    let n = s.unicode_len();
    let d = find_char_exec(s, '.');
    if d >= n {
        match parse_digits(s) {
            Some(v) => Some(v * 100),
            None => None,
        }
    } else {
        let whole = s.substring_char(0, d);
        let frac = s.substring_char(d + 1, n);
        let frac_len = frac.unicode_len();
        match (parse_digits(whole), parse_digits(frac)) {
            (Some(v), Some(f)) => {
                proof {
                    lemma_digits_val_bound(frac@);
                    assert(pow10(0) == 1);
                    assert(pow10(1) == 10 * pow10(0));
                    assert(pow10(2) == 10 * pow10(1));
                }
                if frac_len == 1 {
                    Some(v * 100 + f * 10)
                } else if frac_len == 2 {
                    Some(v * 100 + f)
                } else {
                    None
                }
            },
            _ => None,
        }
    }
}

/// The stat a descriptor names, if any.
pub open spec fn stat_of_spec(s: Seq<char>) -> Option<StatKind> {
    if s == "strength"@ {
        Some(StatKind::Strength)
    } else if s == "intelligence"@ {
        Some(StatKind::Intelligence)
    } else if s == "endurance"@ {
        Some(StatKind::Endurance)
    } else if s == "charisma"@ {
        Some(StatKind::Charisma)
    } else if s == "luck"@ {
        Some(StatKind::Luck)
    } else {
        None
    }
}

/// Resolves a stat name from a descriptor.
fn stat_of(s: &str) -> (r: Option<StatKind>)
    ensures
        r == stat_of_spec(s@),
{
    let owned = s.to_owned();
    if owned.eq(&String::from_str("strength")) {
        Some(StatKind::Strength)
    } else if owned.eq(&String::from_str("intelligence")) {
        Some(StatKind::Intelligence)
    } else if owned.eq(&String::from_str("endurance")) {
        Some(StatKind::Endurance)
    } else if owned.eq(&String::from_str("charisma")) {
        Some(StatKind::Charisma)
    } else if owned.eq(&String::from_str("luck")) {
        Some(StatKind::Luck)
    } else {
        None
    }
}

/// A value-and-duration parameter pair: a decimal value in hundredths,
/// a colon, and a whole-number duration in minutes.
pub open spec fn parse_value_duration_spec(s: Seq<char>) -> Option<(int, int)> {
    let c = find_char(s, ':');
    if c >= s.len() {
        None
    } else {
        let value = parse_decimal_hundredths_spec(s.subrange(0, c));
        let duration = parse_digits_spec(s.subrange(c + 1, s.len() as int));
        match (value, duration) {
            (Some(v), Some(d)) => Some((v, d)),
            _ => None,
        }
    }
}

/// Parses a "value:duration" parameter pair.
fn parse_value_duration(s: &str) -> (r: Option<(i64, i64)>)
    ensures
        match r {
            Some(p) => parse_value_duration_spec(s@) == Some((p.0 as int, p.1 as int)) && 0 <= p.0
                <= 99_999_999_999 && 0 <= p.1 <= 999_999_999,
            None => parse_value_duration_spec(s@) is None,
        },
{
    let n = s.unicode_len();
    let c = find_char_exec(s, ':');
    if c >= n {
        return None;
    }
    let value_part = s.substring_char(0, c);
    let duration_part = s.substring_char(c + 1, n);
    match (parse_decimal_hundredths(value_part), parse_digits(duration_part)) {
        (Some(v), Some(d)) => Some((v, d)),
        _ => None,
    }
}

/// What a whole effect descriptor means: a kind tag before the first
/// colon, then the kind's parameters.  An unknown tag is refused as
/// `UnknownEffect`; a known tag with malformed parameters as
/// `ValidationError`.
pub open spec fn parse_effect_spec(s: Seq<char>) -> Result<ItemEffect, EngineError> {
    let c = find_char(s, ':');
    let kind = s.subrange(0, c);
    if kind == "restore_health"@ {
        if c >= s.len() {
            Err(EngineError::ValidationError)
        } else {
            match parse_digits_spec(s.subrange(c + 1, s.len() as int)) {
                Some(v) => Ok(ItemEffect::RestoreHealth { amount: v as i64 }),
                None => Err(EngineError::ValidationError),
            }
        }
    } else if kind == "xp_multiplier"@ {
        if c >= s.len() {
            Err(EngineError::ValidationError)
        } else {
            match parse_value_duration_spec(s.subrange(c + 1, s.len() as int)) {
                Some(p) => Ok(
                    ItemEffect::XpMultiplier {
                        value_hundredths: p.0 as i64,
                        duration_minutes: p.1 as i64,
                    },
                ),
                None => Err(EngineError::ValidationError),
            }
        }
    } else if kind == "gold_multiplier"@ {
        if c >= s.len() {
            Err(EngineError::ValidationError)
        } else {
            match parse_value_duration_spec(s.subrange(c + 1, s.len() as int)) {
                Some(p) => Ok(
                    ItemEffect::GoldMultiplier {
                        value_hundredths: p.0 as i64,
                        duration_minutes: p.1 as i64,
                    },
                ),
                None => Err(EngineError::ValidationError),
            }
        }
    } else if kind == "stat_boost"@ {
        if c >= s.len() {
            Err(EngineError::ValidationError)
        } else {
            let rest = s.subrange(c + 1, s.len() as int);
            let c2 = find_char(rest, ':');
            if c2 >= rest.len() {
                Err(EngineError::ValidationError)
            } else {
                match stat_of_spec(rest.subrange(0, c2)) {
                    Some(stat) => match parse_value_duration_spec(
                        rest.subrange(c2 + 1, rest.len() as int),
                    ) {
                        Some(p) => Ok(
                            ItemEffect::StatBoost {
                                stat,
                                value_hundredths: p.0 as i64,
                                duration_minutes: p.1 as i64,
                            },
                        ),
                        None => Err(EngineError::ValidationError),
                    },
                    None => Err(EngineError::ValidationError),
                }
            }
        }
    } else {
        Err(EngineError::UnknownEffect)
    }
}

/// Parses an effect descriptor.  Nothing is consumed or mutated by
/// parsing, so a refused descriptor costs its holder nothing.
pub fn parse_effect(s: &str) -> (r: Result<ItemEffect, EngineError>)
    ensures
        r == parse_effect_spec(s@),
        match r {
            Ok(eff) => match eff {
                ItemEffect::RestoreHealth { amount } => 0 <= amount <= 999_999_999,
                ItemEffect::XpMultiplier { value_hundredths, duration_minutes } => 0
                    <= value_hundredths <= 99_999_999_999 && 0 <= duration_minutes <= 999_999_999,
                ItemEffect::GoldMultiplier { value_hundredths, duration_minutes } => 0
                    <= value_hundredths <= 99_999_999_999 && 0 <= duration_minutes <= 999_999_999,
                ItemEffect::StatBoost { stat, value_hundredths, duration_minutes } => 0
                    <= value_hundredths <= 99_999_999_999 && 0 <= duration_minutes <= 999_999_999,
            },
            Err(e) => e == EngineError::UnknownEffect || e == EngineError::ValidationError,
        },
{
    let n = s.unicode_len();
    let c = find_char_exec(s, ':');
    let kind = s.substring_char(0, c).to_owned();
    if kind.eq(&String::from_str("restore_health")) {
        if c >= n {
            return Err(EngineError::ValidationError);
        }
        match parse_digits(s.substring_char(c + 1, n)) {
            Some(v) => Ok(ItemEffect::RestoreHealth { amount: v }),
            None => Err(EngineError::ValidationError),
        }
    } else if kind.eq(&String::from_str("xp_multiplier")) {
        if c >= n {
            return Err(EngineError::ValidationError);
        }
        match parse_value_duration(s.substring_char(c + 1, n)) {
            Some(p) => Ok(
                ItemEffect::XpMultiplier { value_hundredths: p.0, duration_minutes: p.1 },
            ),
            None => Err(EngineError::ValidationError),
        }
    } else if kind.eq(&String::from_str("gold_multiplier")) {
        if c >= n {
            return Err(EngineError::ValidationError);
        }
        match parse_value_duration(s.substring_char(c + 1, n)) {
            Some(p) => Ok(
                ItemEffect::GoldMultiplier { value_hundredths: p.0, duration_minutes: p.1 },
            ),
            None => Err(EngineError::ValidationError),
        }
    } else if kind.eq(&String::from_str("stat_boost")) {
        if c >= n {
            return Err(EngineError::ValidationError);
        }
        let rest = s.substring_char(c + 1, n);
        let rest_len = rest.unicode_len();
        let c2 = find_char_exec(rest, ':');
        if c2 >= rest_len {
            return Err(EngineError::ValidationError);
        }
        match stat_of(rest.substring_char(0, c2)) {
            Some(stat) => match parse_value_duration(rest.substring_char(c2 + 1, rest_len)) {
                Some(p) => Ok(
                    ItemEffect::StatBoost {
                        stat,
                        value_hundredths: p.0,
                        duration_minutes: p.1,
                    },
                ),
                None => Err(EngineError::ValidationError),
            },
            None => Err(EngineError::ValidationError),
        }
    } else {
        Err(EngineError::UnknownEffect)
    }
}

/// What the static catalog pins down about the item a shop id
/// denotes: one fresh unit, obtained now, with the id's effect, stack
/// bound and name; an id outside the catalog gives the placeholder
/// item with no effect.
pub open spec fn catalog_item_spec(item_id: Seq<char>, r: InventoryItem, now: int) -> bool {
    &&& r.wf()
    &&& r.id@ == item_id
    &&& r.quantity == 1
    &&& r.obtained_at == now
    &&& ({
        if item_id == "health_potion_small"@ {
            &&& r.name@ == "Minor Health Potion"@
            &&& r.item_type@ == "consumable"@
            &&& r.effect matches Some(e) && e@ == "restore_health:25"@
            &&& r.max_stack == 99
        } else if item_id == "health_potion_large"@ {
            &&& r.name@ == "Major Health Potion"@
            &&& r.item_type@ == "consumable"@
            &&& r.effect matches Some(e) && e@ == "restore_health:100"@
            &&& r.max_stack == 99
        } else if item_id == "xp_boost"@ {
            &&& r.name@ == "XP Boost Elixir"@
            &&& r.item_type@ == "consumable"@
            &&& r.effect matches Some(e) && e@ == "xp_multiplier:2.0:30"@
            &&& r.max_stack == 10
        } else if item_id == "gold_boost_potion"@ {
            &&& r.name@ == "Fortune Elixir"@
            &&& r.item_type@ == "consumable"@
            &&& r.effect matches Some(e) && e@ == "gold_multiplier:1.5:60"@
            &&& r.max_stack == 99
        } else if item_id == "strength_potion"@ {
            &&& r.name@ == "Titan's Strength"@
            &&& r.item_type@ == "consumable"@
            &&& r.effect matches Some(e) && e@ == "stat_boost:strength:10:45"@
            &&& r.max_stack == 99
        } else if item_id == "title_novice"@ {
            &&& r.name@ == "Title: Quest Novice"@
            &&& r.item_type@ == "title"@
            &&& r.effect is None
            &&& r.max_stack == 1
        } else if item_id == "title_master"@ {
            &&& r.name@ == "Title: Quest Master"@
            &&& r.item_type@ == "title"@
            &&& r.effect is None
            &&& r.max_stack == 1
        } else {
            &&& r.name@ == "Unknown Item"@
            &&& r.item_type@ == "consumable"@
            &&& r.effect is None
            &&& r.max_stack == 1
        }
    })
}

/// The static item catalog: the purchasable item a shop id denotes,
/// as one fresh unit obtained now.  An id outside the catalog yields
/// the placeholder item with no effect.
pub fn get_item_data(item_id: &String, now_ms: i64) -> (r: InventoryItem)
    requires
        0 <= now_ms,
    ensures
        catalog_item_spec(item_id@, r, now_ms as int),
{
    if item_id.eq(&String::from_str("health_potion_small")) {
        InventoryItem {
            id: item_id.clone(),
            name: String::from_str("Minor Health Potion"),
            description: String::from_str("Restores 25 health points"),
            item_type: String::from_str("consumable"),
            effect: Some(String::from_str("restore_health:25")),
            quantity: 1,
            max_stack: 99,
            rarity: String::from_str("common"),
            icon: String::from_str("heart"),
            obtained_at: now_ms,
        }
    } else if item_id.eq(&String::from_str("health_potion_large")) {
        InventoryItem {
            id: item_id.clone(),
            name: String::from_str("Major Health Potion"),
            description: String::from_str("Restores 100 health points"),
            item_type: String::from_str("consumable"),
            effect: Some(String::from_str("restore_health:100")),
            quantity: 1,
            max_stack: 99,
            rarity: String::from_str("uncommon"),
            icon: String::from_str("heart"),
            obtained_at: now_ms,
        }
    } else if item_id.eq(&String::from_str("xp_boost")) {
        InventoryItem {
            id: item_id.clone(),
            name: String::from_str("XP Boost Elixir"),
            description: String::from_str("Doubles XP gains for 30 minutes"),
            item_type: String::from_str("consumable"),
            effect: Some(String::from_str("xp_multiplier:2.0:30")),
            quantity: 1,
            max_stack: 10,
            rarity: String::from_str("rare"),
            icon: String::from_str("zap"),
            obtained_at: now_ms,
        }
    } else if item_id.eq(&String::from_str("gold_boost_potion")) {
        InventoryItem {
            id: item_id.clone(),
            name: String::from_str("Fortune Elixir"),
            description: String::from_str("Increases gold gains by 50% for 60 minutes"),
            item_type: String::from_str("consumable"),
            effect: Some(String::from_str("gold_multiplier:1.5:60")),
            quantity: 1,
            max_stack: 99,
            rarity: String::from_str("uncommon"),
            icon: String::from_str("coins"),
            obtained_at: now_ms,
        }
    } else if item_id.eq(&String::from_str("strength_potion")) {
        InventoryItem {
            id: item_id.clone(),
            name: String::from_str("Titan's Strength"),
            description: String::from_str("Increases Strength by 10 for 45 minutes"),
            item_type: String::from_str("consumable"),
            effect: Some(String::from_str("stat_boost:strength:10:45")),
            quantity: 1,
            max_stack: 99,
            rarity: String::from_str("rare"),
            icon: String::from_str("zap"),
            obtained_at: now_ms,
        }
    } else if item_id.eq(&String::from_str("title_novice")) {
        InventoryItem {
            id: item_id.clone(),
            name: String::from_str("Title: Quest Novice"),
            description: String::from_str("Show your dedication to the quest system"),
            item_type: String::from_str("title"),
            effect: None,
            quantity: 1,
            max_stack: 1,
            rarity: String::from_str("common"),
            icon: String::from_str("star"),
            obtained_at: now_ms,
        }
    } else if item_id.eq(&String::from_str("title_master")) {
        InventoryItem {
            id: item_id.clone(),
            name: String::from_str("Title: Quest Master"),
            description: String::from_str("For those who have mastered the art of questing"),
            item_type: String::from_str("title"),
            effect: None,
            quantity: 1,
            max_stack: 1,
            rarity: String::from_str("epic"),
            icon: String::from_str("crown"),
            obtained_at: now_ms,
        }
    } else {
        InventoryItem {
            id: item_id.clone(),
            name: String::from_str("Unknown Item"),
            description: String::from_str("An unknown item"),
            item_type: String::from_str("consumable"),
            effect: None,
            quantity: 1,
            max_stack: 1,
            rarity: String::from_str("common"),
            icon: String::from_str("question"),
            obtained_at: now_ms,
        }
    }
}

} // verus!
