//! The model of a pin map: sixteen levels, one bit for each of the pins 0 to 15.

use vstd::prelude::*;
use vstd::seq_lib::to_multiset_contains;

verus! {

/// The bit that stands for `level`.
pub open spec fn level_bit(level: bool) -> u16 {
    if level {
        1u16
    } else {
        0u16
    }
}

/// The level that `map` holds for `pin`.
pub open spec fn pin_level(map: u16, pin: u8) -> bool {
    (map >> pin) & 1u16 == 1u16
}

/// The sixteen levels of `map`, pin 0 first.
pub open spec fn pin_levels(map: u16) -> Seq<bool> {
    Seq::new(16, |i: int| pin_level(map, i as u8))
}

/// `map` with the bit of `pin` cleared and then set to `level`.
pub open spec fn with_pin(map: u16, pin: u8, level: bool) -> u16 {
    (level_bit(level) << pin) | (map & !(1u16 << pin))
}

/// `map` after each change of `changes`, a pin and its new level, was made in turn.
pub open spec fn apply_all(map: u16, changes: Seq<(u8, bool)>) -> u16
    decreases changes.len(),
{
    if changes.len() == 0 {
        map
    } else {
        with_pin(apply_all(map, changes.drop_last()), changes.last().0, changes.last().1)
    }
}

/// The changes that give every pin of `pins` the same `level`.
pub open spec fn uniform(pins: Seq<u8>, level: bool) -> Seq<(u8, bool)> {
    Seq::new(pins.len(), |i: int| (pins[i], level))
}

/// Every pin of `changes` is a pin of the board.
pub open spec fn pins_valid(changes: Seq<(u8, bool)>) -> bool {
    forall|k: int| 0 <= k < changes.len() ==> (#[trigger] changes[k]).0 < 16
}

/// No pin is changed twice.
pub open spec fn pins_distinct(changes: Seq<(u8, bool)>) -> bool {
    forall|j: int, k: int|
        0 <= j < k < changes.len() ==> (#[trigger] changes[j]).0 != (#[trigger] changes[k]).0
}

/// The level of `pin` once `changes` were made to `map`, whatever their order: the level
/// that a change gives it, or else the level it had.
pub open spec fn level_after(map: u16, changes: Seq<(u8, bool)>, pin: u8) -> bool {
    if changes.contains((pin, true)) {
        true
    } else if changes.contains((pin, false)) {
        false
    } else {
        pin_level(map, pin)
    }
}

/// The bits of the pins that `changes` change.
pub open spec fn changed_mask(changes: Seq<(u8, bool)>) -> u16
    decreases changes.len(),
{
    if changes.len() == 0 {
        0u16
    } else {
        changed_mask(changes.drop_last()) | (1u16 << changes.last().0)
    }
}

/// The bits of the pins to which `changes` give the level one.
pub open spec fn changed_bits(changes: Seq<(u8, bool)>) -> u16
    decreases changes.len(),
{
    if changes.len() == 0 {
        0u16
    } else {
        changed_bits(changes.drop_last()) | (level_bit(changes.last().1) << changes.last().0)
    }
}

/// Setting a pin gives that pin the new level and leaves every other pin as it was.
pub proof fn lemma_with_pin_level(map: u16, pin: u8, level: bool, other: u8)
    requires
        pin < 16,
        other < 16,
    ensures
        pin_level(with_pin(map, pin, level), other) == (if other == pin {
            level
        } else {
            pin_level(map, other)
        }),
{
    assert(pin_level(with_pin(map, pin, level), other) == (if other == pin {
        level
    } else {
        pin_level(map, other)
    })) by (bit_vector)
        requires
            pin < 16,
            other < 16,
    ;
}

/// Setting a pin replaces one entry of the sixteen levels.
pub proof fn lemma_with_pin_levels(map: u16, pin: u8, level: bool)
    requires
        pin < 16,
    ensures
        pin_levels(with_pin(map, pin, level)) == pin_levels(map).update(pin as int, level),
{
    let after = pin_levels(with_pin(map, pin, level));
    let expected = pin_levels(map).update(pin as int, level);
    assert forall|i: int| 0 <= i < 16 implies after[i] == expected[i] by {
        lemma_with_pin_level(map, pin, level, i as u8);
    }
    assert(after =~= expected);
}

/// Two maps with the same sixteen levels are the same map.
pub proof fn lemma_levels_determine_map(a: u16, b: u16)
    requires
        pin_levels(a) == pin_levels(b),
    ensures
        a == b,
{
    assert forall|i: u8| i < 16 implies pin_level(a, i) == pin_level(b, i) by {
        assert(pin_levels(a)[i as int] == pin_level(a, i));
        assert(pin_levels(b)[i as int] == pin_level(b, i));
    }
    assert(pin_level(a, 0) == pin_level(b, 0) && pin_level(a, 1) == pin_level(b, 1)
        && pin_level(a, 2) == pin_level(b, 2) && pin_level(a, 3) == pin_level(b, 3)
        && pin_level(a, 4) == pin_level(b, 4) && pin_level(a, 5) == pin_level(b, 5)
        && pin_level(a, 6) == pin_level(b, 6) && pin_level(a, 7) == pin_level(b, 7)
        && pin_level(a, 8) == pin_level(b, 8) && pin_level(a, 9) == pin_level(b, 9)
        && pin_level(a, 10) == pin_level(b, 10) && pin_level(a, 11) == pin_level(b, 11)
        && pin_level(a, 12) == pin_level(b, 12) && pin_level(a, 13) == pin_level(b, 13)
        && pin_level(a, 14) == pin_level(b, 14) && pin_level(a, 15) == pin_level(b, 15));
    assert(a == b) by (bit_vector)
        requires
            pin_level(a, 0) == pin_level(b, 0) && pin_level(a, 1) == pin_level(b, 1)
                && pin_level(a, 2) == pin_level(b, 2) && pin_level(a, 3) == pin_level(b, 3)
                && pin_level(a, 4) == pin_level(b, 4) && pin_level(a, 5) == pin_level(b, 5)
                && pin_level(a, 6) == pin_level(b, 6) && pin_level(a, 7) == pin_level(b, 7)
                && pin_level(a, 8) == pin_level(b, 8) && pin_level(a, 9) == pin_level(b, 9)
                && pin_level(a, 10) == pin_level(b, 10) && pin_level(a, 11) == pin_level(b, 11)
                && pin_level(a, 12) == pin_level(b, 12) && pin_level(a, 13) == pin_level(b, 13)
                && pin_level(a, 14) == pin_level(b, 14) && pin_level(a, 15) == pin_level(b, 15),
    ;
}

/// Setting a pin twice is the same as setting it the second time only.
pub proof fn lemma_last_level_stays(map: u16, pin: u8, first: bool, second: bool)
    requires
        pin < 16,
    ensures
        with_pin(with_pin(map, pin, first), pin, second) == with_pin(map, pin, second),
{
    assert(with_pin(with_pin(map, pin, first), pin, second) == with_pin(map, pin, second))
        by (bit_vector)
        requires
            pin < 16,
    ;
}

/// Giving a pin another level and then its old level again restores the map, bit for
/// bit.
pub proof fn lemma_level_restored(map: u16, pin: u8, level: bool)
    requires
        pin < 16,
        pin_level(map, pin) == level,
    ensures
        with_pin(with_pin(map, pin, !level), pin, level) == map,
{
    assert(with_pin(with_pin(map, pin, !level), pin, level) == map) by (bit_vector)
        requires
            pin < 16,
            pin_level(map, pin) == level,
    ;
}

/// After changes to distinct pins, each changed pin has the level that its change
/// gave it, and every other pin has the level it had: the map is made of the single
/// changes, bit by bit.
pub proof fn lemma_changes_compose(map: u16, changes: Seq<(u8, bool)>, pin: u8)
    requires
        pins_valid(changes),
        pins_distinct(changes),
        pin < 16,
    ensures
        pin_level(apply_all(map, changes), pin) == level_after(map, changes, pin),
    decreases changes.len(),
{
    if changes.len() > 0 {
        let rest = changes.drop_last();
        let last = changes.last();
        let end = changes.len() - 1;
        assert forall|k: int| 0 <= k < rest.len() implies #[trigger] rest[k] == changes[k] by {}
        lemma_changes_compose(map, rest, pin);
        lemma_with_pin_level(apply_all(map, rest), last.0, last.1, pin);
        assert forall|level: bool| #[trigger]
            changes.contains((pin, level)) == (rest.contains((pin, level)) || last == (
                pin,
                level,
            )) by {
            if rest.contains((pin, level)) {
                let k = choose|k: int| 0 <= k < rest.len() && rest[k] == (pin, level);
                assert(changes[k] == (pin, level));
            }
            if last == (pin, level) {
                assert(changes[end] == (pin, level));
            }
            if changes.contains((pin, level)) {
                let k = choose|k: int| 0 <= k < changes.len() && changes[k] == (pin, level);
                if k < end {
                    assert(rest[k] == (pin, level));
                }
            }
        }
        if pin == last.0 {
            assert forall|level: bool| !rest.contains((pin, level)) by {
                if rest.contains((pin, level)) {
                    let k = choose|k: int| 0 <= k < rest.len() && rest[k] == (pin, level);
                    assert(changes[k].0 == changes[end].0);
                }
            }
        }
    }
}

/// Changes to distinct pins give the same map in whatever order they are made.
pub proof fn lemma_changes_commute(map: u16, first: Seq<(u8, bool)>, second: Seq<(u8, bool)>)
    requires
        pins_valid(first),
        pins_distinct(first),
        first.to_multiset() == second.to_multiset(),
    ensures
        apply_all(map, first) == apply_all(map, second),
{
    lemma_same_changes(first, second);
    let a = apply_all(map, first);
    let b = apply_all(map, second);
    assert forall|i: int| 0 <= i < 16 implies pin_levels(a)[i] == pin_levels(b)[i] by {
        let pin = i as u8;
        lemma_changes_compose(map, first, pin);
        lemma_changes_compose(map, second, pin);
        to_multiset_contains(first, (pin, true));
        to_multiset_contains(second, (pin, true));
        to_multiset_contains(first, (pin, false));
        to_multiset_contains(second, (pin, false));
    }
    assert(pin_levels(a) =~= pin_levels(b));
    lemma_levels_determine_map(a, b);
}

/// A rearrangement of changes to distinct pins of the board is again made of changes
/// to distinct pins of the board.
proof fn lemma_same_changes(first: Seq<(u8, bool)>, second: Seq<(u8, bool)>)
    requires
        pins_valid(first),
        pins_distinct(first),
        first.to_multiset() == second.to_multiset(),
    ensures
        pins_valid(second),
        pins_distinct(second),
{
    assert forall|k: int| 0 <= k < second.len() implies first.contains(#[trigger] second[k]) by {
        assert(second.contains(second[k]));
        to_multiset_contains(second, second[k]);
        to_multiset_contains(first, second[k]);
    }
    assert forall|k: int| 0 <= k < second.len() implies (#[trigger] second[k]).0 < 16 by {
        let j = choose|j: int| 0 <= j < first.len() && first[j] == second[k];
        assert(first[j].0 < 16);
    }
    assert(first.no_duplicates()) by {
        assert forall|i: int, j: int| 0 <= i < first.len() && 0 <= j < first.len() && i
            != j implies first[i] != first[j] by {
            if i < j {
                assert(first[i].0 != first[j].0);
            } else {
                assert(first[j].0 != first[i].0);
            }
        }
    }
    first.lemma_multiset_has_no_duplicates();
    second.lemma_multiset_has_no_duplicates_conv();
    assert forall|j: int, k: int| 0 <= j < k < second.len() implies (#[trigger] second[j]).0 != (
    #[trigger] second[k]).0 by {
        if second[j].0 == second[k].0 {
            assert(second[j] != second[k]);
            let a = choose|a: int| 0 <= a < first.len() && first[a] == second[j];
            let b = choose|b: int| 0 <= b < first.len() && first[b] == second[k];
            if a < b {
                assert(first[a].0 != first[b].0);
            } else {
                assert(first[b].0 != first[a].0);
            }
        }
    }
}

/// The mask of the changed pins holds no pin that no change names, and the new bits
/// lie within the mask.
proof fn lemma_mask_holds_changed_pins(changes: Seq<(u8, bool)>, pin: u8)
    requires
        pins_valid(changes),
        pin < 16,
        forall|k: int| 0 <= k < changes.len() ==> (#[trigger] changes[k]).0 != pin,
    ensures
        changed_mask(changes) & (1u16 << pin) == 0,
        changed_bits(changes) & !changed_mask(changes) == 0,
    decreases changes.len(),
{
    if changes.len() == 0 {
        assert(0u16 & (1u16 << pin) == 0 && 0u16 & !0u16 == 0) by (bit_vector);
    } else {
        let rest = changes.drop_last();
        let last = changes.last();
        assert forall|k: int| 0 <= k < rest.len() implies #[trigger] rest[k] == changes[k] by {}
        assert(changes[changes.len() - 1] == last);
        lemma_mask_holds_changed_pins(rest, pin);
        let mask = changed_mask(rest);
        let bits = changed_bits(rest);
        let bit = level_bit(last.1);
        let other = last.0;
        assert((mask | (1u16 << other)) & (1u16 << pin) == 0 && (bits | (bit << other)) & !(mask
            | (1u16 << other)) == 0) by (bit_vector)
            requires
                mask & (1u16 << pin) == 0,
                bits & !mask == 0,
                other != pin,
                other < 16,
                pin < 16,
                bit <= 1,
        ;
    }
}

/// After changes to distinct pins the map is made of two parts: the new bits of
/// the changed pins, and the old bits of all the others.
pub proof fn lemma_changes_masked(map: u16, changes: Seq<(u8, bool)>)
    requires
        pins_valid(changes),
        pins_distinct(changes),
    ensures
        apply_all(map, changes) == changed_bits(changes) | (map & !changed_mask(changes)),
    decreases changes.len(),
{
    if changes.len() == 0 {
        assert(map == 0u16 | (map & !0u16)) by (bit_vector);
    } else {
        let rest = changes.drop_last();
        let last = changes.last();
        let end = changes.len() - 1;
        assert forall|k: int| 0 <= k < rest.len() implies #[trigger] rest[k] == changes[k] by {}
        assert(changes[end] == last);
        lemma_changes_masked(map, rest);
        assert forall|k: int| 0 <= k < rest.len() implies (#[trigger] rest[k]).0 != last.0 by {
            assert(changes[k].0 != changes[end].0);
        }
        lemma_mask_holds_changed_pins(rest, last.0);
        let mask = changed_mask(rest);
        let bits = changed_bits(rest);
        let bit = level_bit(last.1);
        let pin = last.0;
        assert((bit << pin) | ((bits | (map & !mask)) & !(1u16 << pin)) == (bits | (bit << pin)) | (
        map & !(mask | (1u16 << pin)))) by (bit_vector)
            requires
                mask & (1u16 << pin) == 0,
                bits & !mask == 0,
                pin < 16,
        ;
    }
}

} // verus!
