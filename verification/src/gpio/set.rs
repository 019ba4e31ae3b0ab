//! Configuring pins: each change is folded into its pin map and the whole new map
//! is written to the FPGA.

use vstd::prelude::*;
use crate::bus::{Bus, BusView};
use crate::bus::frame::{register_bytes, register_payload, Transaction};
use crate::bus::memory_map::fpga_address;
use crate::error::Error;
use crate::gpio::{Dimension, Gpio, PinMaps};
use crate::gpio::config::PinConfig;
use crate::gpio::pin_map::{apply_all, pin_levels, uniform, with_pin};

verus! {

/// The write that sends the whole map of `dimension` to its register.
pub open spec fn pin_write(dimension: Dimension, map: u16) -> Transaction {
    Transaction::register_write((fpga_address::GPIO + dimension.offset()) as u32, map)
}

/// What the pending transactions leave in the register of `dimension`: the payload
/// of the last write that goes to it, if any goes there.
pub open spec fn last_sent(pending: Seq<Transaction>, dimension: Dimension) -> Option<Seq<u8>>
    decreases pending.len(),
{
    if pending.len() == 0 {
        None
    } else if pending.last() is Write && pending.last().address() == fpga_address::GPIO
        + dimension.offset() {
        Some(pending.last()->payload)
    } else {
        last_sent(pending.drop_last(), dimension)
    }
}

/// The pin maps mirror the board: where a write to the register of a dimension is
/// pending, the last one carries the map of that dimension as it is now.
pub open spec fn mirrored(maps: PinMaps, pending: Seq<Transaction>) -> bool {
    forall|dimension: Dimension|
        (#[trigger] last_sent(pending, dimension)) is Some ==> last_sent(pending, dimension)->0
            == register_bytes(maps.get(dimension))
}

/// Whatever the pin maps hold, they mirror a board to which nothing is pending.
pub proof fn lemma_mirror_of_nothing(maps: PinMaps)
    ensures
        mirrored(maps, Seq::empty()),
{
}

/// Changing the map of a dimension and issuing the write of the new map keeps the
/// pin maps a mirror of the board.
pub proof fn lemma_mirror_kept(
    maps: PinMaps,
    pending: Seq<Transaction>,
    dimension: Dimension,
    map: u16,
)
    requires
        mirrored(maps, pending),
    ensures
        mirrored(maps.set(dimension, map), pending.push(pin_write(dimension, map))),
{
    let issued = pending.push(pin_write(dimension, map));
    assert(issued.drop_last() =~= pending);
    assert forall|other: Dimension| (#[trigger] last_sent(issued, other)) is Some implies last_sent(
        issued,
        other,
    )->0 == register_bytes(maps.set(dimension, map).get(other)) by {
        if other != dimension {
            assert(last_sent(issued, other) == last_sent(pending, other));
        }
    }
}

/// How many pins at the front of `pins` are pins of the board: the pins before the
/// first one above 15.
pub open spec fn accepted(pins: Seq<u8>) -> nat
    decreases pins.len(),
{
    if pins.len() > 0 && pins[0] <= 15 {
        1 + accepted(pins.drop_first())
    } else {
        0
    }
}

/// The writes that giving each pin of `pins` the level `level` issues, one for each
/// pin and in their order. Each carries the whole map as it is once that pin was set.
pub open spec fn pin_writes(dimension: Dimension, map: u16, pins: Seq<u8>, level: bool) -> Seq<
    Transaction,
> {
    Seq::new(
        pins.len(),
        |i: int| pin_write(dimension, apply_all(map, uniform(pins.take(i + 1), level))),
    )
}

/// `accepted(pins)` is `count` if the first `count` pins are pins of the board and
/// the next one, if there is one, is not.
pub proof fn lemma_accepted(pins: Seq<u8>, count: int)
    requires
        0 <= count <= pins.len(),
        forall|i: int| 0 <= i < count ==> pins[i] <= 15,
        count < pins.len() ==> pins[count] > 15,
    ensures
        accepted(pins) == count,
    decreases count,
{
    if count > 0 {
        lemma_accepted(pins.drop_first(), count - 1);
    }
}

/// One more pin set: the changes so far, and then that pin.
proof fn lemma_apply_next(map: u16, pins: Seq<u8>, level: bool, count: int)
    requires
        0 <= count < pins.len(),
    ensures
        apply_all(map, uniform(pins.take(count + 1), level)) == with_pin(
            apply_all(map, uniform(pins.take(count), level)),
            pins[count],
            level,
        ),
{
    let changes = uniform(pins.take(count + 1), level);
    assert(changes.drop_last() =~= uniform(pins.take(count), level));
    assert(changes.last() == (pins[count], level));
}

/// One more pin set: the writes so far, and then the write of the new map.
proof fn lemma_writes_next(dimension: Dimension, map: u16, pins: Seq<u8>, level: bool, count: int)
    requires
        0 <= count < pins.len(),
    ensures
        pin_writes(dimension, map, pins.take(count + 1), level) == pin_writes(
            dimension,
            map,
            pins.take(count),
            level,
        ).push(pin_write(dimension, apply_all(map, uniform(pins.take(count + 1), level)))),
{
    let longer = pin_writes(dimension, map, pins.take(count + 1), level);
    let shorter = pin_writes(dimension, map, pins.take(count), level);
    let last = pin_write(dimension, apply_all(map, uniform(pins.take(count + 1), level)));
    assert forall|i: int| 0 <= i < longer.len() implies longer[i] == shorter.push(last)[i] by {
        if i < count {
            assert(pins.take(count + 1).take(i + 1) =~= pins.take(count).take(i + 1));
        } else {
            assert(pins.take(count + 1).take(i + 1) =~= pins.take(count + 1));
        }
    }
    assert(longer =~= shorter.push(last));
}

impl Gpio {
    /// Configure a specific pin's mode, function or state.
    ///
    /// The configuration is folded into the pin map of its dimension, and exactly one
    /// write is issued: the whole new map, to the register of that dimension. A pin
    /// above 15 is refused: no map changes and nothing is issued.
    pub fn set_config<T>(&mut self, bus: &mut Bus, pin: u8, config: T) -> (outcome: Result<
        (),
        Error,
    >) where T: PinConfig
        requires
            old(bus)@.open,
        ensures
            pin > 15 ==> outcome == Err::<(), Error>(Error::InvalidPin) && final(self)@ == old(
                self,
            )@ && final(bus)@ == old(bus)@,
            pin <= 15 ==> outcome == Ok::<(), Error>(()) && final(self)@ == old(self)@.set(
                config.dimension(),
                with_pin(old(self)@.get(config.dimension()), pin, config.level()),
            ) && final(bus)@ == old(bus)@.issue(
                pin_write(
                    config.dimension(),
                    with_pin(old(self)@.get(config.dimension()), pin, config.level()),
                ),
            ),
            pin <= 15 ==> pin_levels(final(self)@.get(config.dimension())) == pin_levels(
                old(self)@.get(config.dimension()),
            ).update(pin as int, config.level()),
            mirrored(old(self)@, old(bus)@.pending) ==> mirrored(final(self)@, final(bus)@.pending),
    {
        // update and send pin config to matrix bus
        let (value, fpga_address_offset) = config.update_pin_map(pin, self)?;
        self.pin_set(bus, value, fpga_address_offset);
        proof {
            if mirrored(old(self)@, old(bus)@.pending) {
                lemma_mirror_kept(old(self)@, old(bus)@.pending, config.dimension(), value);
            }
        }

        Ok(())
    }

    /// Configure multiple pins' mode, function or state.
    ///
    /// The pins are taken in their order, and each is configured as by
    /// [`Gpio::set_config`], with a write of its own. The first pin above 15 stops the
    /// work with an error: the pins before it stay configured and their writes stay
    /// issued, and no pin after it is touched.
    pub fn set_configs<T>(&mut self, bus: &mut Bus, pins: &[u8], config: T) -> (outcome: Result<
        (),
        Error,
    >) where T: PinConfig
        requires
            old(bus)@.open,
        ensures
            outcome == (if accepted(pins@) == pins@.len() {
                Ok::<(), Error>(())
            } else {
                Err::<(), Error>(Error::InvalidPin)
            }),
            final(self)@ == old(self)@.set(
                config.dimension(),
                apply_all(
                    old(self)@.get(config.dimension()),
                    uniform(pins@.take(accepted(pins@) as int), config.level()),
                ),
            ),
            final(bus)@ == (BusView {
                pending: old(bus)@.pending + pin_writes(
                    config.dimension(),
                    old(self)@.get(config.dimension()),
                    pins@.take(accepted(pins@) as int),
                    config.level(),
                ),
                ..old(bus)@
            }),
            mirrored(old(self)@, old(bus)@.pending) ==> mirrored(final(self)@, final(bus)@.pending),
    {
        let ghost dimension = config.dimension();
        let ghost level = config.level();
        let ghost maps = self@;
        let ghost map = self@.get(dimension);
        let ghost queue = bus@;
        assert(queue.pending + pin_writes(dimension, map, pins@.take(0), level)
            =~= queue.pending);
        let mut i: usize = 0;
        while i < pins.len()
            invariant
                i <= pins@.len(),
                dimension == config.dimension(),
                level == config.level(),
                maps == old(self)@,
                queue == old(bus)@,
                map == maps.get(dimension),
                forall|j: int| 0 <= j < i ==> pins@[j] <= 15,
                self@ == maps.set(dimension, apply_all(map, uniform(pins@.take(i as int), level))),
                bus@ == (BusView {
                    pending: queue.pending + pin_writes(
                        dimension,
                        map,
                        pins@.take(i as int),
                        level,
                    ),
                    ..queue
                }),
                queue.open,
                mirrored(maps, queue.pending) ==> mirrored(self@, bus@.pending),
            decreases pins@.len() - i,
        {
            // update and send pin config to matrix bus
            let (value, fpga_address_offset) = match config.update_pin_map(pins[i], self) {
                Ok(update) => update,
                Err(error) => {
                    proof {
                        lemma_accepted(pins@, i as int);
                    }
                    return Err(error);
                },
            };
            let ghost issued = bus@.pending;
            self.pin_set(bus, value, fpga_address_offset);
            proof {
                if mirrored(maps, queue.pending) {
                    lemma_mirror_kept(
                        maps.set(dimension, apply_all(map, uniform(pins@.take(i as int), level))),
                        issued,
                        dimension,
                        value,
                    );
                }
                lemma_apply_next(map, pins@, level, i as int);
                lemma_writes_next(dimension, map, pins@, level, i as int);
                assert(bus@.pending =~= queue.pending + pin_writes(
                    dimension,
                    map,
                    pins@.take(i + 1),
                    level,
                ));
            }
            i = i + 1;
        }
        proof {
            lemma_accepted(pins@, pins@.len() as int);
            assert(pins@.take(pins@.len() as int) =~= pins@);
        }
        Ok(())
    }

    /// Shortener to set pin configurations: issues the write of `value` to the
    /// register that lies `address_offset` behind the GPIO base address.
    fn pin_set(&self, bus: &mut Bus, value: u16, address_offset: u16)
        requires
            old(bus)@.open,
        ensures
            final(bus)@ == old(bus)@.issue(
                Transaction::register_write((fpga_address::GPIO + address_offset) as u32, value),
            ),
    {
        // address to write to
        let address: u32 = fpga_address::GPIO as u32 + address_offset as u32;
        bus.write(address, register_payload(value));
    }
}

} // verus!
