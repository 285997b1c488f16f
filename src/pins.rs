use vstd::prelude::*;

use crate::i2c::I2C1Pair;

verus! {

/// Alternate-function mode of a pin, with its output driver `M`.
pub struct Alternate<M> {
    pub driver: M,
}

/// Open-drain output driver.
pub struct OpenDrain;

/// Push-pull output driver.
pub struct PushPull;

/// Port C, pin 1.
pub struct PC1<MODE> {
    pub mode: MODE,
}

/// Port C, pin 2.
pub struct PC2<MODE> {
    pub mode: MODE,
}

/// Port C, pin 5.
pub struct PC5<MODE> {
    pub mode: MODE,
}

/// Port C, pin 6.
pub struct PC6<MODE> {
    pub mode: MODE,
}

/// Port D, pin 0.
pub struct PD0<MODE> {
    pub mode: MODE,
}

/// Port D, pin 1.
pub struct PD1<MODE> {
    pub mode: MODE,
}

/// Default pin mapping (0b00). Open drain is recommended, push-pull works.
impl<T, U> I2C1Pair for (PC2<Alternate<T>>, PC1<Alternate<U>>) {
    open spec fn spec_remap_bits() -> (bool, bool) {
        (false, false)
    }

    fn remap_bits() -> (r: (bool, bool)) {
        (false, false)
    }
}

/// Remapping option 2 (0b01).
impl<T, U> I2C1Pair for (PD1<Alternate<T>>, PD0<Alternate<U>>) {
    open spec fn spec_remap_bits() -> (bool, bool) {
        (false, true)
    }

    fn remap_bits() -> (r: (bool, bool)) {
        (false, true)
    }
}

/// Remapping option 3 (0b1X).
impl<T, U> I2C1Pair for (PC5<Alternate<T>>, PC6<Alternate<U>>) {
    open spec fn spec_remap_bits() -> (bool, bool) {
        (true, false)
    }

    fn remap_bits() -> (r: (bool, bool)) {
        (true, false)
    }
}

} // verus!
