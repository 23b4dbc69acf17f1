//! The pet's bounded vitals: four saturating counters and the mood and
//! health predicates derived from them.

use vstd::prelude::*;

verus! {

/// Largest value a stat can represent; saturating arithmetic keeps every
/// stat inside `[0, STAT_MAX]`.
pub const STAT_MAX: u8 = 255;

/// A pet at or above this hunger level wants food.
pub const HUNGER_THRESHOLD: u8 = 100;

/// A pet at or below this happiness level is cranky.
pub const CRANKY_THRESHOLD: u8 = 50;

/// A pet at or below this comfort level needs the toilet.
pub const TOILET_THRESHOLD: u8 = 50;

/// A pet at or above this hunger level falls sick. Deliberately above the
/// nominal ceiling of 100 used elsewhere: hunger can be pushed that far
/// only by prolonged neglect.
pub const SICK_HUNGER_THRESHOLD: u8 = 150;

/// Health regenerates only while it is below this ceiling.
pub const FULL_HEALTH: u8 = 100;

/// The value `v` clamped to the representable stat range `[0, STAT_MAX]`.
pub open spec fn clamped(v: int) -> u8 {
    if v < 0 {
        0u8
    } else if v > STAT_MAX {
        STAT_MAX
    } else {
        v as u8
    }
}

/// A single bounded counter. Modifications saturate at the ends of the
/// range instead of wrapping or failing.
#[derive(Debug, Clone, Copy, PartialEq, Eq)]
pub struct Stat(pub u8);

impl Stat {
    /// Adds `level` to the stat, saturating at `0` and at `STAT_MAX`.
    pub fn modify(&mut self, level: i8)
        ensures
            final(self).0 == clamped(old(self).0 + level),
    {
        let sum: i16 = self.0 as i16 + level as i16;
        self.0 = if sum < 0 {
            0
        } else if sum > STAT_MAX as i16 {
            STAT_MAX
        } else {
            sum as u8
        };
    }

    /// Returns the value of the stat.
    pub fn get(&self) -> (r: u8)
        ensures
            r == self.0,
    {
        self.0
    }

    /// Returns `true` if the stat is zero.
    pub fn is_zero(&self) -> (r: bool)
        ensures
            r == (self.0 == 0),
    {
        self.0 == 0
    }
}

/// Saturating stat arithmetic never leaves the representable range: for
/// every starting value and every signed delta the clamped result stays
/// within `[0, STAT_MAX]`.
pub proof fn lemma_clamped_in_range(v: u8, level: i8)
    ensures
        0 <= clamped(v + level) <= STAT_MAX,
{
}

/// Mathematical view of [`Vitals`]: the four counters as plain values.
pub struct VitalsView {
    pub hp: u8,
    pub hunger: u8,
    pub happiness: u8,
    pub comfort: u8,
}

impl VitalsView {
    /// The pet is sick when far too hungry or completely unhappy.
    pub open spec fn is_sick(self) -> bool {
        self.hunger >= SICK_HUNGER_THRESHOLD || self.happiness == 0
    }

    /// The pet is alive while its health is above zero.
    pub open spec fn is_alive(self) -> bool {
        self.hp != 0
    }

    /// The pet is cranky when its happiness is low.
    pub open spec fn is_cranky(self) -> bool {
        self.happiness <= CRANKY_THRESHOLD
    }

    /// An accident is triggered the moment comfort bottoms out.
    pub open spec fn is_poop(self) -> bool {
        self.comfort == 0
    }

    /// The pet wants food at high hunger.
    pub open spec fn needs_food(self) -> bool {
        self.hunger >= HUNGER_THRESHOLD
    }

    /// The pet needs the toilet at low comfort.
    pub open spec fn needs_toilet(self) -> bool {
        self.comfort <= TOILET_THRESHOLD
    }

    /// Hunger after a gated modification: a cranky pet refuses food, so
    /// the change applies only while the pet is not cranky.
    pub open spec fn with_hunger_modified(self, level: i8) -> VitalsView {
        if self.is_cranky() {
            self
        } else {
            VitalsView { hunger: clamped(self.hunger + level), ..self }
        }
    }

    /// Happiness after a saturating modification.
    pub open spec fn with_happiness_modified(self, level: i8) -> VitalsView {
        VitalsView { happiness: clamped(self.happiness + level), ..self }
    }

    /// Comfort after a saturating modification.
    pub open spec fn with_comfort_modified(self, level: i8) -> VitalsView {
        VitalsView { comfort: clamped(self.comfort + level), ..self }
    }

    /// Health after a saturating modification.
    pub open spec fn with_hp_modified(self, level: i8) -> VitalsView {
        VitalsView { hp: clamped(self.hp + level), ..self }
    }
}

/// The current vitals of the pet.
#[derive(Debug, Clone, Copy, PartialEq, Eq)]
pub struct Vitals {
    hp: Stat,
    hunger: Stat,
    happiness: Stat,
    comfort: Stat,
}

impl View for Vitals {
    type V = VitalsView;

    closed spec fn view(&self) -> VitalsView {
        VitalsView {
            hp: self.hp.0,
            hunger: self.hunger.0,
            happiness: self.happiness.0,
            comfort: self.comfort.0,
        }
    }
}

impl Default for Vitals {
    /// Vitals of a newborn pet.
    fn default() -> (r: Vitals)
        ensures
            r@ == (VitalsView { hp: 100u8, hunger: 50u8, happiness: 100u8, comfort: 100u8 }),
    {
        Vitals { hp: Stat(100), hunger: Stat(50), happiness: Stat(100), comfort: Stat(100) }
    }
}

impl Vitals {
    /// Builds vitals from the four counter values.
    pub fn new(hp: u8, hunger: u8, happiness: u8, comfort: u8) -> (r: Vitals)
        ensures
            r@ == (VitalsView { hp, hunger, happiness, comfort }),
    {
        Vitals { hp: Stat(hp), hunger: Stat(hunger), happiness: Stat(happiness), comfort: Stat(comfort) }
    }

    /// Current health points.
    pub fn hp(&self) -> (r: u8)
        ensures
            r == self@.hp,
    {
        self.hp.get()
    }

    /// Current hunger level.
    pub fn hunger(&self) -> (r: u8)
        ensures
            r == self@.hunger,
    {
        self.hunger.get()
    }

    /// Current happiness level.
    pub fn happiness(&self) -> (r: u8)
        ensures
            r == self@.happiness,
    {
        self.happiness.get()
    }

    /// Current comfort level.
    pub fn comfort(&self) -> (r: u8)
        ensures
            r == self@.comfort,
    {
        self.comfort.get()
    }

    /// Changes the hunger of the pet.
    ///
    /// The pet can only eat when it is not cranky: while cranky, the call
    /// leaves the vitals untouched.
    pub fn modify_hunger(&mut self, level: i8)
        ensures
            final(self)@ == old(self)@.with_hunger_modified(level),
    {
        if !self.is_cranky() {
            self.hunger.modify(level);
        }
    }

    /// Changes the happiness of the pet.
    pub fn modify_happiness(&mut self, level: i8)
        ensures
            final(self)@ == old(self)@.with_happiness_modified(level),
    {
        self.happiness.modify(level);
    }

    /// Changes the comfort of the pet. Comfort determines whether the pet
    /// needs to go to the bathroom.
    pub fn modify_comfort(&mut self, level: i8)
        ensures
            final(self)@ == old(self)@.with_comfort_modified(level),
    {
        self.comfort.modify(level);
    }

    /// Changes the health points of the pet.
    pub fn modify_hp(&mut self, level: i8)
        ensures
            final(self)@ == old(self)@.with_hp_modified(level),
    {
        self.hp.modify(level);
    }

    /// The pet becomes sick when it is far too hungry or fully unhappy.
    pub fn is_sick(&self) -> (r: bool)
        ensures
            r == self@.is_sick(),
    {
        self.hunger.get() >= SICK_HUNGER_THRESHOLD || self.happiness.is_zero()
    }

    /// Returns whether the pet is alive.
    pub fn is_alive(&self) -> (r: bool)
        ensures
            r == self@.is_alive(),
    {
        !self.hp.is_zero()
    }

    /// Returns whether the pet is in a cranky mood.
    pub fn is_cranky(&self) -> (r: bool)
        ensures
            r == self@.is_cranky(),
    {
        self.happiness.get() <= CRANKY_THRESHOLD
    }

    /// Returns whether an accident is due.
    pub fn is_poop(&self) -> (r: bool)
        ensures
            r == self@.is_poop(),
    {
        self.comfort.is_zero()
    }

    /// Returns whether the pet is hungry.
    pub fn needs_food(&self) -> (r: bool)
        ensures
            r == self@.needs_food(),
    {
        self.hunger.get() >= HUNGER_THRESHOLD
    }

    /// Returns whether the pet needs to go to the bathroom.
    pub fn needs_toilet(&self) -> (r: bool)
        ensures
            r == self@.needs_toilet(),
    {
        self.comfort.get() <= TOILET_THRESHOLD
    }
}

/// Every vitals value keeps all four stats inside `[0, STAT_MAX]`: the
/// representation admits nothing outside the range, so no sequence of
/// operations can escape it.
pub proof fn lemma_vitals_in_range(v: VitalsView)
    ensures
        0 <= v.hp <= STAT_MAX,
        0 <= v.hunger <= STAT_MAX,
        0 <= v.happiness <= STAT_MAX,
        0 <= v.comfort <= STAT_MAX,
{
}

} // verus!
