//! Buffs: modifiers that loot applies to an entity or to its projectiles.

use vstd::prelude::*;

verus! {

/// How rare a piece of loot is.
#[derive(Clone, Copy, Debug, PartialEq, Eq, Structural)]
pub enum LootRarity {
    Common,
    Uncommon,
    Rare,
    Legendary,
}

/// How the value of a buff combines with the value that it modifies.
#[derive(Clone, Copy, Debug, PartialEq, Eq, Structural)]
pub enum Combination {
    /// The value of the buff replaces the old value.
    Replace,
    /// The value of the buff is added to the old value.
    Add,
    /// The old value is multiplied by the value of the buff.
    Multiply,
}

/// What every buff holds: the index of its icon on the sprite sheet and the
/// number of rows of that sheet, its rarity, its value, and how the value is
/// combined.
#[derive(Clone, Copy, Debug, PartialEq, Eq, Structural)]
pub struct BuffData {
    pub sprite_idx: u32,
    pub sprite_rows: u32,
    pub rarity: LootRarity,
    pub modified_value: u32,
    pub combination: Combination,
}

impl BuffData {
    /// The data of a buff with value zero that replaces what it modifies.
    pub fn new(sprite_idx: u32, sprite_rows: u32, rarity: LootRarity) -> (r: BuffData)
        ensures
            r == (BuffData {
                sprite_idx,
                sprite_rows,
                rarity,
                modified_value: 0,
                combination: Combination::Replace,
            }),
    {
        BuffData {
            sprite_idx,
            sprite_rows,
            rarity,
            modified_value: 0,
            combination: Combination::Replace,
        }
    }

    /// The same data with another value.
    pub fn set_modified_value(self, value: u32) -> (r: BuffData)
        ensures
            r == (BuffData { modified_value: value, ..self }),
    {
        BuffData { modified_value: value, ..self }
    }

    /// The same data, with the value to be added.
    pub fn is_additive(self) -> (r: BuffData)
        ensures
            r == (BuffData { combination: Combination::Add, ..self }),
    {
        BuffData { combination: Combination::Add, ..self }
    }

    /// The same data, with the value to be multiplied by.
    pub fn is_multiplicative(self) -> (r: BuffData)
        ensures
            r == (BuffData { combination: Combination::Multiply, ..self }),
    {
        BuffData { combination: Combination::Multiply, ..self }
    }

    /// The value that comes of applying the buff to `current`.
    pub open spec fn combined(self, current: u32) -> int {
        match self.combination {
            Combination::Replace => self.modified_value as int,
            Combination::Add => current + self.modified_value,
            Combination::Multiply => current * self.modified_value,
        }
    }

    /// The value that comes of applying the buff to `current`, or `None` if
    /// it is too large for a `u32`.
    pub fn apply(&self, current: u32) -> (r: Option<u32>)
        ensures
            match r {
                Some(v) => v == self.combined(current),
                None => self.combined(current) > u32::MAX,
            },
    {
        match self.combination {
            Combination::Replace => Some(self.modified_value),
            Combination::Add => current.checked_add(self.modified_value),
            Combination::Multiply => current.checked_mul(self.modified_value),
        }
    }
}

/// A buff on the greatest number of hit points that an entity can have.
#[derive(Clone, Copy, Debug, PartialEq, Eq, Structural)]
pub struct EntityHitPointBuff {
    pub data: BuffData,
}

impl EntityHitPointBuff {
    /// A common buff that sets the hit points to `value`.
    pub fn new(value: u32) -> (r: EntityHitPointBuff)
        ensures
            r.data == (BuffData {
                sprite_idx: 8,
                sprite_rows: 5,
                rarity: LootRarity::Common,
                modified_value: value,
                combination: Combination::Replace,
            }),
    {
        EntityHitPointBuff { data: BuffData::new(8, 5, LootRarity::Common).set_modified_value(value) }
    }

    /// The same buff, adding its value to the hit points.
    pub fn modify_additivily(self) -> (r: EntityHitPointBuff)
        ensures
            r.data == (BuffData { combination: Combination::Add, ..self.data }),
    {
        EntityHitPointBuff { data: self.data.is_additive() }
    }

    /// The same buff, multiplying the hit points by its value.
    pub fn modify_multiplicatively(self) -> (r: EntityHitPointBuff)
        ensures
            r.data == (BuffData { combination: Combination::Multiply, ..self.data }),
    {
        EntityHitPointBuff { data: self.data.is_multiplicative() }
    }

    /// The data of the buff.
    pub fn data(&self) -> (r: &BuffData)
        ensures
            *r == self.data,
    {
        &self.data
    }

    /// The greatest number of hit points of an entity that has `max_hit_points`
    /// now, once the buff is applied; `None` if the number is too large for a `u32`.
    pub fn apply_to_entity(&self, max_hit_points: u32) -> (r: Option<u32>)
        ensures
            match r {
                Some(v) => v == self.data.combined(max_hit_points),
                None => self.data.combined(max_hit_points) > u32::MAX,
            },
    {
        self.data.apply(max_hit_points)
    }
}

/// A buff that turns the primary projectiles of an entity electric.
#[derive(Clone, Copy, Debug, PartialEq, Eq, Structural)]
pub struct ElectricProjectileBuff {
    pub data: BuffData,
}

impl ElectricProjectileBuff {
    /// The buff: rare, with value zero.
    pub fn new() -> (r: ElectricProjectileBuff)
        ensures
            r.data == (BuffData {
                sprite_idx: 20,
                sprite_rows: 5,
                rarity: LootRarity::Rare,
                modified_value: 0,
                combination: Combination::Replace,
            }),
    {
        ElectricProjectileBuff { data: BuffData::new(20, 5, LootRarity::Rare) }
    }

    /// The same buff, marked as additive.
    pub fn modify_additivily(self) -> (r: ElectricProjectileBuff)
        ensures
            r.data == (BuffData { combination: Combination::Add, ..self.data }),
    {
        ElectricProjectileBuff { data: self.data.is_additive() }
    }

    /// The same buff, marked as multiplicative.
    pub fn modify_multiplicatively(self) -> (r: ElectricProjectileBuff)
        ensures
            r.data == (BuffData { combination: Combination::Multiply, ..self.data }),
    {
        ElectricProjectileBuff { data: self.data.is_multiplicative() }
    }

    /// The data of the buff.
    pub fn data(&self) -> (r: &BuffData)
        ensures
            *r == self.data,
    {
        &self.data
    }
}

} // verus!
