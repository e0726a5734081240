use twinstick::buffs::{
    BuffData, Combination, ElectricProjectileBuff, EntityHitPointBuff, LootRarity,
};

#[test]
fn buff_data_starts_as_a_replacement_by_zero() {
    let data = BuffData::new(8, 5, LootRarity::Common);
    assert_eq!(
        data,
        BuffData {
            sprite_idx: 8,
            sprite_rows: 5,
            rarity: LootRarity::Common,
            modified_value: 0,
            combination: Combination::Replace,
        }
    );
    assert_eq!(data.set_modified_value(9).modified_value, 9);
    assert_eq!(data.is_additive().combination, Combination::Add);
    assert_eq!(data.is_multiplicative().combination, Combination::Multiply);
    assert_eq!(data.is_additive().is_multiplicative().combination, Combination::Multiply);
}

#[test]
fn a_hit_point_buff_sets_adds_or_multiplies() {
    let buff = EntityHitPointBuff::new(30);
    assert_eq!(buff.data().rarity, LootRarity::Common);
    assert_eq!(buff.data().sprite_idx, 8);
    assert_eq!(buff.data().sprite_rows, 5);
    assert_eq!(buff.apply_to_entity(100), Some(30));
    assert_eq!(buff.modify_additivily().apply_to_entity(100), Some(130));
    assert_eq!(buff.modify_multiplicatively().apply_to_entity(100), Some(3000));
    assert_eq!(buff.modify_multiplicatively().apply_to_entity(0), Some(0));
    assert_eq!(EntityHitPointBuff::new(0).modify_multiplicatively().apply_to_entity(7), Some(0));
}

#[test]
fn a_hit_point_buff_that_does_not_fit_gives_nothing() {
    let buff = EntityHitPointBuff::new(2);
    assert_eq!(buff.modify_additivily().apply_to_entity(u32::MAX - 2), Some(u32::MAX));
    assert_eq!(buff.modify_additivily().apply_to_entity(u32::MAX - 1), None);
    assert_eq!(buff.modify_multiplicatively().apply_to_entity(u32::MAX / 2), Some(u32::MAX - 1));
    assert_eq!(buff.modify_multiplicatively().apply_to_entity(u32::MAX / 2 + 1), None);
    assert_eq!(buff.apply_to_entity(u32::MAX), Some(2));
    assert_eq!(buff.data().apply(u32::MAX), Some(2));
}

#[test]
fn the_electric_buff_is_rare() {
    let buff = ElectricProjectileBuff::new();
    assert_eq!(
        *buff.data(),
        BuffData {
            sprite_idx: 20,
            sprite_rows: 5,
            rarity: LootRarity::Rare,
            modified_value: 0,
            combination: Combination::Replace,
        }
    );
    assert_eq!(buff.modify_additivily().data().combination, Combination::Add);
    assert_eq!(buff.modify_multiplicatively().data().combination, Combination::Multiply);
    assert_eq!(buff.modify_additivily().data().rarity, LootRarity::Rare);
}
