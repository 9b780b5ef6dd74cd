use rose_offline_client::character_select::CharacterSelectCharacter;
use rose_offline_client::hit_event::HitEvent;
use rose_offline_client::ui_resources::UiSpriteSheetType;
use rose_offline_client::world::Entity;
use rose_offline_client::zone_object::{
    ZoneObject, ZoneObjectId, ZoneObjectPart, ZoneObjectPartCollisionShape, ZoneObjectTerrain,
    ZscCollisionShape,
};

#[test]
fn collision_shape_from_object_list() {
    assert_eq!(ZoneObjectPartCollisionShape::default(), ZoneObjectPartCollisionShape::AxisAlignedBoundingBox);
    assert_eq!(ZoneObjectPartCollisionShape::from(None), ZoneObjectPartCollisionShape::NoCollision);
    assert_eq!(ZoneObjectPartCollisionShape::from(Some(ZscCollisionShape::Sphere)), ZoneObjectPartCollisionShape::Sphere);
    assert_eq!(
        ZoneObjectPartCollisionShape::from(Some(ZscCollisionShape::ObjectOrientedBoundingBox)),
        ZoneObjectPartCollisionShape::ObjectOrientedBoundingBox
    );
    assert_eq!(ZoneObjectPartCollisionShape::from(Some(ZscCollisionShape::Polygon)), ZoneObjectPartCollisionShape::Polygon);
    let part = ZoneObjectPart::default();
    assert_eq!(part.collision_shape, ZoneObjectPartCollisionShape::AxisAlignedBoundingBox);
    assert!(matches!(ZoneObject::DecoObject(ZoneObjectId { id: 3 }), ZoneObject::DecoObject(ZoneObjectId { id: 3 })));
    assert_eq!(ZoneObjectTerrain::default(), ZoneObjectTerrain { block_x: 0, block_y: 0 });
}

#[test]
fn hit_event_builders() {
    let hit = HitEvent::with_weapon(Entity(1), Entity(2), Some(7));
    assert_eq!(hit.skill_id, None);
    assert!(hit.apply_damage);
    let hit = HitEvent::with_skill(Entity(1), Entity(2), 33).apply_damage(false);
    assert_eq!(hit.skill_id, Some(33));
    assert_eq!(hit.effect_id, None);
    assert!(!hit.apply_damage);
}

#[test]
fn sprite_sheet_by_module() {
    assert_eq!(UiSpriteSheetType::from_module_id(0), Some(UiSpriteSheetType::Ui));
    assert_eq!(UiSpriteSheetType::from_module_id(3), Some(UiSpriteSheetType::ExUi));
    assert_eq!(UiSpriteSheetType::from_module_id(1), None);
    assert_eq!(CharacterSelectCharacter { index: 2 }.index, 2);
}
