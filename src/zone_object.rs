//! Components that describe the static objects of a zone.

use vstd::prelude::*;

verus! {

/// Collision shape of a zone object part as the zone's object list gives it.
#[derive(Clone, Copy, Debug, PartialEq, Eq, Structural)]
pub enum ZscCollisionShape {
    Sphere,
    AxisAlignedBoundingBox,
    ObjectOrientedBoundingBox,
    Polygon,
}

#[derive(Clone, Copy, Debug, PartialEq, Eq, Structural)]
pub enum ZoneObjectPartCollisionShape {
    /// The part has no collision shape.
    NoCollision,
    Sphere,
    AxisAlignedBoundingBox,
    ObjectOrientedBoundingBox,
    Polygon,
}

impl Default for ZoneObjectPartCollisionShape {
    fn default() -> (r: Self)
        ensures
            r == ZoneObjectPartCollisionShape::AxisAlignedBoundingBox,
    {
        ZoneObjectPartCollisionShape::AxisAlignedBoundingBox
    }
}

pub open spec fn spec_collision_shape(value: Option<ZscCollisionShape>) -> ZoneObjectPartCollisionShape {
    match value {
        Some(ZscCollisionShape::Sphere) => ZoneObjectPartCollisionShape::Sphere,
        Some(ZscCollisionShape::AxisAlignedBoundingBox) => ZoneObjectPartCollisionShape::AxisAlignedBoundingBox,
        Some(ZscCollisionShape::ObjectOrientedBoundingBox) => ZoneObjectPartCollisionShape::ObjectOrientedBoundingBox,
        Some(ZscCollisionShape::Polygon) => ZoneObjectPartCollisionShape::Polygon,
        None => ZoneObjectPartCollisionShape::NoCollision,
    }
}

impl From<Option<ZscCollisionShape>> for ZoneObjectPartCollisionShape {
    fn from(value: Option<ZscCollisionShape>) -> (r: Self) {
        match value {
            Some(ZscCollisionShape::Sphere) => ZoneObjectPartCollisionShape::Sphere,
            Some(ZscCollisionShape::AxisAlignedBoundingBox) => ZoneObjectPartCollisionShape::AxisAlignedBoundingBox,
            Some(ZscCollisionShape::ObjectOrientedBoundingBox) => ZoneObjectPartCollisionShape::ObjectOrientedBoundingBox,
            Some(ZscCollisionShape::Polygon) => ZoneObjectPartCollisionShape::Polygon,
            None => ZoneObjectPartCollisionShape::NoCollision,
        }
    }
}

impl vstd::std_specs::convert::FromSpecImpl<Option<ZscCollisionShape>> for ZoneObjectPartCollisionShape {
    open spec fn obeys_from_spec() -> bool {
        true
    }

    open spec fn from_spec(value: Option<ZscCollisionShape>) -> Self {
        spec_collision_shape(value)
    }
}

#[derive(Clone, Copy, Debug, PartialEq, Eq, Structural, Default)]
pub struct ZoneObjectId {
    pub id: usize,
}

#[derive(Clone, Debug, Default)]
pub struct ZoneObjectPart {
    pub mesh_path: String,
    pub collision_shape: ZoneObjectPartCollisionShape,
    pub collision_not_moveable: bool,
    pub collision_not_pickable: bool,
    pub collision_height_only: bool,
    pub collision_no_camera: bool,
}

#[derive(Clone, Debug, Default)]
pub struct ZoneObjectAnimatedObject {
    pub mesh_path: String,
    pub motion_path: String,
    pub texture_path: String,
}

#[derive(Clone, Copy, Debug, PartialEq, Eq, Structural, Default)]
pub struct ZoneObjectTerrain {
    pub block_x: u32,
    pub block_y: u32,
}

#[derive(Clone, Debug)]
pub enum ZoneObject {
    AnimatedObject(ZoneObjectAnimatedObject),
    WarpObject(ZoneObjectId),
    WarpObjectPart(ZoneObjectPart),
    EventObject(ZoneObjectId),
    EventObjectPart(ZoneObjectPart),
    CnstObject(ZoneObjectId),
    CnstObjectPart(ZoneObjectPart),
    DecoObject(ZoneObjectId),
    DecoObjectPart(ZoneObjectPart),
    Terrain(ZoneObjectTerrain),
    Water,
}

} // verus!
