//! Which interface sprite sheet a dialog's module id refers to.

use vstd::prelude::*;

verus! {

#[derive(Clone, Copy, Debug, PartialEq, Eq, Structural)]
pub enum UiSpriteSheetType {
    Ui,
    ExUi,
}

impl UiSpriteSheetType {
    /// The sheet of module `module_id`: the base interface sheet is module
    /// 0 and the extended one module 3; other modules have no sheet.
    pub fn from_module_id(module_id: i32) -> (r: Option<Self>)
        ensures
            r == if module_id == 0 {
                Some(UiSpriteSheetType::Ui)
            } else if module_id == 3 {
                Some(UiSpriteSheetType::ExUi)
            } else {
                None
            },
    {
        match module_id {
            0 => Some(UiSpriteSheetType::Ui),
            3 => Some(UiSpriteSheetType::ExUi),
            _ => None,
        }
    }
}

} // verus!
