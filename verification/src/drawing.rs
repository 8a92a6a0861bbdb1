//! The tile compositor: maps the semantic tile and actor identifiers to their
//! fixed source rectangles in the sprite atlases and emits draw commands.
//!
//! Nothing here touches a graphics context. A frame is described as a
//! sequence of [`DrawCommand`] values, in back-to-front order: the host
//! renders them in sequence, so later commands occlude earlier ones.

use vstd::prelude::*;

use crate::enums::CarpetType;
use crate::enums::CatKidType;
use crate::enums::ChickType;
use crate::enums::DuckType;
use crate::enums::GnomeType;
use crate::enums::PersonType;
use crate::enums::PropTypes;
use crate::enums::WallType;
use crate::script::DialoguePage;
use crate::script::LabelId;

verus! {

/// An axis-aligned pixel rectangle: position of the upper-left corner and
/// size. Sprite atlases are addressed with native (unscaled) rectangles;
/// destinations are given in canvas pixels.
#[derive(Clone, Copy, Debug, PartialEq, Eq, Structural)]
pub struct Rect {
    pub x: i32,
    pub y: i32,
    pub w: i32,
    pub h: i32,
}

/// Key of one of the texture resources the host loads at startup: the three
/// shared atlases, the celebratory image of the credits screen, and one
/// texture per actor appearance family (keyed by the family's key value,
/// which for the animal families is the `NoType` placeholder).
#[derive(Clone, Copy, Debug, PartialEq, Eq, Structural)]
pub enum TextureId {
    /// The shared building-interior atlas (walls, doors, floor)
    Walls,
    /// The shared carpet atlas
    Carpet,
    /// The shared furniture/prop atlas
    Props,
    /// The celebratory image of the credits screen
    Celebration,
    /// The texture of one actor appearance family
    Person(PersonType),
}

/// One drawing instruction of a frame. A frame is a sequence of these in
/// back-to-front order.
#[derive(Clone, Copy, Debug, PartialEq, Eq, Structural)]
pub enum DrawCommand {
    /// Clear the whole canvas to white.
    Clear,
    /// Blit the `src` region of texture `tex`, scaled onto `dst`.
    Blit { tex: TextureId, src: Rect, dst: Rect },
    /// Draw a texture unscaled with its upper-left corner at `(x, y)`.
    Image { tex: TextureId, x: i32, y: i32 },
    /// The rounded white dialogue panel over the lower half of the canvas.
    DialoguePanel,
    /// The first `shown` characters of a dialogue page, inside the panel.
    PageText { page: DialoguePage, shown: usize },
    /// A full-canvas black overlay with the given alpha.
    FadeOverlay { alpha: u8 },
    /// A text label centered on `(cx, cy)`.
    Label { id: LabelId, font_size: i32, cx: i32, cy: i32 },
    /// A black horizontal line across the canvas at height `y`.
    HLine { y: i32 },
}

/// The 48x48 destination cell of the scene grid at grid position `(x, y)`.
pub open spec fn spec_cell_rect(x: i32, y: i32) -> Rect {
    Rect { x: (x * 48) as i32, y: (y * 48) as i32, w: 48, h: 48 }
}

/// The fixed source rectangle of a wall tile in the building-interior atlas.
pub open spec fn spec_wall_source(wall_type: WallType) -> Rect {
    match wall_type {
        WallType::TallLeftRightWall => Rect { x: 16, y: 48, w: 16, h: 16 },
        WallType::TallVerticalWall => Rect { x: 0, y: 16, w: 16, h: 16 },
        WallType::TallUpperLeftCornerWall => Rect { x: 0, y: 0, w: 16, h: 16 },
        WallType::TallUpperRightCornerWall => Rect { x: 32, y: 0, w: 16, h: 16 },
        WallType::TallLowerLeftCornerWall => Rect { x: 0, y: 32, w: 16, h: 16 },
        WallType::TallLowerRightCornerWall => Rect { x: 32, y: 32, w: 16, h: 16 },
        WallType::TallTopBottomWall => Rect { x: 16, y: 0, w: 16, h: 16 },
        WallType::ShortLeftWall => Rect { x: 64, y: 48, w: 16, h: 16 },
        WallType::ShortLeftRightWall => Rect { x: 0, y: 48, w: 16, h: 16 },
        WallType::ShortRightWall => Rect { x: 32, y: 48, w: 16, h: 16 },
        WallType::ShortWall => Rect { x: 48, y: 48, w: 16, h: 16 },
        WallType::TallLeftWall => Rect { x: 64, y: 0, w: 16, h: 16 },
        WallType::TallRightWall => Rect { x: 96, y: 0, w: 16, h: 16 },
        WallType::TallWall => Rect { x: 80, y: 0, w: 16, h: 16 },
        WallType::Floor => Rect { x: 16, y: 16, w: 16, h: 16 },
    }
}

/// The command emitted for a wall tile at grid position `(x, y)`.
pub open spec fn wall_command(wall_type: WallType, x: i32, y: i32) -> DrawCommand {
    DrawCommand::Blit {
        tex: TextureId::Walls,
        src: spec_wall_source(wall_type),
        dst: spec_cell_rect(x, y),
    }
}

/// Looks up the fixed source rectangle for `wall_type` and emits a blit of
/// it, scaled to the 48x48 cell at grid position `(x, y)`. There is no error
/// path: every wall tile has a mapping.
pub fn draw_wall(commands: &mut Vec<DrawCommand>, wall_type: WallType, x: i32, y: i32)
    requires
        i32::MIN <= x * 48 <= i32::MAX,
        i32::MIN <= y * 48 <= i32::MAX,
    ensures
        final(commands)@ == old(commands)@.push(wall_command(wall_type, x, y)),
{
    let source_rec = match wall_type {
        WallType::TallLeftRightWall => Rect { x: 16, y: 48, w: 16, h: 16 },
        WallType::TallVerticalWall => Rect { x: 0, y: 16, w: 16, h: 16 },
        WallType::TallUpperLeftCornerWall => Rect { x: 0, y: 0, w: 16, h: 16 },
        WallType::TallUpperRightCornerWall => Rect { x: 32, y: 0, w: 16, h: 16 },
        WallType::TallLowerLeftCornerWall => Rect { x: 0, y: 32, w: 16, h: 16 },
        WallType::TallLowerRightCornerWall => Rect { x: 32, y: 32, w: 16, h: 16 },
        WallType::TallTopBottomWall => Rect { x: 16, y: 0, w: 16, h: 16 },
        WallType::ShortLeftWall => Rect { x: 64, y: 48, w: 16, h: 16 },
        WallType::ShortLeftRightWall => Rect { x: 0, y: 48, w: 16, h: 16 },
        WallType::ShortRightWall => Rect { x: 32, y: 48, w: 16, h: 16 },
        WallType::ShortWall => Rect { x: 48, y: 48, w: 16, h: 16 },
        WallType::TallLeftWall => Rect { x: 64, y: 0, w: 16, h: 16 },
        WallType::TallRightWall => Rect { x: 96, y: 0, w: 16, h: 16 },
        WallType::TallWall => Rect { x: 80, y: 0, w: 16, h: 16 },
        WallType::Floor => Rect { x: 16, y: 16, w: 16, h: 16 },
    };
    commands.push(
        DrawCommand::Blit {
            tex: TextureId::Walls,
            src: source_rec,
            dst: Rect { x: x * 48, y: y * 48, w: 48, h: 48 },
        },
    );
}

/// The fixed source rectangle of a carpet tile in the carpet atlas.
pub open spec fn spec_carpet_source(carpet_type: CarpetType) -> Rect {
    match carpet_type {
        CarpetType::NoWalls => Rect { x: 16, y: 16, w: 16, h: 16 },
        CarpetType::LeftWall => Rect { x: 0, y: 16, w: 16, h: 16 },
        CarpetType::RightWall => Rect { x: 32, y: 16, w: 16, h: 16 },
        CarpetType::TopWall => Rect { x: 16, y: 0, w: 16, h: 16 },
        CarpetType::BottomWall => Rect { x: 16, y: 32, w: 16, h: 16 },
        CarpetType::LeftTopWall => Rect { x: 0, y: 0, w: 16, h: 16 },
        CarpetType::LeftBottomWall => Rect { x: 0, y: 32, w: 16, h: 16 },
        CarpetType::RightTopWall => Rect { x: 32, y: 0, w: 16, h: 16 },
        CarpetType::RightBottomWall => Rect { x: 32, y: 32, w: 16, h: 16 },
        CarpetType::LeftRightWall => Rect { x: 48, y: 64, w: 16, h: 16 },
        CarpetType::TopBottomWall => Rect { x: 80, y: 80, w: 16, h: 16 },
        CarpetType::UpperRightCornerWall => Rect { x: 32, y: 80, w: 16, h: 16 },
        CarpetType::UpperLeftCornerWall => Rect { x: 0, y: 80, w: 16, h: 16 },
        CarpetType::BottomRightCornerWall => Rect { x: 0, y: 48, w: 16, h: 16 },
        CarpetType::BottomLeftCornerWall => Rect { x: 32, y: 48, w: 16, h: 16 },
    }
}

/// The command emitted for a carpet tile at grid position `(x, y)`.
pub open spec fn carpet_command(carpet_type: CarpetType, x: i32, y: i32) -> DrawCommand {
    DrawCommand::Blit {
        tex: TextureId::Carpet,
        src: spec_carpet_source(carpet_type),
        dst: spec_cell_rect(x, y),
    }
}

/// Looks up the fixed source rectangle for `carpet_type` and emits a blit of
/// it, scaled to the 48x48 cell at grid position `(x, y)`.
pub fn draw_carpet(commands: &mut Vec<DrawCommand>, carpet_type: CarpetType, x: i32, y: i32)
    requires
        i32::MIN <= x * 48 <= i32::MAX,
        i32::MIN <= y * 48 <= i32::MAX,
    ensures
        final(commands)@ == old(commands)@.push(carpet_command(carpet_type, x, y)),
{
    let source_rec = match carpet_type {
        CarpetType::NoWalls => Rect { x: 16, y: 16, w: 16, h: 16 },
        CarpetType::LeftWall => Rect { x: 0, y: 16, w: 16, h: 16 },
        CarpetType::RightWall => Rect { x: 32, y: 16, w: 16, h: 16 },
        CarpetType::TopWall => Rect { x: 16, y: 0, w: 16, h: 16 },
        CarpetType::BottomWall => Rect { x: 16, y: 32, w: 16, h: 16 },
        CarpetType::LeftTopWall => Rect { x: 0, y: 0, w: 16, h: 16 },
        CarpetType::LeftBottomWall => Rect { x: 0, y: 32, w: 16, h: 16 },
        CarpetType::RightTopWall => Rect { x: 32, y: 0, w: 16, h: 16 },
        CarpetType::RightBottomWall => Rect { x: 32, y: 32, w: 16, h: 16 },
        CarpetType::LeftRightWall => Rect { x: 48, y: 64, w: 16, h: 16 },
        CarpetType::TopBottomWall => Rect { x: 80, y: 80, w: 16, h: 16 },
        CarpetType::UpperRightCornerWall => Rect { x: 32, y: 80, w: 16, h: 16 },
        CarpetType::UpperLeftCornerWall => Rect { x: 0, y: 80, w: 16, h: 16 },
        CarpetType::BottomRightCornerWall => Rect { x: 0, y: 48, w: 16, h: 16 },
        CarpetType::BottomLeftCornerWall => Rect { x: 32, y: 48, w: 16, h: 16 },
    };
    commands.push(
        DrawCommand::Blit {
            tex: TextureId::Carpet,
            src: source_rec,
            dst: Rect { x: x * 48, y: y * 48, w: 48, h: 48 },
        },
    );
}

/// The fixed source rectangle of a furniture prop in the furniture atlas.
pub open spec fn spec_prop_source(prop_type: PropTypes) -> Rect {
    match prop_type {
        PropTypes::SmallChair => Rect { x: 80, y: 0, w: 16, h: 16 },
        PropTypes::LargePinkChair => Rect { x: 16, y: 32, w: 16, h: 16 },
        PropTypes::LargeRedChair => Rect { x: 32, y: 32, w: 16, h: 16 },
        PropTypes::LargeBlueChair => Rect { x: 48, y: 32, w: 16, h: 16 },
        PropTypes::SmallTable => Rect { x: 96, y: 0, w: 16, h: 16 },
        PropTypes::LargeTable => Rect { x: 112, y: 0, w: 16, h: 16 },
    }
}

/// The command emitted for a furniture prop at grid position `(x, y)`.
pub open spec fn prop_command(prop_type: PropTypes, x: i32, y: i32) -> DrawCommand {
    DrawCommand::Blit {
        tex: TextureId::Props,
        src: spec_prop_source(prop_type),
        dst: spec_cell_rect(x, y),
    }
}

/// Looks up the fixed source rectangle for `prop_type` and emits a blit of
/// it, scaled to the 48x48 cell at grid position `(x, y)`.
pub fn draw_prop(commands: &mut Vec<DrawCommand>, prop_type: PropTypes, x: i32, y: i32)
    requires
        i32::MIN <= x * 48 <= i32::MAX,
        i32::MIN <= y * 48 <= i32::MAX,
    ensures
        final(commands)@ == old(commands)@.push(prop_command(prop_type, x, y)),
{
    let source_rec = match prop_type {
        PropTypes::SmallChair => Rect { x: 80, y: 0, w: 16, h: 16 },
        PropTypes::LargePinkChair => Rect { x: 16, y: 32, w: 16, h: 16 },
        PropTypes::LargeRedChair => Rect { x: 32, y: 32, w: 16, h: 16 },
        PropTypes::LargeBlueChair => Rect { x: 48, y: 32, w: 16, h: 16 },
        PropTypes::SmallTable => Rect { x: 96, y: 0, w: 16, h: 16 },
        PropTypes::LargeTable => Rect { x: 112, y: 0, w: 16, h: 16 },
    };
    commands.push(
        DrawCommand::Blit {
            tex: TextureId::Props,
            src: source_rec,
            dst: Rect { x: x * 48, y: y * 48, w: 48, h: 48 },
        },
    );
}

/// True when an actor position lies on the canvas: drawing an actor anywhere
/// else is a no-op.
pub open spec fn person_in_bounds(x: i32, y: i32) -> bool {
    0 <= x <= 624 && 0 <= y <= 624
}

/// The key value under which an appearance's family texture is registered:
/// the `NoType` placeholder of its animal family, or the appearance itself
/// for the fox and the individually drawn humans.
pub open spec fn family_key(p: PersonType) -> PersonType {
    match p {
        PersonType::Gnome(_) => PersonType::Gnome(GnomeType::NoType),
        PersonType::CatKid(_) => PersonType::CatKid(CatKidType::NoType),
        PersonType::Chick(_) => PersonType::Chick(ChickType::NoType),
        PersonType::DuckBoy(_) => PersonType::DuckBoy(DuckType::NoType),
        other => other,
    }
}

/// The fixed source rectangle of a drawable appearance within its family's
/// texture. Native sizes vary per family.
pub open spec fn spec_person_source(p: PersonType) -> Rect {
    match p {
        PersonType::Gnome(g) => {
            let sx: i32 = match g {
                GnomeType::IdleRight => 80,
                GnomeType::WalkingRight => 64,
                GnomeType::WalkingForward1 => 0,
                GnomeType::WalkingForward2 => 16,
                GnomeType::WalkingBackward1 => 32,
                GnomeType::WalkingBackward2 => 48,
                GnomeType::NoType => 0,
            };
            Rect { x: sx, y: 0, w: 16, h: 16 }
        },
        PersonType::CatKid(c) => {
            let sx: i32 = match c {
                CatKidType::NoType => 0,
                CatKidType::WalkingForward1 => 0,
                CatKidType::WalkingForward2 => 16,
            };
            Rect { x: sx, y: 0, w: 15, h: 17 }
        },
        PersonType::Chick(c) => {
            let sx: i32 = match c {
                ChickType::NoType => 0,
                ChickType::WalkingForward1 => 0,
                ChickType::WalkingForward2 => 13,
            };
            Rect { x: sx, y: 0, w: 12, h: 17 }
        },
        PersonType::DuckBoy(d) => {
            let sx: i32 = match d {
                DuckType::NoType => 0,
                DuckType::WalkingForward1 => 0,
                DuckType::WalkingForward2 => 13,
            };
            Rect { x: sx, y: 0, w: 12, h: 17 }
        },
        PersonType::Fox => Rect { x: 0, y: 0, w: 16, h: 16 },
        PersonType::Person1 => Rect { x: 0, y: 0, w: 11, h: 18 },
        PersonType::Person2 => Rect { x: 0, y: 0, w: 14, h: 19 },
        PersonType::Person3 => Rect { x: 0, y: 0, w: 14, h: 19 },
        PersonType::Person4 => Rect { x: 0, y: 0, w: 13, h: 19 },
        PersonType::Person5 => Rect { x: 0, y: 0, w: 13, h: 19 },
        PersonType::Person6 => Rect { x: 0, y: 0, w: 14, h: 19 },
        PersonType::Person7 => Rect { x: 0, y: 0, w: 14, h: 19 },
        PersonType::Person8 => Rect { x: 0, y: 0, w: 14, h: 19 },
        PersonType::Person9 => Rect { x: 0, y: 0, w: 13, h: 19 },
        PersonType::Person10 => Rect { x: 0, y: 0, w: 13, h: 19 },
        PersonType::Person11 => Rect { x: 0, y: 0, w: 13, h: 19 },
        PersonType::Person12 => Rect { x: 0, y: 0, w: 14, h: 19 },
        PersonType::Person13 => Rect { x: 0, y: 0, w: 14, h: 19 },
        PersonType::Person14 => Rect { x: 0, y: 0, w: 14, h: 19 },
        PersonType::Person15 => Rect { x: 0, y: 0, w: 14, h: 19 },
    }
}

/// The destination size of a drawable appearance: the fixed per-family scale
/// applied to its native size (exactly 2x for most families, a custom ratio
/// for the two smaller ones).
pub open spec fn spec_person_dest_size(p: PersonType) -> (i32, i32) {
    match p {
        PersonType::Gnome(_) => (48, 48),
        PersonType::CatKid(_) => (48, 48),
        PersonType::Chick(_) => (24, 34),
        PersonType::DuckBoy(_) => (24, 34),
        PersonType::Fox => (48, 48),
        PersonType::Person1 => (22, 36),
        PersonType::Person2 => (28, 38),
        PersonType::Person3 => (28, 38),
        PersonType::Person4 => (26, 38),
        PersonType::Person5 => (26, 38),
        PersonType::Person6 => (28, 38),
        PersonType::Person7 => (28, 38),
        PersonType::Person8 => (28, 38),
        PersonType::Person9 => (26, 38),
        PersonType::Person10 => (26, 38),
        PersonType::Person11 => (26, 38),
        PersonType::Person12 => (28, 38),
        PersonType::Person13 => (28, 38),
        PersonType::Person14 => (28, 38),
        PersonType::Person15 => (28, 38),
    }
}

/// The command emitted for a drawable appearance at pixel position `(x, y)`.
pub open spec fn person_command(p: PersonType, x: i32, y: i32) -> DrawCommand {
    DrawCommand::Blit {
        tex: TextureId::Person(family_key(p)),
        src: spec_person_source(p),
        dst: Rect {
            x,
            y,
            w: spec_person_dest_size(p).0,
            h: spec_person_dest_size(p).1,
        },
    }
}

/// Draws one actor at pixel position `(x, y)`: a no-op if the position lies
/// outside the canvas; otherwise a blit of the appearance's source rectangle
/// from its family's texture, scaled by the family's fixed factor.
///
/// A family's `NoType` placeholder exists only to key the family's texture
/// resource and must never reach this function with an on-canvas position.
pub fn draw_person(commands: &mut Vec<DrawCommand>, person_type: PersonType, x: i32, y: i32)
    requires
        person_in_bounds(x, y) ==> !person_type.is_placeholder(),
    ensures
        final(commands)@ == if person_in_bounds(x, y) {
            old(commands)@.push(person_command(person_type, x, y))
        } else {
            old(commands)@
        },
{
    if x < 0 || y < 0 || x > 624 || y > 624 {
        return ;
    }
    let (source_rec, real_type, dest_w, dest_h): (Rect, PersonType, i32, i32) = match person_type {
        PersonType::Gnome(g) => {
            let sx: i32 = match g {
                GnomeType::IdleRight => 80,
                GnomeType::WalkingRight => 64,
                GnomeType::WalkingForward1 => 0,
                GnomeType::WalkingForward2 => 16,
                GnomeType::WalkingBackward1 => 32,
                GnomeType::WalkingBackward2 => 48,
                GnomeType::NoType => vstd::pervasive::unreached(),
            };
            (
                Rect { x: sx, y: 0, w: 16, h: 16 },
                PersonType::Gnome(GnomeType::NoType),
                48,
                48,
            )
        },
        PersonType::CatKid(c) => {
            let sx: i32 = match c {
                CatKidType::NoType => vstd::pervasive::unreached(),
                CatKidType::WalkingForward1 => 0,
                CatKidType::WalkingForward2 => 16,
            };
            (
                Rect { x: sx, y: 0, w: 15, h: 17 },
                PersonType::CatKid(CatKidType::NoType),
                48,
                48,
            )
        },
        PersonType::Chick(c) => {
            let sx: i32 = match c {
                ChickType::NoType => vstd::pervasive::unreached(),
                ChickType::WalkingForward1 => 0,
                ChickType::WalkingForward2 => 13,
            };
            (
                Rect { x: sx, y: 0, w: 12, h: 17 },
                PersonType::Chick(ChickType::NoType),
                24,
                34,
            )
        },
        PersonType::DuckBoy(d) => {
            let sx: i32 = match d {
                DuckType::NoType => vstd::pervasive::unreached(),
                DuckType::WalkingForward1 => 0,
                DuckType::WalkingForward2 => 13,
            };
            (
                Rect { x: sx, y: 0, w: 12, h: 17 },
                PersonType::DuckBoy(DuckType::NoType),
                24,
                34,
            )
        },
        PersonType::Fox => (Rect { x: 0, y: 0, w: 16, h: 16 }, PersonType::Fox, 48, 48),
        PersonType::Person1 => (Rect { x: 0, y: 0, w: 11, h: 18 }, PersonType::Person1, 22, 36),
        PersonType::Person2 => (Rect { x: 0, y: 0, w: 14, h: 19 }, PersonType::Person2, 28, 38),
        PersonType::Person3 => (Rect { x: 0, y: 0, w: 14, h: 19 }, PersonType::Person3, 28, 38),
        PersonType::Person4 => (Rect { x: 0, y: 0, w: 13, h: 19 }, PersonType::Person4, 26, 38),
        PersonType::Person5 => (Rect { x: 0, y: 0, w: 13, h: 19 }, PersonType::Person5, 26, 38),
        PersonType::Person6 => (Rect { x: 0, y: 0, w: 14, h: 19 }, PersonType::Person6, 28, 38),
        PersonType::Person7 => (Rect { x: 0, y: 0, w: 14, h: 19 }, PersonType::Person7, 28, 38),
        PersonType::Person8 => (Rect { x: 0, y: 0, w: 14, h: 19 }, PersonType::Person8, 28, 38),
        PersonType::Person9 => (Rect { x: 0, y: 0, w: 13, h: 19 }, PersonType::Person9, 26, 38),
        PersonType::Person10 => (Rect { x: 0, y: 0, w: 13, h: 19 }, PersonType::Person10, 26, 38),
        PersonType::Person11 => (Rect { x: 0, y: 0, w: 13, h: 19 }, PersonType::Person11, 26, 38),
        PersonType::Person12 => (Rect { x: 0, y: 0, w: 14, h: 19 }, PersonType::Person12, 28, 38),
        PersonType::Person13 => (Rect { x: 0, y: 0, w: 14, h: 19 }, PersonType::Person13, 28, 38),
        PersonType::Person14 => (Rect { x: 0, y: 0, w: 14, h: 19 }, PersonType::Person14, 28, 38),
        PersonType::Person15 => (Rect { x: 0, y: 0, w: 14, h: 19 }, PersonType::Person15, 28, 38),
    };
    commands.push(
        DrawCommand::Blit {
            tex: TextureId::Person(real_type),
            src: source_rec,
            dst: Rect { x, y, w: dest_w, h: dest_h },
        },
    );
}

/// The command emitted for a centered text label.
pub open spec fn label_command(id: LabelId, font_size: i32, cx: i32, cy: i32) -> DrawCommand {
    DrawCommand::Label { id, font_size, cx, cy }
}

/// Emits a text label centered on `(cx, cy)`. The host measures the text,
/// places it with [`label_origin`], and, for a linked label, hit-tests the
/// rectangle of [`label_hitbox`] against the pointer.
pub fn draw_text(commands: &mut Vec<DrawCommand>, id: LabelId, font_size: i32, cx: i32, cy: i32)
    ensures
        final(commands)@ == old(commands)@.push(label_command(id, font_size, cx, cy)),
{
    commands.push(DrawCommand::Label { id, font_size, cx, cy });
}

/// Emits a black horizontal line across the canvas at height `y`.
pub fn draw_horizontal_line(commands: &mut Vec<DrawCommand>, y: i32)
    ensures
        final(commands)@ == old(commands)@.push(DrawCommand::HLine { y }),
{
    commands.push(DrawCommand::HLine { y });
}

/// Top-left origin of a label centered on `(cx, cy)`, given the measured
/// pixel width of its text: half the width and half the font size back from
/// the center.
pub fn label_origin(measured_width: i32, font_size: i32, cx: i32, cy: i32) -> (r: (i32, i32))
    requires
        0 <= measured_width,
        0 <= font_size,
        i32::MIN <= cx - measured_width / 2,
        i32::MIN <= cy - font_size / 2,
    ensures
        r.0 == cx - measured_width / 2,
        r.1 == cy - font_size / 2,
{
    (cx - measured_width / 2, cy - font_size / 2)
}

/// The pointer hit rectangle of a label centered on `(cx, cy)` with the
/// given measured text width: anchored at the label's origin, sized to twice
/// the half-extents (so an odd measure loses its last pixel, as the measured
/// bounds are computed from halves).
pub fn label_hitbox(measured_width: i32, font_size: i32, cx: i32, cy: i32) -> (r: Rect)
    requires
        0 <= measured_width,
        0 <= font_size,
        i32::MIN <= cx - measured_width / 2,
        i32::MIN <= cy - font_size / 2,
    ensures
        r.x == cx - measured_width / 2,
        r.y == cy - font_size / 2,
        r.w == 2 * (measured_width / 2),
        r.h == 2 * (font_size / 2),
{
    let diff_x = measured_width / 2;
    let diff_y = font_size / 2;
    Rect { x: cx - diff_x, y: cy - diff_y, w: 2 * diff_x, h: 2 * diff_y }
}

/// What a linked label does with the pointer each frame: the cursor shows a
/// pointing hand exactly while the pointer hovers the hit rectangle, and
/// the link opens exactly on a primary-button click while hovering — never
/// otherwise.
pub fn label_pointer_response(hovering: bool, clicked: bool) -> (r: (bool, bool))
    ensures
        r.0 == hovering,
        r.1 == (hovering && clicked),
{
    (hovering, hovering && clicked)
}

/// Each appearance's destination size is its family's fixed scale of the
/// native size: exactly double for the chick and duck families and the
/// individually drawn humans, and a full 48x48 grid cell for the gnome,
/// cat-kid and fox families.
pub proof fn lemma_person_scale(p: PersonType)
    ensures
        match p {
            PersonType::Gnome(_) | PersonType::CatKid(_) | PersonType::Fox => spec_person_dest_size(
                p,
            ) == (48i32, 48i32),
            _ => spec_person_dest_size(p).0 == 2 * spec_person_source(p).w
                && spec_person_dest_size(p).1 == 2 * spec_person_source(p).h,
        },
{
}

/// True when the point `(px, py)` lies within `r`, edges included.
pub fn hit_test(r: Rect, px: i32, py: i32) -> (hit: bool)
    requires
        i32::MIN <= r.x + r.w <= i32::MAX,
        i32::MIN <= r.y + r.h <= i32::MAX,
    ensures
        hit == (r.x <= px <= r.x + r.w && r.y <= py <= r.y + r.h),
{
    r.x <= px && px <= r.x + r.w && r.y <= py && py <= r.y + r.h
}

} // verus!
