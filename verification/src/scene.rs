//! The static courtroom scene: which wall, carpet, floor and furniture tiles
//! fill which grid cells, and where the scripted and sampled actors stand.
//!
//! Each layer function appends exactly its layer's commands, so a frame's
//! back-to-front order (walls, carpets, jury floor, props, scripted actors,
//! jury, audience) is fixed by construction.

use vstd::prelude::*;

use crate::drawing::DrawCommand;
use crate::drawing::carpet_command;
use crate::drawing::draw_carpet;
use crate::drawing::draw_person;
use crate::drawing::draw_prop;
use crate::drawing::draw_wall;
use crate::drawing::person_command;
use crate::drawing::person_in_bounds;
use crate::drawing::prop_command;
use crate::drawing::wall_command;
use crate::enums::CarpetType;
use crate::enums::GnomeType;
use crate::enums::PersonType;
use crate::enums::PropTypes;
use crate::enums::WallType;
use crate::sampler::PlacedActor;

verus! {

/// The four corner tiles of the outer wall.
pub open spec fn wall_corners() -> Seq<DrawCommand> {
    seq![
        wall_command(WallType::TallUpperLeftCornerWall, 0, 0),
        wall_command(WallType::TallUpperRightCornerWall, 12, 0),
        wall_command(WallType::TallLowerLeftCornerWall, 0, 12),
        wall_command(WallType::TallLowerRightCornerWall, 12, 12),
    ]
}

/// The top-row wall tile of column `i`, together with the bottom-row tile
/// except over the doorway columns (5 to 7).
pub open spec fn top_bottom_at(i: i32) -> Seq<DrawCommand> {
    if i < 5 || i > 7 {
        seq![
            wall_command(WallType::TallTopBottomWall, i, 0),
            wall_command(WallType::TallTopBottomWall, i, 12),
        ]
    } else {
        seq![wall_command(WallType::TallTopBottomWall, i, 0)]
    }
}

/// The horizontal wall tiles of columns 1 up to (excluding) `n`.
pub open spec fn top_bottom_walls(n: int) -> Seq<DrawCommand>
    decreases n,
{
    if n <= 1 {
        Seq::empty()
    } else {
        top_bottom_walls(n - 1) + top_bottom_at((n - 1) as i32)
    }
}

/// The vertical wall tiles of rows 1 up to (excluding) `n`, on both sides.
pub open spec fn vertical_walls(n: int) -> Seq<DrawCommand>
    decreases n,
{
    if n <= 1 {
        Seq::empty()
    } else {
        vertical_walls(n - 1) + seq![
            wall_command(WallType::TallVerticalWall, 0, (n - 1) as i32),
            wall_command(WallType::TallVerticalWall, 12, (n - 1) as i32),
        ]
    }
}

/// The whole outer wall: corners, then the top and bottom rows, then the
/// two vertical sides.
pub open spec fn walls_layer() -> Seq<DrawCommand> {
    wall_corners() + top_bottom_walls(12) + vertical_walls(12)
}

/// Draws the outer wall of the courtroom.
pub fn draw_courtroom_walls(commands: &mut Vec<DrawCommand>)
    ensures
        final(commands)@ == old(commands)@ + walls_layer(),
{
    let ghost base = commands@;
    draw_wall(commands, WallType::TallUpperLeftCornerWall, 0, 0);
    draw_wall(commands, WallType::TallUpperRightCornerWall, 12, 0);
    draw_wall(commands, WallType::TallLowerLeftCornerWall, 0, 12);
    draw_wall(commands, WallType::TallLowerRightCornerWall, 12, 12);
    proof {
        assert(commands@ =~= base + wall_corners());
    }
    let mut i: i32 = 1;
    while i < 12
        invariant
            1 <= i <= 12,
            commands@ == base + wall_corners() + top_bottom_walls(i as int),
        decreases 12 - i,
    {
        draw_wall(commands, WallType::TallTopBottomWall, i, 0);
        if i < 5 || i > 7 {
            draw_wall(commands, WallType::TallTopBottomWall, i, 12);
        }
        proof {
            assert(commands@ =~= base + wall_corners() + top_bottom_walls(i as int + 1));
        }
        i += 1;
    }
    let mut i: i32 = 1;
    while i < 12
        invariant
            1 <= i <= 12,
            commands@ == base + wall_corners() + top_bottom_walls(12) + vertical_walls(i as int),
        decreases 12 - i,
    {
        draw_wall(commands, WallType::TallVerticalWall, 0, i);
        draw_wall(commands, WallType::TallVerticalWall, 12, i);
        proof {
            assert(commands@ =~= base + wall_corners() + top_bottom_walls(12) + vertical_walls(
                i as int + 1,
            ));
        }
        i += 1;
    }
    proof {
        assert(commands@ =~= base + walls_layer());
    }
}

/// The carpet tile drawn at grid cell `(x, y)` of the inner floor: border
/// tiles along the walls, corner tiles in the corners, a doorway opening at
/// the bottom (columns 5 to 7 of row 11), and plain carpet everywhere else.
pub open spec fn spec_carpet_at(x: int, y: int) -> CarpetType {
    if x == 1 && y == 1 {
        CarpetType::LeftTopWall
    } else if x == 1 && y == 11 {
        CarpetType::LeftBottomWall
    } else if x == 11 && y == 1 {
        CarpetType::RightTopWall
    } else if x == 11 && y == 11 {
        CarpetType::RightBottomWall
    } else if x == 5 && y == 11 {
        CarpetType::BottomLeftCornerWall
    } else if x == 6 && y == 11 {
        CarpetType::NoWalls
    } else if x == 7 && y == 11 {
        CarpetType::BottomRightCornerWall
    } else if x == 1 {
        CarpetType::LeftWall
    } else if x == 11 {
        CarpetType::RightWall
    } else if y == 1 {
        CarpetType::TopWall
    } else if y == 11 {
        CarpetType::BottomWall
    } else {
        CarpetType::NoWalls
    }
}

/// The carpet tile of grid cell `(x, y)`.
pub fn carpet_at(x: i32, y: i32) -> (r: CarpetType)
    ensures
        r == spec_carpet_at(x as int, y as int),
{
    if x == 1 && y == 1 {
        CarpetType::LeftTopWall
    } else if x == 1 && y == 11 {
        CarpetType::LeftBottomWall
    } else if x == 11 && y == 1 {
        CarpetType::RightTopWall
    } else if x == 11 && y == 11 {
        CarpetType::RightBottomWall
    } else if x == 5 && y == 11 {
        CarpetType::BottomLeftCornerWall
    } else if x == 6 && y == 11 {
        CarpetType::NoWalls
    } else if x == 7 && y == 11 {
        CarpetType::BottomRightCornerWall
    } else if x == 1 {
        CarpetType::LeftWall
    } else if x == 11 {
        CarpetType::RightWall
    } else if y == 1 {
        CarpetType::TopWall
    } else if y == 11 {
        CarpetType::BottomWall
    } else {
        CarpetType::NoWalls
    }
}

/// The carpet tiles of column `x`, rows 1 up to (excluding) `n`.
pub open spec fn carpet_column(x: i32, n: int) -> Seq<DrawCommand>
    decreases n,
{
    if n <= 1 {
        Seq::empty()
    } else {
        carpet_column(x, n - 1) + seq![
            carpet_command(spec_carpet_at(x as int, n - 1), x, (n - 1) as i32),
        ]
    }
}

/// The carpet tiles of columns 1 up to (excluding) `n`, column by column.
pub open spec fn carpet_columns(n: int) -> Seq<DrawCommand>
    decreases n,
{
    if n <= 1 {
        Seq::empty()
    } else {
        carpet_columns(n - 1) + carpet_column((n - 1) as i32, 12)
    }
}

/// The whole carpet: the 11x11 inner floor, then the three doorway tiles of
/// row 12.
pub open spec fn carpets_layer() -> Seq<DrawCommand> {
    carpet_columns(12) + seq![
        carpet_command(CarpetType::LeftWall, 5, 12),
        carpet_command(CarpetType::NoWalls, 6, 12),
        carpet_command(CarpetType::RightWall, 7, 12),
    ]
}

/// Draws the carpet of the courtroom floor and the doorway.
pub fn draw_courtroom_carpets(commands: &mut Vec<DrawCommand>)
    ensures
        final(commands)@ == old(commands)@ + carpets_layer(),
{
    let ghost base = commands@;
    let mut x: i32 = 1;
    while x < 12
        invariant
            1 <= x <= 12,
            commands@ == base + carpet_columns(x as int),
        decreases 12 - x,
    {
        let mut y: i32 = 1;
        while y < 12
            invariant
                1 <= x < 12,
                1 <= y <= 12,
                commands@ == base + carpet_columns(x as int) + carpet_column(x, y as int),
            decreases 12 - y,
        {
            let carpet_type = carpet_at(x, y);
            draw_carpet(commands, carpet_type, x, y);
            proof {
                assert(commands@ =~= base + carpet_columns(x as int) + carpet_column(
                    x,
                    y as int + 1,
                ));
            }
            y += 1;
        }
        proof {
            assert(commands@ =~= base + carpet_columns(x as int + 1));
        }
        x += 1;
    }
    draw_carpet(commands, CarpetType::LeftWall, 5, 12);
    draw_carpet(commands, CarpetType::NoWalls, 6, 12);
    draw_carpet(commands, CarpetType::RightWall, 7, 12);
    proof {
        assert(commands@ =~= base + carpets_layer());
    }
}

/// The floor tiles under the jury box: grid cells 1 to 3 by 1 to 2.
pub open spec fn jury_floor_layer() -> Seq<DrawCommand> {
    seq![
        wall_command(WallType::Floor, 1, 1),
        wall_command(WallType::Floor, 1, 2),
        wall_command(WallType::Floor, 2, 1),
        wall_command(WallType::Floor, 2, 2),
        wall_command(WallType::Floor, 3, 1),
        wall_command(WallType::Floor, 3, 2),
    ]
}

/// Draws the floor tiles under the jury box.
pub fn draw_jury_floor(commands: &mut Vec<DrawCommand>)
    ensures
        final(commands)@ == old(commands)@ + jury_floor_layer(),
{
    let ghost base = commands@;
    draw_wall(commands, WallType::Floor, 1, 1);
    draw_wall(commands, WallType::Floor, 1, 2);
    draw_wall(commands, WallType::Floor, 2, 1);
    draw_wall(commands, WallType::Floor, 2, 2);
    draw_wall(commands, WallType::Floor, 3, 1);
    draw_wall(commands, WallType::Floor, 3, 2);
    proof {
        assert(commands@ =~= base + jury_floor_layer());
    }
}

/// The wall tile of the judge's stand at column `i` of row 2.
pub open spec fn stand_wall_at(i: int) -> WallType {
    if i == 5 {
        WallType::TallLeftWall
    } else if i == 6 {
        WallType::TallWall
    } else if i == 7 {
        WallType::TallRightWall
    } else {
        WallType::ShortWall
    }
}

/// The stand tiles of columns 5 up to (excluding) `n` of row 2.
pub open spec fn stand_row(n: int) -> Seq<DrawCommand>
    decreases n,
{
    if n <= 5 {
        Seq::empty()
    } else {
        stand_row(n - 1) + seq![wall_command(stand_wall_at(n - 1), (n - 1) as i32, 2)]
    }
}

/// The bar tiles of row 5, columns 1 up to (excluding) `n`, leaving the
/// gateway columns 4 to 8 open.
pub open spec fn bar_row(n: int) -> Seq<DrawCommand>
    decreases n,
{
    if n <= 1 {
        Seq::empty()
    } else {
        bar_row(n - 1) + if n - 1 < 4 || n - 1 > 8 {
            seq![wall_command(WallType::ShortWall, (n - 1) as i32, 5)]
        } else {
            Seq::empty()
        }
    }
}

/// The table props of row 4, columns 1 up to (excluding) `n`, leaving the
/// center aisle columns 5 to 7 open.
pub open spec fn tables_row(n: int) -> Seq<DrawCommand>
    decreases n,
{
    if n <= 1 {
        Seq::empty()
    } else {
        tables_row(n - 1) + if n - 1 < 5 || n - 1 > 7 {
            seq![prop_command(PropTypes::LargeTable, (n - 1) as i32, 4)]
        } else {
            Seq::empty()
        }
    }
}

/// All furniture: the two large chairs behind the stand, the judge's stand
/// itself, the bar across the room, and the defense/prosecution tables.
pub open spec fn props_layer() -> Seq<DrawCommand> {
    seq![
        prop_command(PropTypes::LargeBlueChair, 6, 1),
        prop_command(PropTypes::LargeBlueChair, 9, 1),
        wall_command(WallType::ShortRightWall, 4, 2),
    ] + stand_row(10) + seq![
        wall_command(WallType::TallLeftRightWall, 9, 2),
        wall_command(WallType::ShortLeftWall, 10, 2),
    ] + bar_row(12) + seq![
        wall_command(WallType::ShortLeftWall, 4, 5),
        wall_command(WallType::ShortRightWall, 8, 5),
    ] + tables_row(12)
}

/// Draws the stand, the bar and the tables.
pub fn draw_courtroom_props(commands: &mut Vec<DrawCommand>)
    ensures
        final(commands)@ == old(commands)@ + props_layer(),
{
    let ghost base = commands@;
    draw_prop(commands, PropTypes::LargeBlueChair, 6, 1);
    draw_prop(commands, PropTypes::LargeBlueChair, 9, 1);
    draw_wall(commands, WallType::ShortRightWall, 4, 2);
    let ghost head = commands@;
    let mut i: i32 = 5;
    while i < 10
        invariant
            5 <= i <= 10,
            commands@ == head + stand_row(i as int),
        decreases 10 - i,
    {
        let wall_type = if i == 5 {
            WallType::TallLeftWall
        } else if i == 6 {
            WallType::TallWall
        } else if i == 7 {
            WallType::TallRightWall
        } else {
            WallType::ShortWall
        };
        draw_wall(commands, wall_type, i, 2);
        proof {
            assert(commands@ =~= head + stand_row(i as int + 1));
        }
        i += 1;
    }
    draw_wall(commands, WallType::TallLeftRightWall, 9, 2);
    draw_wall(commands, WallType::ShortLeftWall, 10, 2);
    let ghost head2 = commands@;
    let mut i: i32 = 1;
    while i < 12
        invariant
            1 <= i <= 12,
            commands@ == head2 + bar_row(i as int),
        decreases 12 - i,
    {
        if i < 4 || i > 8 {
            draw_wall(commands, WallType::ShortWall, i, 5);
        }
        proof {
            assert(commands@ =~= head2 + bar_row(i as int + 1));
        }
        i += 1;
    }
    draw_wall(commands, WallType::ShortLeftWall, 4, 5);
    draw_wall(commands, WallType::ShortRightWall, 8, 5);
    let ghost head3 = commands@;
    let mut i: i32 = 1;
    while i < 12
        invariant
            1 <= i <= 12,
            commands@ == head3 + tables_row(i as int),
        decreases 12 - i,
    {
        if i < 5 || i > 7 {
            draw_prop(commands, PropTypes::LargeTable, i, 4);
        }
        proof {
            assert(commands@ =~= head3 + tables_row(i as int + 1));
        }
        i += 1;
    }
    proof {
        assert(commands@ =~= base + props_layer());
    }
}

/// The scripted fixed-position actors: the judge at the stand, the defense
/// lawyer, the defendant, the co-defendant and the prosecutor at the tables.
pub open spec fn scripted_actors_layer() -> Seq<DrawCommand> {
    seq![
        person_command(PersonType::Gnome(GnomeType::WalkingForward1), 291, 48),
        person_command(PersonType::Person1, 448, 210),
        person_command(PersonType::Person4, 496, 210),
        person_command(PersonType::Person5, 400, 210),
        person_command(PersonType::Person12, 128, 210),
    ]
}

/// Draws the scripted fixed-position actors.
pub fn draw_scripted_actors(commands: &mut Vec<DrawCommand>)
    ensures
        final(commands)@ == old(commands)@ + scripted_actors_layer(),
{
    let ghost base = commands@;
    draw_person(commands, PersonType::Gnome(GnomeType::WalkingForward1), 291, 48);
    draw_person(commands, PersonType::Person1, 448, 210);
    draw_person(commands, PersonType::Person4, 496, 210);
    draw_person(commands, PersonType::Person5, 400, 210);
    draw_person(commands, PersonType::Person12, 128, 210);
    proof {
        assert(commands@ =~= base + scripted_actors_layer());
    }
}

/// The command (if any) emitted for one placed actor: nothing when the
/// position lies off the canvas.
pub open spec fn person_emit(a: PlacedActor) -> Seq<DrawCommand> {
    if person_in_bounds(a.x, a.y) {
        seq![person_command(a.kind, a.x, a.y)]
    } else {
        Seq::empty()
    }
}

/// The commands emitted for a list of placed actors, in order.
pub open spec fn people_layer(s: Seq<PlacedActor>) -> Seq<DrawCommand>
    decreases s.len(),
{
    if s.len() == 0 {
        Seq::empty()
    } else {
        people_layer(s.drop_last()) + person_emit(s.last())
    }
}

/// Draws a list of placed actors in order, skipping any whose position lies
/// off the canvas.
pub fn draw_people(commands: &mut Vec<DrawCommand>, actors: &Vec<PlacedActor>)
    requires
        forall|i: int| 0 <= i < actors@.len() ==> !(#[trigger] actors@[i]).kind.is_placeholder(),
    ensures
        final(commands)@ == old(commands)@ + people_layer(actors@),
{
    let ghost base = commands@;
    let mut k: usize = 0;
    while k < actors.len()
        invariant
            k <= actors@.len(),
            commands@ == base + people_layer(actors@.take(k as int)),
            forall|i: int| 0 <= i < actors@.len() ==> !(#[trigger] actors@[i]).kind.is_placeholder(),
        decreases actors@.len() - k,
    {
        let a = actors[k];
        draw_person(commands, a.kind, a.x, a.y);
        proof {
            assert(actors@.take(k as int + 1).drop_last() =~= actors@.take(k as int));
            assert(actors@.take(k as int + 1).last() == a);
            assert(commands@ =~= base + people_layer(actors@.take(k as int + 1)));
        }
        k += 1;
    }
    proof {
        assert(actors@.take(actors@.len() as int) =~= actors@);
    }
}

/// The whole static scene of one courtroom frame, back to front: walls,
/// carpets, jury floor, furniture, scripted actors, then the sampled jury
/// and audience.
pub open spec fn courtroom_scene_layer(jury: Seq<PlacedActor>, audience: Seq<PlacedActor>) -> Seq<
    DrawCommand,
> {
    walls_layer() + carpets_layer() + jury_floor_layer() + props_layer() + scripted_actors_layer()
        + people_layer(jury) + people_layer(audience)
}

/// Draws the whole static scene of one courtroom frame.
pub fn draw_courtroom_scene(
    commands: &mut Vec<DrawCommand>,
    jury: &Vec<PlacedActor>,
    audience: &Vec<PlacedActor>,
)
    requires
        forall|i: int| 0 <= i < jury@.len() ==> !(#[trigger] jury@[i]).kind.is_placeholder(),
        forall|i: int| 0 <= i < audience@.len() ==> !(#[trigger] audience@[i]).kind.is_placeholder(),
    ensures
        final(commands)@ == old(commands)@ + courtroom_scene_layer(jury@, audience@),
{
    let ghost base = commands@;
    draw_courtroom_walls(commands);
    draw_courtroom_carpets(commands);
    draw_jury_floor(commands);
    draw_courtroom_props(commands);
    draw_scripted_actors(commands);
    draw_people(commands, jury);
    draw_people(commands, audience);
    proof {
        assert(commands@ =~= base + courtroom_scene_layer(jury@, audience@));
    }
}

} // verus!
