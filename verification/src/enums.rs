//! The closed identifier sets of the scene: wall, carpet, door and prop tiles,
//! and the appearance families of the background actors.
//!
//! Every drawable identifier maps to exactly one fixed source rectangle of the
//! shared sprite atlases (see the compositor); the `NoType` value of each
//! animal family exists only to key that family's texture resource and must
//! never reach the draw path.

use vstd::prelude::*;

verus! {

/// Door tiles of the building-interior atlas.
#[derive(Clone, Copy, Debug, PartialEq, Eq, Structural)]
pub enum DoorTypes {
    ClosedShortDoor,
    OpenShortDoor,
    ClosedSquareTallDoor,
    OpenSquareTallDoor,
    ClosedRoundTallDoor,
    OpenRoundTallDoor,
}

/// Furniture props of the furniture atlas.
#[derive(Clone, Copy, Debug, PartialEq, Eq, Structural)]
pub enum PropTypes {
    SmallChair,
    LargePinkChair,
    LargeRedChair,
    LargeBlueChair,
    SmallTable,
    LargeTable,
}

/// Wall tiles of the building-interior atlas.
#[derive(Clone, Copy, Debug, PartialEq, Eq, Structural)]
pub enum WallType {
    TallUpperLeftCornerWall,
    TallUpperRightCornerWall,
    TallLowerRightCornerWall,
    TallLowerLeftCornerWall,
    TallVerticalWall,
    TallLeftRightWall,
    TallTopBottomWall,
    TallLeftWall,
    TallRightWall,
    TallWall,
    ShortLeftWall,
    ShortRightWall,
    ShortWall,
    ShortLeftRightWall,
    Floor,
}

/// Carpet tiles of the carpet atlas, named for the walls they border.
#[derive(Clone, Copy, Debug, PartialEq, Eq, Structural)]
pub enum CarpetType {
    NoWalls,
    LeftWall,
    RightWall,
    TopWall,
    BottomWall,
    LeftTopWall,
    LeftBottomWall,
    RightTopWall,
    RightBottomWall,
    LeftRightWall,
    TopBottomWall,
    UpperRightCornerWall,
    UpperLeftCornerWall,
    BottomRightCornerWall,
    BottomLeftCornerWall,
}

/// An actor's appearance: either an animal-like family with its own animation
/// sub-variant, or one of fifteen individually drawn human appearances.
#[derive(Clone, Copy, Debug, Eq, Hash, PartialEq, Structural)]
pub enum PersonType {
    /// Looks like a gnome
    Gnome(GnomeType),
    /// Looks like a cat/human mix
    CatKid(CatKidType),
    /// Looks like a baby chick
    Chick(ChickType),
    /// Looks like a duck/human mix
    DuckBoy(DuckType),
    /// Looks like a fox
    Fox,
    /// White person wearing tuxedo
    Person1,
    /// White person with long hair in sweater
    Person2,
    /// White person with short hair in sweater
    Person3,
    /// Brown person with short hair in t-shirt
    Person4,
    /// Black person with long hair in suit
    Person5,
    /// White person with short hair in sweater
    Person6,
    /// White person with long hair in suit
    Person7,
    /// White person with no hair in sweater
    Person8,
    /// Tan person with long hair in suit
    Person9,
    /// Tan person with short hair in sweater
    Person10,
    /// Brown person with short hair in sweater
    Person11,
    /// White person with long hair in sweater
    Person12,
    /// Brown person with long hair in overalls
    Person13,
    /// White person with long hair in sweater
    Person14,
    /// Tan person with long hair in sweater
    Person15,
}

/// Animation sub-variants of the gnome family. `NoType` keys the family's
/// texture and is not drawable.
#[derive(Clone, Copy, Debug, Eq, Hash, PartialEq, Structural)]
pub enum GnomeType {
    NoType,
    WalkingForward1,
    WalkingForward2,
    WalkingBackward1,
    WalkingBackward2,
    WalkingRight,
    IdleRight,
}

/// Animation sub-variants of the cat-kid family. `NoType` keys the family's
/// texture and is not drawable.
#[derive(Clone, Copy, Debug, Eq, Hash, PartialEq, Structural)]
pub enum CatKidType {
    NoType,
    WalkingForward1,
    WalkingForward2,
}

/// Animation sub-variants of the chick family. `NoType` keys the family's
/// texture and is not drawable.
#[derive(Clone, Copy, Debug, Eq, Hash, PartialEq, Structural)]
pub enum ChickType {
    NoType,
    WalkingForward1,
    WalkingForward2,
}

/// Animation sub-variants of the duck-boy family. `NoType` keys the family's
/// texture and is not drawable.
#[derive(Clone, Copy, Debug, Eq, Hash, PartialEq, Structural)]
pub enum DuckType {
    NoType,
    WalkingForward1,
    WalkingForward2,
}

impl PersonType {
    /// True of the values that exist only to key a family's texture resource:
    /// an animal family paired with its `NoType` sub-variant. Such a value
    /// must never reach the draw path.
    pub open spec fn is_placeholder(self) -> bool {
        ||| self == PersonType::Gnome(GnomeType::NoType)
        ||| self == PersonType::CatKid(CatKidType::NoType)
        ||| self == PersonType::Chick(ChickType::NoType)
        ||| self == PersonType::DuckBoy(DuckType::NoType)
    }
}

/// The appearance drawn for a uniform roll in `1..=15`, together with the
/// monochrome substitution table: in a non-colored context the appearances
/// 4, 5, 9, 10, 11, 13 and 15 are replaced by lower-numbered ones
/// (4→2, 5→3, 9→6, 10→8, 11→7, 13→12, 15→14). Any roll outside `1..=15`
/// falls back to the default animal-family appearance.
pub open spec fn spec_person_for_roll(roll: int, colored: bool) -> PersonType {
    if roll == 1 {
        PersonType::Person1
    } else if roll == 2 {
        PersonType::Person2
    } else if roll == 3 {
        PersonType::Person3
    } else if roll == 4 {
        if colored {
            PersonType::Person4
        } else {
            PersonType::Person2
        }
    } else if roll == 5 {
        if colored {
            PersonType::Person5
        } else {
            PersonType::Person3
        }
    } else if roll == 6 {
        PersonType::Person6
    } else if roll == 7 {
        PersonType::Person7
    } else if roll == 8 {
        PersonType::Person8
    } else if roll == 9 {
        if colored {
            PersonType::Person9
        } else {
            PersonType::Person6
        }
    } else if roll == 10 {
        if colored {
            PersonType::Person10
        } else {
            PersonType::Person8
        }
    } else if roll == 11 {
        if colored {
            PersonType::Person11
        } else {
            PersonType::Person7
        }
    } else if roll == 12 {
        PersonType::Person12
    } else if roll == 13 {
        if colored {
            PersonType::Person13
        } else {
            PersonType::Person12
        }
    } else if roll == 14 {
        PersonType::Person14
    } else if roll == 15 {
        if colored {
            PersonType::Person15
        } else {
            PersonType::Person14
        }
    } else {
        PersonType::Fox
    }
}

/// True of the appearances that a monochrome (non-colored) sample never
/// produces: exactly the right-hand column of the substitution table.
pub open spec fn is_colored_only(p: PersonType) -> bool {
    ||| p == PersonType::Person4
    ||| p == PersonType::Person5
    ||| p == PersonType::Person9
    ||| p == PersonType::Person10
    ||| p == PersonType::Person11
    ||| p == PersonType::Person13
    ||| p == PersonType::Person15
}

/// Maps a uniform roll to the appearance drawn for it, applying the
/// monochrome substitution table when `colored` is false.
pub fn person_for_roll(roll: i32, colored: bool) -> (r: PersonType)
    ensures
        r == spec_person_for_roll(roll as int, colored),
{
    match roll {
        1 => PersonType::Person1,
        2 => PersonType::Person2,
        3 => PersonType::Person3,
        4 => match colored {
            true => PersonType::Person4,
            false => PersonType::Person2,
        },
        5 => match colored {
            true => PersonType::Person5,
            false => PersonType::Person3,
        },
        6 => PersonType::Person6,
        7 => PersonType::Person7,
        8 => PersonType::Person8,
        9 => match colored {
            true => PersonType::Person9,
            false => PersonType::Person6,
        },
        10 => match colored {
            true => PersonType::Person10,
            false => PersonType::Person8,
        },
        11 => match colored {
            true => PersonType::Person11,
            false => PersonType::Person7,
        },
        12 => PersonType::Person12,
        13 => match colored {
            true => PersonType::Person13,
            false => PersonType::Person12,
        },
        14 => PersonType::Person14,
        15 => match colored {
            true => PersonType::Person15,
            false => PersonType::Person14,
        },
        _ => PersonType::Fox,
    }
}

/// A monochrome sample never shows a colored-only appearance, and never a
/// texture-key placeholder; a colored sample may show any of the fifteen
/// human appearances but no placeholder either.
pub proof fn lemma_monochrome_substitution(roll: int, colored: bool)
    ensures
        !colored ==> !is_colored_only(spec_person_for_roll(roll, false)),
        !spec_person_for_roll(roll, colored).is_placeholder(),
{
}

} // verus!
