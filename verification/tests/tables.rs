//! The fixed data tables: atlas source rectangles, destination sizing,
//! carpet layout, the appearance substitution table, labels and pages.

use monster::CarpetType;
use monster::ChickType;
use monster::DialoguePage;
use monster::DrawCommand;
use monster::GnomeType;
use monster::LabelId;
use monster::PersonType;
use monster::PropTypes;
use monster::Rect;
use monster::TextureId;
use monster::WallType;
use monster::carpet_at;
use monster::draw_carpet;
use monster::draw_person;
use monster::draw_prop;
use monster::draw_wall;
use monster::hit_test;
use monster::label_hitbox;
use monster::label_link;
use monster::label_origin;
use monster::label_text;
use monster::page_len;
use monster::page_text;
use monster::person_for_roll;
use monster::reveal_len;

#[test]
fn wall_tile_blit() {
    let mut v: Vec<DrawCommand> = Vec::new();
    draw_wall(&mut v, WallType::TallWall, 2, 3);
    assert_eq!(v.len(), 1);
    assert_eq!(
        v[0],
        DrawCommand::Blit {
            tex: TextureId::Walls,
            src: Rect { x: 80, y: 0, w: 16, h: 16 },
            dst: Rect { x: 96, y: 144, w: 48, h: 48 },
        }
    );
    let mut v: Vec<DrawCommand> = Vec::new();
    draw_wall(&mut v, WallType::Floor, 0, 0);
    assert_eq!(
        v[0],
        DrawCommand::Blit {
            tex: TextureId::Walls,
            src: Rect { x: 16, y: 16, w: 16, h: 16 },
            dst: Rect { x: 0, y: 0, w: 48, h: 48 },
        }
    );
}

#[test]
fn carpet_tile_blit() {
    let mut v: Vec<DrawCommand> = Vec::new();
    draw_carpet(&mut v, CarpetType::TopBottomWall, 1, 1);
    assert_eq!(
        v[0],
        DrawCommand::Blit {
            tex: TextureId::Carpet,
            src: Rect { x: 80, y: 80, w: 16, h: 16 },
            dst: Rect { x: 48, y: 48, w: 48, h: 48 },
        }
    );
}

#[test]
fn prop_tile_blit() {
    let mut v: Vec<DrawCommand> = Vec::new();
    draw_prop(&mut v, PropTypes::LargeTable, 11, 4);
    assert_eq!(
        v[0],
        DrawCommand::Blit {
            tex: TextureId::Props,
            src: Rect { x: 112, y: 0, w: 16, h: 16 },
            dst: Rect { x: 528, y: 192, w: 48, h: 48 },
        }
    );
}

#[test]
fn person_blit_families() {
    // A chick scales to 24x34 from a 12x17 source, keyed by its family.
    let mut v: Vec<DrawCommand> = Vec::new();
    draw_person(&mut v, PersonType::Chick(ChickType::WalkingForward2), 100, 200);
    assert_eq!(
        v[0],
        DrawCommand::Blit {
            tex: TextureId::Person(PersonType::Chick(ChickType::NoType)),
            src: Rect { x: 13, y: 0, w: 12, h: 17 },
            dst: Rect { x: 100, y: 200, w: 24, h: 34 },
        }
    );
    // The idle gnome comes from column 80 of its strip, scaled 2x.
    let mut v: Vec<DrawCommand> = Vec::new();
    draw_person(&mut v, PersonType::Gnome(GnomeType::IdleRight), 291, 48);
    assert_eq!(
        v[0],
        DrawCommand::Blit {
            tex: TextureId::Person(PersonType::Gnome(GnomeType::NoType)),
            src: Rect { x: 80, y: 0, w: 16, h: 16 },
            dst: Rect { x: 291, y: 48, w: 48, h: 48 },
        }
    );
    // The walking gnome frames come from their own strip columns.
    let mut v: Vec<DrawCommand> = Vec::new();
    draw_person(&mut v, PersonType::Gnome(GnomeType::WalkingRight), 0, 0);
    draw_person(&mut v, PersonType::Gnome(GnomeType::WalkingBackward2), 0, 0);
    assert!(matches!(v[0], DrawCommand::Blit { src: Rect { x: 64, .. }, .. }));
    assert!(matches!(v[1], DrawCommand::Blit { src: Rect { x: 48, .. }, .. }));
    // The duck-boy family shares the chick's sizing.
    let mut v: Vec<DrawCommand> = Vec::new();
    draw_person(&mut v, PersonType::DuckBoy(monster::DuckType::WalkingForward2), 10, 10);
    assert_eq!(
        v[0],
        DrawCommand::Blit {
            tex: TextureId::Person(PersonType::DuckBoy(monster::DuckType::NoType)),
            src: Rect { x: 13, y: 0, w: 12, h: 17 },
            dst: Rect { x: 10, y: 10, w: 24, h: 34 },
        }
    );
    // A human appearance keys its own texture.
    let mut v: Vec<DrawCommand> = Vec::new();
    draw_person(&mut v, PersonType::Person1, 448, 210);
    assert_eq!(
        v[0],
        DrawCommand::Blit {
            tex: TextureId::Person(PersonType::Person1),
            src: Rect { x: 0, y: 0, w: 11, h: 18 },
            dst: Rect { x: 448, y: 210, w: 22, h: 36 },
        }
    );
}

#[test]
fn person_draw_is_noop_off_canvas() {
    let mut v: Vec<DrawCommand> = Vec::new();
    draw_person(&mut v, PersonType::Fox, -1, 100);
    draw_person(&mut v, PersonType::Fox, 100, -1);
    draw_person(&mut v, PersonType::Fox, 625, 100);
    draw_person(&mut v, PersonType::Fox, 100, 625);
    assert_eq!(v.len(), 0);
    // The edges of the canvas are inclusive.
    draw_person(&mut v, PersonType::Fox, 0, 0);
    draw_person(&mut v, PersonType::Fox, 624, 624);
    assert_eq!(v.len(), 2);
}

#[test]
fn carpet_layout() {
    assert_eq!(carpet_at(1, 1), CarpetType::LeftTopWall);
    assert_eq!(carpet_at(1, 11), CarpetType::LeftBottomWall);
    assert_eq!(carpet_at(11, 1), CarpetType::RightTopWall);
    assert_eq!(carpet_at(11, 11), CarpetType::RightBottomWall);
    assert_eq!(carpet_at(5, 11), CarpetType::BottomLeftCornerWall);
    assert_eq!(carpet_at(6, 11), CarpetType::NoWalls);
    assert_eq!(carpet_at(7, 11), CarpetType::BottomRightCornerWall);
    assert_eq!(carpet_at(1, 6), CarpetType::LeftWall);
    assert_eq!(carpet_at(11, 5), CarpetType::RightWall);
    assert_eq!(carpet_at(4, 1), CarpetType::TopWall);
    assert_eq!(carpet_at(4, 11), CarpetType::BottomWall);
    assert_eq!(carpet_at(3, 3), CarpetType::NoWalls);
}

#[test]
fn appearance_table_colored() {
    let expected = [
        PersonType::Person1,
        PersonType::Person2,
        PersonType::Person3,
        PersonType::Person4,
        PersonType::Person5,
        PersonType::Person6,
        PersonType::Person7,
        PersonType::Person8,
        PersonType::Person9,
        PersonType::Person10,
        PersonType::Person11,
        PersonType::Person12,
        PersonType::Person13,
        PersonType::Person14,
        PersonType::Person15,
    ];
    for roll in 1..=15 {
        assert_eq!(person_for_roll(roll, true), expected[(roll - 1) as usize]);
    }
}

#[test]
fn appearance_table_monochrome() {
    let expected = [
        PersonType::Person1,
        PersonType::Person2,
        PersonType::Person3,
        PersonType::Person2,
        PersonType::Person3,
        PersonType::Person6,
        PersonType::Person7,
        PersonType::Person8,
        PersonType::Person6,
        PersonType::Person8,
        PersonType::Person7,
        PersonType::Person12,
        PersonType::Person12,
        PersonType::Person14,
        PersonType::Person14,
    ];
    for roll in 1..=15 {
        assert_eq!(person_for_roll(roll, false), expected[(roll - 1) as usize]);
    }
}

#[test]
fn appearance_fallback_is_fox() {
    assert_eq!(person_for_roll(16, true), PersonType::Fox);
    assert_eq!(person_for_roll(16, false), PersonType::Fox);
    assert_eq!(person_for_roll(0, true), PersonType::Fox);
}

#[test]
fn page_texts() {
    assert_eq!(page_len(DialoguePage::First), 362);
    assert_eq!(page_len(DialoguePage::Second), 300);
    assert_eq!(page_len(DialoguePage::Third), 268);
    assert_eq!(page_text(DialoguePage::First).len(), 362);
    assert_eq!(page_text(DialoguePage::Second).len(), 300);
    assert_eq!(page_text(DialoguePage::Third).len(), 268);
    assert!(page_text(DialoguePage::First).starts_with("Steve looks at the jury"));
    assert!(page_text(DialoguePage::First).ends_with("what else do they need to know?\""));
    assert!(page_text(DialoguePage::Second).contains("places his trust in the 12 members"));
    assert!(page_text(DialoguePage::Third).contains("just can't get it out of his mind"));
    assert!(page_text(DialoguePage::First).is_ascii());
    assert!(page_text(DialoguePage::Second).is_ascii());
    assert!(page_text(DialoguePage::Third).is_ascii());
}

#[test]
fn labels_and_link() {
    assert_eq!(label_text(LabelId::TitleHeading), "Monster");
    assert_eq!(label_text(LabelId::TitleSubheading), "An Interactive Book");
    assert_eq!(label_text(LabelId::PressEnter), "Press ENTER to continue...");
    assert_eq!(label_text(LabelId::NoticeBody2), "characters due to lack of free pixel art.");
    assert_eq!(
        label_link(LabelId::SourceLink),
        Some("https://github.com/tazz4843/monster-storybook")
    );
    assert_eq!(label_link(LabelId::SourceLink), Some(label_text(LabelId::SourceLink)));
    assert_eq!(label_link(LabelId::TitleHeading), None);
    assert_eq!(label_link(LabelId::PressEscape), None);
}

#[test]
fn reveal_clamp() {
    assert_eq!(reveal_len(5, 3), 3);
    assert_eq!(reveal_len(5, 5), 5);
    assert_eq!(reveal_len(5, 9), 5);
    assert_eq!(reveal_len(0, 7), 0);
}

#[test]
fn label_placement() {
    assert_eq!(label_origin(100, 36, 312, 200), (262, 182));
    assert_eq!(
        label_hitbox(101, 37, 312, 200),
        Rect { x: 262, y: 182, w: 100, h: 36 }
    );
    let r = Rect { x: 10, y: 10, w: 20, h: 20 };
    assert!(hit_test(r, 10, 10));
    assert!(hit_test(r, 30, 30));
    assert!(!hit_test(r, 31, 30));
    assert!(!hit_test(r, 9, 15));
}
