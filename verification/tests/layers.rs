//! The composed scene layers: sizes and leading commands of each layer, and
//! the remaining single-command emitters.

use monster::DrawCommand;
use monster::LabelId;
use monster::PersonType;
use monster::PlacedActor;
use monster::Rect;
use monster::TextureId;
use monster::draw_courtroom_carpets;
use monster::draw_courtroom_props;
use monster::draw_courtroom_scene;
use monster::draw_courtroom_walls;
use monster::draw_horizontal_line;
use monster::draw_jury_floor;
use monster::draw_people;
use monster::draw_scripted_actors;
use monster::draw_text;

#[test]
fn layer_sizes() {
    let mut v: Vec<DrawCommand> = Vec::new();
    draw_courtroom_walls(&mut v);
    // 4 corners, 11 top tiles, 8 bottom tiles, 22 side tiles.
    assert_eq!(v.len(), 45);
    assert_eq!(
        v[0],
        DrawCommand::Blit {
            tex: TextureId::Walls,
            src: Rect { x: 0, y: 0, w: 16, h: 16 },
            dst: Rect { x: 0, y: 0, w: 48, h: 48 },
        }
    );
    let n = v.len();
    draw_courtroom_carpets(&mut v);
    // The 11x11 inner floor plus the three doorway tiles.
    assert_eq!(v.len(), n + 124);
    let n = v.len();
    draw_jury_floor(&mut v);
    assert_eq!(v.len(), n + 6);
    let n = v.len();
    draw_courtroom_props(&mut v);
    // Two chairs and a wall edge, the five-tile stand with its two side
    // tiles, the six-tile bar with its two posts, and eight tables.
    assert_eq!(v.len(), n + 26);
    let n = v.len();
    draw_scripted_actors(&mut v);
    assert_eq!(v.len(), n + 5);
}

#[test]
fn whole_scene_size() {
    let mut v: Vec<DrawCommand> = Vec::new();
    draw_courtroom_scene(&mut v, &Vec::new(), &Vec::new());
    assert_eq!(v.len(), 206);
}

#[test]
fn people_layer_skips_off_canvas_members() {
    let crowd = vec![
        PlacedActor { x: 100, y: 100, kind: PersonType::Person2 },
        PlacedActor { x: 700, y: 100, kind: PersonType::Person3 },
        PlacedActor { x: 200, y: 300, kind: PersonType::Person4 },
    ];
    let mut v: Vec<DrawCommand> = Vec::new();
    draw_people(&mut v, &crowd);
    assert_eq!(v.len(), 2);
    assert_eq!(
        v[0],
        DrawCommand::Blit {
            tex: TextureId::Person(PersonType::Person2),
            src: Rect { x: 0, y: 0, w: 14, h: 19 },
            dst: Rect { x: 100, y: 100, w: 28, h: 38 },
        }
    );
    assert_eq!(
        v[1],
        DrawCommand::Blit {
            tex: TextureId::Person(PersonType::Person4),
            src: Rect { x: 0, y: 0, w: 13, h: 19 },
            dst: Rect { x: 200, y: 300, w: 26, h: 38 },
        }
    );
}

#[test]
fn scripted_actors_commands() {
    let mut v: Vec<DrawCommand> = Vec::new();
    draw_scripted_actors(&mut v);
    // The judge leads, the prosecutor closes.
    assert_eq!(
        v[0],
        DrawCommand::Blit {
            tex: TextureId::Person(PersonType::Gnome(monster::GnomeType::NoType)),
            src: Rect { x: 0, y: 0, w: 16, h: 16 },
            dst: Rect { x: 291, y: 48, w: 48, h: 48 },
        }
    );
    assert_eq!(
        v[4],
        DrawCommand::Blit {
            tex: TextureId::Person(PersonType::Person12),
            src: Rect { x: 0, y: 0, w: 14, h: 19 },
            dst: Rect { x: 128, y: 210, w: 28, h: 38 },
        }
    );
}

#[test]
fn jury_floor_commands() {
    let mut v: Vec<DrawCommand> = Vec::new();
    draw_jury_floor(&mut v);
    for (k, cmd) in v.iter().enumerate() {
        let x = (k / 2 + 1) as i32;
        let y = (k % 2 + 1) as i32;
        assert_eq!(
            *cmd,
            DrawCommand::Blit {
                tex: TextureId::Walls,
                src: Rect { x: 16, y: 16, w: 16, h: 16 },
                dst: Rect { x: x * 48, y: y * 48, w: 48, h: 48 },
            },
            "floor tile {}",
            k
        );
    }
    assert_eq!(v.len(), 6);
}

#[test]
fn single_command_emitters() {
    let mut v: Vec<DrawCommand> = Vec::new();
    draw_text(&mut v, LabelId::PressEscape, 20, 312, 600);
    draw_horizontal_line(&mut v, 77);
    assert_eq!(
        v,
        vec![
            DrawCommand::Label { id: LabelId::PressEscape, font_size: 20, cx: 312, cy: 600 },
            DrawCommand::HLine { y: 77 },
        ]
    );
}

#[test]
fn walls_use_the_wall_texture_only() {
    let mut v: Vec<DrawCommand> = Vec::new();
    draw_courtroom_walls(&mut v);
    for cmd in &v {
        match cmd {
            DrawCommand::Blit { tex, src, dst } => {
                assert_eq!(*tex, TextureId::Walls);
                assert_eq!((src.w, src.h), (16, 16));
                assert_eq!((dst.w, dst.h), (48, 48));
            }
            other => panic!("unexpected command {:?}", other),
        }
    }
}
