//! The presentation state machine: screen transitions, the fade schedule,
//! the typewriter reveal, and the end-to-end run into the credits.

use monster::DialoguePage;
use monster::DrawCommand;
use monster::LabelId;
use monster::PlacedActor;
use monster::PresentationMachine;
use monster::PresentationState;
use monster::TextureId;

fn fresh_machine() -> PresentationMachine {
    PresentationMachine::new(Vec::new(), Vec::new())
}

/// A machine that has just entered the courtroom scene.
fn court_machine() -> PresentationMachine {
    let mut m = fresh_machine();
    let mut commands: Vec<DrawCommand> = Vec::new();
    m.step(true, &mut commands);
    commands.clear();
    m.step(true, &mut commands);
    assert_eq!(m.state, PresentationState::CourtroomPlay);
    assert_eq!(m.frame, 0);
    m
}

/// The command list of courtroom frame `t` (frames 0 to t-1 discarded).
fn court_frame(t: u32) -> Vec<DrawCommand> {
    let mut m = court_machine();
    let mut commands: Vec<DrawCommand> = Vec::new();
    for _ in 0..t {
        m.step(false, &mut commands);
        commands.clear();
    }
    m.step(false, &mut commands);
    commands
}

#[test]
fn title_frame_commands() {
    let mut m = fresh_machine();
    let mut commands: Vec<DrawCommand> = Vec::new();
    m.step(false, &mut commands);
    assert_eq!(
        commands,
        vec![
            DrawCommand::Clear,
            DrawCommand::Label { id: LabelId::TitleHeading, font_size: 36, cx: 312, cy: 200 },
            DrawCommand::Label { id: LabelId::TitleSubheading, font_size: 24, cx: 312, cy: 250 },
            DrawCommand::Label { id: LabelId::PressEnter, font_size: 24, cx: 312, cy: 600 },
        ]
    );
    assert_eq!(m.state, PresentationState::Title);
}

#[test]
fn confirm_edges_walk_the_screens() {
    let mut m = fresh_machine();
    let mut commands: Vec<DrawCommand> = Vec::new();
    m.step(true, &mut commands);
    assert_eq!(m.state, PresentationState::Notice);
    m.step(true, &mut commands);
    assert_eq!(m.state, PresentationState::CourtroomPlay);
    assert_eq!(m.frame, 0);
}

#[test]
fn no_confirm_stays_put() {
    let mut m = fresh_machine();
    let mut commands: Vec<DrawCommand> = Vec::new();
    for _ in 0..10 {
        m.step(false, &mut commands);
    }
    assert_eq!(m.state, PresentationState::Title);
    assert_eq!(m.frame, 0);
}

#[test]
fn confirm_is_ignored_during_play() {
    let mut m = court_machine();
    let mut commands: Vec<DrawCommand> = Vec::new();
    m.step(true, &mut commands);
    assert_eq!(m.state, PresentationState::CourtroomPlay);
    assert_eq!(m.frame, 1);
}

#[test]
fn first_court_frame_is_fully_opaque() {
    let commands = court_frame(0);
    assert_eq!(commands[0], DrawCommand::Clear);
    assert_eq!(*commands.last().unwrap(), DrawCommand::FadeOverlay { alpha: 255 });
    // Clear + 206 scene commands + the overlay.
    assert_eq!(commands.len(), 208);
}

#[test]
fn fade_out_schedule() {
    assert_eq!(*court_frame(10).last().unwrap(), DrawCommand::FadeOverlay { alpha: 215 });
    assert_eq!(*court_frame(63).last().unwrap(), DrawCommand::FadeOverlay { alpha: 3 });
    assert_eq!(*court_frame(64).last().unwrap(), DrawCommand::FadeOverlay { alpha: 0 });
    assert_eq!(*court_frame(99).last().unwrap(), DrawCommand::FadeOverlay { alpha: 0 });
}

#[test]
fn no_overlay_mid_scene() {
    let commands = court_frame(100);
    assert!(!commands.iter().any(|c| matches!(c, DrawCommand::FadeOverlay { .. })));
}

#[test]
fn fade_in_schedule() {
    assert_eq!(*court_frame(4301).last().unwrap(), DrawCommand::FadeOverlay { alpha: 0 });
    assert_eq!(*court_frame(4310).last().unwrap(), DrawCommand::FadeOverlay { alpha: 36 });
    assert_eq!(*court_frame(4400).last().unwrap(), DrawCommand::FadeOverlay { alpha: 255 });
}

#[test]
fn typewriter_first_page() {
    // Frame 200: 16 third-frames since the window opened after frame 150.
    let commands = court_frame(200);
    let n = commands.len();
    assert_eq!(commands[n - 2], DrawCommand::DialoguePanel);
    assert_eq!(
        commands[n - 1],
        DrawCommand::PageText { page: DialoguePage::First, shown: 16 }
    );
    // Frame 300: 50 characters shown.
    let commands = court_frame(300);
    assert_eq!(
        *commands.last().unwrap(),
        DrawCommand::PageText { page: DialoguePage::First, shown: 50 }
    );
    // Late in the window the whole 362-character page is shown.
    let commands = court_frame(1500);
    assert_eq!(
        *commands.last().unwrap(),
        DrawCommand::PageText { page: DialoguePage::First, shown: 362 }
    );
}

#[test]
fn typewriter_reveal_is_monotonic() {
    let mut m = court_machine();
    let mut commands: Vec<DrawCommand> = Vec::new();
    let mut last_shown: usize = 0;
    for t in 0..1550 {
        commands.clear();
        m.step(false, &mut commands);
        if t > 150 && t < 1550 {
            match *commands.last().unwrap() {
                DrawCommand::PageText { page, shown } => {
                    assert_eq!(page, DialoguePage::First);
                    assert!(shown >= last_shown);
                    assert!(shown <= 362);
                    last_shown = shown;
                }
                _ => panic!("expected page text at frame {}", t),
            }
        }
    }
}

#[test]
fn typewriter_later_pages() {
    // Frame 1700: (1700 / 3) - 533 = 33 characters of page two.
    let commands = court_frame(1700);
    assert_eq!(
        *commands.last().unwrap(),
        DrawCommand::PageText { page: DialoguePage::Second, shown: 33 }
    );
    // Frame 3000: (3000 / 3) - 966 = 34 characters of page three.
    let commands = court_frame(3000);
    assert_eq!(
        *commands.last().unwrap(),
        DrawCommand::PageText { page: DialoguePage::Third, shown: 34 }
    );
}

#[test]
fn cursor_resets_between_pages() {
    let mut m = court_machine();
    let mut commands: Vec<DrawCommand> = Vec::new();
    for _ in 0..=1599 {
        m.step(false, &mut commands);
        commands.clear();
    }
    // The boundary frame 1599 has just been processed.
    assert_eq!(m.cursor, 0);
    // The first text frame of the second window starts from one.
    let commands = court_frame(1602);
    assert_eq!(
        *commands.last().unwrap(),
        DrawCommand::PageText { page: DialoguePage::Second, shown: 1 }
    );
}

#[test]
fn no_panel_between_windows() {
    for t in [100, 150, 1550, 1599, 1600, 2800, 2801, 2850, 4200, 4300] {
        let commands = court_frame(t);
        assert!(
            !commands.iter().any(|c| matches!(c, DrawCommand::DialoguePanel)),
            "unexpected panel at frame {}",
            t
        );
    }
}

#[test]
fn scene_ends_in_credits() {
    let mut m = court_machine();
    let mut commands: Vec<DrawCommand> = Vec::new();
    for _ in 0..4400 {
        m.step(false, &mut commands);
        commands.clear();
        assert_eq!(m.state, PresentationState::CourtroomPlay);
    }
    // Frame 4400 is the last: its step leaves the scene.
    m.step(false, &mut commands);
    assert_eq!(m.state, PresentationState::Credits);
    assert_eq!(m.frame, 0);
}

#[test]
fn credits_frame_commands() {
    let mut m = court_machine();
    let mut commands: Vec<DrawCommand> = Vec::new();
    for _ in 0..=4400 {
        m.step(false, &mut commands);
        commands.clear();
    }
    assert_eq!(m.state, PresentationState::Credits);
    m.step(false, &mut commands);
    assert_eq!(
        commands,
        vec![
            DrawCommand::Clear,
            DrawCommand::Image { tex: TextureId::Celebration, x: 254, y: 157 },
            DrawCommand::Label { id: LabelId::ThanksHeading, font_size: 32, cx: 312, cy: 300 },
            DrawCommand::Label { id: LabelId::SourceHeading, font_size: 20, cx: 312, cy: 350 },
            DrawCommand::Label { id: LabelId::SourceLink, font_size: 20, cx: 300, cy: 375 },
            DrawCommand::Label { id: LabelId::PressEscape, font_size: 20, cx: 312, cy: 600 },
        ]
    );
    assert_eq!(m.state, PresentationState::Credits);
}

#[test]
fn crowd_is_drawn_each_court_frame() {
    let jury = vec![
        PlacedActor { x: 50, y: 50, kind: monster::PersonType::Person2 },
        PlacedActor { x: 100, y: 60, kind: monster::PersonType::Person3 },
    ];
    let audience = vec![PlacedActor { x: 300, y: 400, kind: monster::PersonType::Person7 }];
    let mut m = PresentationMachine::new(jury, audience);
    let mut commands: Vec<DrawCommand> = Vec::new();
    m.step(true, &mut commands);
    commands.clear();
    m.step(true, &mut commands);
    commands.clear();
    m.step(false, &mut commands);
    // Clear + 206 static commands + 3 crowd blits + the overlay.
    assert_eq!(commands.len(), 211);
    // An off-canvas juror is skipped entirely.
    let jury = vec![PlacedActor { x: -5, y: 50, kind: monster::PersonType::Person2 }];
    let mut m = PresentationMachine::new(jury, Vec::new());
    let mut commands: Vec<DrawCommand> = Vec::new();
    m.step(true, &mut commands);
    commands.clear();
    m.step(true, &mut commands);
    commands.clear();
    m.step(false, &mut commands);
    assert_eq!(commands.len(), 208);
}
