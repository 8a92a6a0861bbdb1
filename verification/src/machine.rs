//! The presentation state machine: the linear sequence of screens
//! (title, notice, courtroom play, credits), the per-frame counter that
//! drives the courtroom timeline, and the fade and typewriter controllers.
//!
//! One call of [`PresentationMachine::step`] is one rendered frame: it reads
//! the confirm edge, advances the counters, and appends the frame's complete
//! command list. The pure transition function [`spec_step`] pins the whole
//! behavior down, and the lemmas at the end state the timing schedule that
//! iterating it produces.

use vstd::arithmetic::div_mod::lemma_div_is_ordered;
use vstd::prelude::*;

use crate::drawing::DrawCommand;
use crate::drawing::TextureId;
use crate::drawing::draw_text;
use crate::sampler::PlacedActor;
use crate::scene::courtroom_scene_layer;
use crate::scene::draw_courtroom_scene;
use crate::script::DialoguePage;
use crate::script::LabelId;
use crate::script::page_len;
use crate::script::spec_page_len;

verus! {

/// The linear presentation states. Only `CourtroomPlay` owns a meaningful
/// frame-driven sub-timeline; `Title` and `Notice` advance on a confirm
/// edge, and `Credits` is terminal.
#[derive(Clone, Copy, Debug, PartialEq, Eq, Structural)]
pub enum PresentationState {
    Title,
    Notice,
    CourtroomPlay,
    Credits,
}

/// The scalar timeline the machine owns: the current state, the frame
/// counter within it, the fade overlay alpha, and the typewriter cursor.
pub ghost struct TimelineView {
    pub state: PresentationState,
    pub frame: int,
    pub alpha: int,
    pub cursor: int,
}

/// The top-level driver: the timeline scalars plus the two actor lists
/// generated once at startup and owned by the scene for its lifetime.
pub struct PresentationMachine {
    pub state: PresentationState,
    pub frame: u32,
    pub fade_alpha: u8,
    pub cursor: usize,
    pub jury: Vec<PlacedActor>,
    pub audience: Vec<PlacedActor>,
}

/// Alpha after one fade-out step: down by 4, saturating at 0.
pub open spec fn sat_sub4(a: int) -> int {
    if a >= 4 {
        a - 4
    } else {
        0
    }
}

/// Alpha after one fade-in step: up by 4, saturating at 255.
pub open spec fn sat_add4(a: int) -> int {
    if a + 4 <= 255 {
        a + 4
    } else {
        255
    }
}

/// The fade alpha after the frame with counter `t`: ramping down while
/// `t < 100`, ramping up while `t > 4300`, untouched in between.
pub open spec fn next_alpha(t: int, a: int) -> int {
    if t < 100 {
        sat_sub4(a)
    } else if t > 4300 {
        sat_add4(a)
    } else {
        a
    }
}

/// The window of the first dialogue page.
pub open spec fn in_window1(t: int) -> bool {
    150 < t < 1550
}

/// The window of the second dialogue page.
pub open spec fn in_window2(t: int) -> bool {
    1600 < t < 2800
}

/// The window of the third dialogue page.
pub open spec fn in_window3(t: int) -> bool {
    2900 < t < 4200
}

/// The typewriter cursor after the frame with counter `t`: up by one every
/// third frame while a page window is active, reset to zero on the two page
/// boundary frames, frozen otherwise.
pub open spec fn next_cursor(t: int, c: int) -> int {
    if in_window1(t) {
        if t % 3 == 0 {
            c + 1
        } else {
            c
        }
    } else if t == 1599 || t == 2801 {
        0
    } else if in_window2(t) || in_window3(t) {
        if t % 3 == 0 {
            c + 1
        } else {
            c
        }
    } else {
        c
    }
}

/// The pure transition function of the machine: the timeline after one
/// rendered frame, given whether a confirm edge was observed. The frame
/// counter is reset to exactly 0 when `CourtroomPlay` is entered and when it
/// is left for `Credits` (after its frame 4400); no other transition exists.
pub open spec fn spec_step(tl: TimelineView, confirm: bool) -> TimelineView {
    match tl.state {
        PresentationState::Title => {
            if confirm {
                TimelineView {
                    state: PresentationState::Notice,
                    frame: tl.frame,
                    alpha: tl.alpha,
                    cursor: tl.cursor,
                }
            } else {
                tl
            }
        },
        PresentationState::Notice => {
            if confirm {
                TimelineView {
                    state: PresentationState::CourtroomPlay,
                    frame: 0,
                    alpha: tl.alpha,
                    cursor: tl.cursor,
                }
            } else {
                tl
            }
        },
        PresentationState::CourtroomPlay => {
            let alpha = next_alpha(tl.frame, tl.alpha);
            let cursor = next_cursor(tl.frame, tl.cursor);
            if tl.frame + 1 > 4400 {
                TimelineView { state: PresentationState::Credits, frame: 0, alpha, cursor }
            } else {
                TimelineView { state: PresentationState::CourtroomPlay, frame: tl.frame + 1, alpha, cursor }
            }
        },
        PresentationState::Credits => tl,
    }
}

/// How much of a page the typewriter shows for a cursor value: the cursor,
/// strictly clamped to the page length.
pub open spec fn spec_reveal_len(len: int, cursor: int) -> int {
    if cursor <= len {
        cursor
    } else {
        len
    }
}

/// The number of characters shown of `page` for a cursor value.
pub open spec fn spec_shown(page: DialoguePage, cursor: int) -> usize {
    spec_reveal_len(spec_page_len(page), cursor) as usize
}

/// The typewriter clamp: the cursor, never past the page length.
pub fn reveal_len(len: usize, cursor: usize) -> (r: usize)
    ensures
        r == spec_reveal_len(len as int, cursor as int),
{
    if cursor <= len {
        cursor
    } else {
        len
    }
}

/// The dialogue layer of a courtroom frame with counter `t` and
/// (post-advance) cursor `c`: within a page window, the white panel and the
/// revealed part of the page; nothing elsewhere.
pub open spec fn dialogue_layer(t: int, c: int) -> Seq<DrawCommand> {
    if in_window1(t) {
        seq![
            DrawCommand::DialoguePanel,
            DrawCommand::PageText { page: DialoguePage::First, shown: spec_shown(DialoguePage::First, c) },
        ]
    } else if in_window2(t) {
        seq![
            DrawCommand::DialoguePanel,
            DrawCommand::PageText { page: DialoguePage::Second, shown: spec_shown(DialoguePage::Second, c) },
        ]
    } else if in_window3(t) {
        seq![
            DrawCommand::DialoguePanel,
            DrawCommand::PageText { page: DialoguePage::Third, shown: spec_shown(DialoguePage::Third, c) },
        ]
    } else {
        Seq::empty()
    }
}

/// The fade layer of a courtroom frame with counter `t` and (pre-update)
/// alpha `a`: the full-canvas black overlay during the fade-in and fade-out
/// windows, nothing in between. It is the topmost layer of the frame.
pub open spec fn fade_layer(t: int, a: int) -> Seq<DrawCommand> {
    if t < 100 || t > 4300 {
        seq![DrawCommand::FadeOverlay { alpha: a as u8 }]
    } else {
        Seq::empty()
    }
}

/// The commands of one title-screen frame.
pub open spec fn title_commands() -> Seq<DrawCommand> {
    seq![
        DrawCommand::Clear,
        DrawCommand::Label { id: LabelId::TitleHeading, font_size: 36, cx: 312, cy: 200 },
        DrawCommand::Label { id: LabelId::TitleSubheading, font_size: 24, cx: 312, cy: 250 },
        DrawCommand::Label { id: LabelId::PressEnter, font_size: 24, cx: 312, cy: 600 },
    ]
}

/// The commands of one notice-screen frame.
pub open spec fn notice_commands() -> Seq<DrawCommand> {
    seq![
        DrawCommand::Clear,
        DrawCommand::Label { id: LabelId::NoticeHeading, font_size: 30, cx: 312, cy: 200 },
        DrawCommand::Label { id: LabelId::NoticeBody1, font_size: 20, cx: 312, cy: 250 },
        DrawCommand::Label { id: LabelId::NoticeBody2, font_size: 20, cx: 312, cy: 270 },
        DrawCommand::Label { id: LabelId::PressEnter, font_size: 24, cx: 312, cy: 600 },
    ]
}

/// The commands of one credits-screen frame: the celebratory image and the
/// thank-you labels, among them the clickable source link.
pub open spec fn credits_commands() -> Seq<DrawCommand> {
    seq![
        DrawCommand::Clear,
        DrawCommand::Image { tex: TextureId::Celebration, x: 254, y: 157 },
        DrawCommand::Label { id: LabelId::ThanksHeading, font_size: 32, cx: 312, cy: 300 },
        DrawCommand::Label { id: LabelId::SourceHeading, font_size: 20, cx: 312, cy: 350 },
        DrawCommand::Label { id: LabelId::SourceLink, font_size: 20, cx: 300, cy: 375 },
        DrawCommand::Label { id: LabelId::PressEscape, font_size: 20, cx: 312, cy: 600 },
    ]
}

/// The commands of one courtroom frame, back to front: clear, the static
/// scene with the sampled crowd, the dialogue layer, then the fade overlay
/// on top of everything.
pub open spec fn courtroom_commands(
    tl: TimelineView,
    jury: Seq<PlacedActor>,
    audience: Seq<PlacedActor>,
) -> Seq<DrawCommand> {
    seq![DrawCommand::Clear] + courtroom_scene_layer(jury, audience) + dialogue_layer(
        tl.frame,
        next_cursor(tl.frame, tl.cursor),
    ) + fade_layer(tl.frame, tl.alpha)
}

/// The complete command list of one frame, for any state.
pub open spec fn frame_commands(
    tl: TimelineView,
    jury: Seq<PlacedActor>,
    audience: Seq<PlacedActor>,
) -> Seq<DrawCommand> {
    match tl.state {
        PresentationState::Title => title_commands(),
        PresentationState::Notice => notice_commands(),
        PresentationState::CourtroomPlay => courtroom_commands(tl, jury, audience),
        PresentationState::Credits => credits_commands(),
    }
}

impl PresentationMachine {
    /// The scalar timeline of the machine.
    pub open spec fn timeline(self) -> TimelineView {
        TimelineView {
            state: self.state,
            frame: self.frame as int,
            alpha: self.fade_alpha as int,
            cursor: self.cursor as int,
        }
    }

    /// Well-formedness: the crowd holds no texture-key placeholder, and the
    /// counters stay within the ranges the timeline can produce.
    pub open spec fn wf(self) -> bool {
        &&& forall|i: int|
            0 <= i < self.jury@.len() ==> !(#[trigger] self.jury@[i]).kind.is_placeholder()
        &&& forall|i: int|
            0 <= i < self.audience@.len() ==> !(#[trigger] self.audience@[i]).kind.is_placeholder()
        &&& match self.state {
            PresentationState::Title => self.frame == 0 && self.cursor == 0,
            PresentationState::Notice => self.frame == 0 && self.cursor == 0,
            PresentationState::CourtroomPlay => self.cursor <= self.frame && self.frame <= 4400,
            PresentationState::Credits => true,
        }
    }

    /// A fresh machine on the title screen, owning the given crowd.
    pub fn new(jury: Vec<PlacedActor>, audience: Vec<PlacedActor>) -> (r: PresentationMachine)
        requires
            forall|i: int| 0 <= i < jury@.len() ==> !(#[trigger] jury@[i]).kind.is_placeholder(),
            forall|i: int|
                0 <= i < audience@.len() ==> !(#[trigger] audience@[i]).kind.is_placeholder(),
        ensures
            r.wf(),
            r.timeline() == initial_timeline(),
            r.jury == jury,
            r.audience == audience,
    {
        PresentationMachine {
            state: PresentationState::Title,
            frame: 0,
            fade_alpha: 255,
            cursor: 0,
            jury,
            audience,
        }
    }

    /// Renders one frame and advances the timeline: appends exactly the
    /// frame's command list for the current state, then moves the timeline
    /// one step of [`spec_step`], with `confirm` the edge of the confirm
    /// key observed this frame. The crowd never changes.
    pub fn step(&mut self, confirm: bool, commands: &mut Vec<DrawCommand>)
        requires
            old(self).wf(),
        ensures
            final(self).wf(),
            final(self).jury == old(self).jury,
            final(self).audience == old(self).audience,
            final(self).timeline() == spec_step(old(self).timeline(), confirm),
            final(commands)@ == old(commands)@ + frame_commands(
                old(self).timeline(),
                old(self).jury@,
                old(self).audience@,
            ),
    {
        let ghost base = commands@;
        commands.push(DrawCommand::Clear);
        match self.state {
            PresentationState::Title => {
                draw_text(commands, LabelId::TitleHeading, 36, 312, 200);
                draw_text(commands, LabelId::TitleSubheading, 24, 312, 250);
                draw_text(commands, LabelId::PressEnter, 24, 312, 600);
                if confirm {
                    self.state = PresentationState::Notice;
                }
                proof {
                    assert(commands@ =~= base + title_commands());
                }
            },
            PresentationState::Notice => {
                draw_text(commands, LabelId::NoticeHeading, 30, 312, 200);
                draw_text(commands, LabelId::NoticeBody1, 20, 312, 250);
                draw_text(commands, LabelId::NoticeBody2, 20, 312, 270);
                draw_text(commands, LabelId::PressEnter, 24, 312, 600);
                if confirm {
                    self.state = PresentationState::CourtroomPlay;
                    self.frame = 0;
                }
                proof {
                    assert(commands@ =~= base + notice_commands());
                }
            },
            PresentationState::CourtroomPlay => {
                draw_courtroom_scene(commands, &self.jury, &self.audience);
                let t = self.frame;
                if t > 150 && t < 1550 {
                    if t % 3 == 0 {
                        self.cursor += 1;
                    }
                    commands.push(DrawCommand::DialoguePanel);
                    let shown = reveal_len(page_len(DialoguePage::First), self.cursor);
                    commands.push(DrawCommand::PageText { page: DialoguePage::First, shown });
                } else if t == 1599 || t == 2801 {
                    self.cursor = 0;
                } else if t > 1600 && t < 2800 {
                    if t % 3 == 0 {
                        self.cursor += 1;
                    }
                    commands.push(DrawCommand::DialoguePanel);
                    let shown = reveal_len(page_len(DialoguePage::Second), self.cursor);
                    commands.push(DrawCommand::PageText { page: DialoguePage::Second, shown });
                } else if t > 2900 && t < 4200 {
                    if t % 3 == 0 {
                        self.cursor += 1;
                    }
                    commands.push(DrawCommand::DialoguePanel);
                    let shown = reveal_len(page_len(DialoguePage::Third), self.cursor);
                    commands.push(DrawCommand::PageText { page: DialoguePage::Third, shown });
                }
                if t < 100 {
                    commands.push(DrawCommand::FadeOverlay { alpha: self.fade_alpha });
                    self.fade_alpha = if self.fade_alpha >= 4 {
                        self.fade_alpha - 4
                    } else {
                        0
                    };
                } else if t > 4300 {
                    commands.push(DrawCommand::FadeOverlay { alpha: self.fade_alpha });
                    self.fade_alpha = if self.fade_alpha <= 251 {
                        self.fade_alpha + 4
                    } else {
                        255
                    };
                }
                self.frame = t + 1;
                if self.frame > 4400 {
                    self.frame = 0;
                    self.state = PresentationState::Credits;
                }
                proof {
                    assert(commands@ =~= base + courtroom_commands(
                        old(self).timeline(),
                        old(self).jury@,
                        old(self).audience@,
                    ));
                }
            },
            PresentationState::Credits => {
                commands.push(DrawCommand::Image { tex: TextureId::Celebration, x: 254, y: 157 });
                draw_text(commands, LabelId::ThanksHeading, 32, 312, 300);
                draw_text(commands, LabelId::SourceHeading, 20, 312, 350);
                draw_text(commands, LabelId::SourceLink, 20, 300, 375);
                draw_text(commands, LabelId::PressEscape, 20, 312, 600);
                proof {
                    assert(commands@ =~= base + credits_commands());
                }
            },
        }
    }
}

/// The timeline of a fresh machine: the title screen, all counters zero,
/// the overlay fully opaque.
pub open spec fn initial_timeline() -> TimelineView {
    TimelineView { state: PresentationState::Title, frame: 0, alpha: 255, cursor: 0 }
}

/// The timeline at the moment `CourtroomPlay` is entered.
pub open spec fn court_entry() -> TimelineView {
    TimelineView { state: PresentationState::CourtroomPlay, frame: 0, alpha: 255, cursor: 0 }
}

/// The timeline after `n` further frames with no confirm input.
pub open spec fn run_idle(tl: TimelineView, n: nat) -> TimelineView
    decreases n,
{
    if n == 0 {
        tl
    } else {
        spec_step(run_idle(tl, (n - 1) as nat), false)
    }
}

/// The fade alpha at the start of courtroom frame `t`: 255 at entry,
/// falling by 4 per frame to 0 over the fade-in, flat at 0 through the
/// scene, rising by 4 per frame from frame 4302 on, saturating at 255.
pub open spec fn court_alpha(t: int) -> int {
    if t <= 0 {
        255
    } else if t <= 100 {
        if 255 - 4 * t >= 0 {
            255 - 4 * t
        } else {
            0
        }
    } else if t <= 4301 {
        0
    } else {
        if 4 * (t - 4301) <= 255 {
            4 * (t - 4301)
        } else {
            255
        }
    }
}

/// The typewriter cursor at the start of courtroom frame `t`: zero until
/// the first tick of each page window, counting up by one every third frame
/// through the window, frozen between windows, and reset on the two page
/// boundary frames (1599 and 2801).
pub open spec fn court_cursor(t: int) -> int {
    if t <= 153 {
        0
    } else if t <= 1550 {
        (t - 1) / 3 - 50
    } else if t <= 1599 {
        466
    } else if t <= 1602 {
        0
    } else if t <= 2800 {
        (t - 1) / 3 - 533
    } else if t <= 2801 {
        400
    } else if t <= 2901 {
        0
    } else if t <= 4200 {
        (t - 1) / 3 - 966
    } else {
        433
    }
}

/// The timeline reached `k` frames after entering the courtroom: through
/// frame 4400 the machine is still in `CourtroomPlay` with the scheduled
/// alpha and cursor; one frame later it sits in `Credits` with the counter
/// reset to zero.
pub open spec fn court_inv(tl: TimelineView, k: int) -> bool {
    if k <= 4400 {
        &&& tl.state == PresentationState::CourtroomPlay
        &&& tl.frame == k
        &&& tl.alpha == court_alpha(k)
        &&& tl.cursor == court_cursor(k)
    } else {
        tl.state == PresentationState::Credits && tl.frame == 0
    }
}

/// Stepping from frame `t` to `t + 1` moves the integer quotient by three
/// up exactly on the frames divisible by three.
proof fn lemma_div3_step(t: int)
    requires
        t >= 1,
    ensures
        t % 3 == 0 ==> t / 3 == (t - 1) / 3 + 1,
        t % 3 != 0 ==> t / 3 == (t - 1) / 3,
{
    vstd::arithmetic::div_mod::lemma_fundamental_div_mod(t, 3);
    vstd::arithmetic::div_mod::lemma_fundamental_div_mod(t - 1, 3);
}

/// One idle step preserves the courtroom schedule.
proof fn lemma_court_step(tl: TimelineView, k: int)
    requires
        0 <= k <= 4400,
        court_inv(tl, k),
    ensures
        court_inv(spec_step(tl, false), k + 1),
{
    if k >= 1 {
        lemma_div3_step(k);
    }
}

/// After `n` idle frames from the courtroom entry, the timeline sits where
/// the schedule says: still playing with the scheduled counters through
/// frame 4400, in `Credits` with the counter reset from frame 4401 on.
pub proof fn lemma_courtroom_schedule(n: nat)
    requires
        n <= 4401,
    ensures
        court_inv(run_idle(court_entry(), n), n as int),
    decreases n,
{
    if n > 0 {
        lemma_courtroom_schedule((n - 1) as nat);
        lemma_court_step(run_idle(court_entry(), (n - 1) as nat), n as int - 1);
    }
}

/// The fade schedule of the courtroom scene: while `t < 100` the overlay
/// alpha drawn at frame `t` is exactly `255 - 4t`, saturating at 0; while
/// `t > 4300` it rises again from 0 by 4 per frame, saturating at 255.
/// (The alpha drawn at frame `t` is the alpha at the start of that frame.)
pub proof fn lemma_fade_schedule(t: nat)
    requires
        t <= 4400,
    ensures
        run_idle(court_entry(), t).alpha == court_alpha(t as int),
        t < 100 ==> run_idle(court_entry(), t).alpha == if 255 - 4 * (t as int) >= 0 {
            255 - 4 * (t as int)
        } else {
            0
        },
        t > 4301 ==> run_idle(court_entry(), t).alpha == if 4 * (t as int - 4301) <= 255 {
            4 * (t as int - 4301)
        } else {
            255
        },
{
    lemma_courtroom_schedule(t);
}

/// The typewriter schedule: at every frame of a page window, the cursor
/// used to draw that frame's text equals the number of third-frames elapsed
/// since the window's aligned start, so the shown length is that count,
/// strictly clamped to the page length.
pub proof fn lemma_typewriter_schedule(t: nat)
    requires
        t <= 4400,
    ensures
        run_idle(court_entry(), t).cursor == court_cursor(t as int),
        in_window1(t as int) ==> next_cursor(t as int, run_idle(court_entry(), t).cursor) == (
        t as int) / 3 - 50,
        in_window2(t as int) ==> next_cursor(t as int, run_idle(court_entry(), t).cursor) == (
        t as int) / 3 - 533,
        in_window3(t as int) ==> next_cursor(t as int, run_idle(court_entry(), t).cursor) == (
        t as int) / 3 - 966,
{
    lemma_courtroom_schedule(t);
    if t >= 1 {
        lemma_div3_step(t as int);
    }
}

/// The revealed length formula: at every frame `t` of a page window, the
/// page-text command drawn at that frame shows exactly the number of
/// third-frames elapsed since the window's aligned start, strictly clamped
/// to the page length.
pub proof fn lemma_reveal_formula(t: nat)
    requires
        t <= 4400,
    ensures
        in_window1(t as int) ==> dialogue_layer(
            t as int,
            next_cursor(t as int, run_idle(court_entry(), t).cursor),
        ) =~= seq![
            DrawCommand::DialoguePanel,
            DrawCommand::PageText {
                page: DialoguePage::First,
                shown: spec_reveal_len(spec_page_len(DialoguePage::First), (t as int) / 3 - 50) as usize,
            },
        ],
        in_window2(t as int) ==> dialogue_layer(
            t as int,
            next_cursor(t as int, run_idle(court_entry(), t).cursor),
        ) =~= seq![
            DrawCommand::DialoguePanel,
            DrawCommand::PageText {
                page: DialoguePage::Second,
                shown: spec_reveal_len(spec_page_len(DialoguePage::Second), (t as int) / 3 - 533) as usize,
            },
        ],
        in_window3(t as int) ==> dialogue_layer(
            t as int,
            next_cursor(t as int, run_idle(court_entry(), t).cursor),
        ) =~= seq![
            DrawCommand::DialoguePanel,
            DrawCommand::PageText {
                page: DialoguePage::Third,
                shown: spec_reveal_len(spec_page_len(DialoguePage::Third), (t as int) / 3 - 966) as usize,
            },
        ],
{
    lemma_typewriter_schedule(t);
}

/// The typewriter reveal never shrinks while a page window is active: the
/// cursor drawn at a later frame of the same window is at least the cursor
/// drawn at an earlier one, so the revealed prefix only grows.
pub proof fn lemma_reveal_monotonic(t1: nat, t2: nat)
    requires
        t1 <= t2 <= 4400,
        in_window1(t1 as int) && in_window1(t2 as int) || in_window2(t1 as int) && in_window2(
            t2 as int,
        ) || in_window3(t1 as int) && in_window3(t2 as int),
    ensures
        next_cursor(t1 as int, run_idle(court_entry(), t1).cursor) <= next_cursor(
            t2 as int,
            run_idle(court_entry(), t2).cursor,
        ),
{
    lemma_typewriter_schedule(t1);
    lemma_typewriter_schedule(t2);
    lemma_div_is_ordered(t1 as int, t2 as int, 3);
}

/// The transition sequence is exactly linear: a step moves the state to
/// itself or to its immediate successor in
/// title, notice, courtroom play, credits; and the courtroom frame counter
/// is exactly 0 both on entry into `CourtroomPlay` and on the transition
/// out of it into `Credits`.
pub proof fn lemma_linear_transitions(tl: TimelineView, confirm: bool)
    ensures
        tl.state == PresentationState::Title ==> spec_step(tl, confirm).state
            == PresentationState::Title || spec_step(tl, confirm).state
            == PresentationState::Notice,
        tl.state == PresentationState::Notice ==> spec_step(tl, confirm).state
            == PresentationState::Notice || spec_step(tl, confirm).state
            == PresentationState::CourtroomPlay,
        tl.state == PresentationState::CourtroomPlay ==> spec_step(tl, confirm).state
            == PresentationState::CourtroomPlay || spec_step(tl, confirm).state
            == PresentationState::Credits,
        tl.state == PresentationState::Credits ==> spec_step(tl, confirm).state
            == PresentationState::Credits,
        tl.state != PresentationState::CourtroomPlay && spec_step(tl, confirm).state
            == PresentationState::CourtroomPlay ==> spec_step(tl, confirm).frame == 0,
        tl.state == PresentationState::CourtroomPlay && spec_step(tl, confirm).state
            == PresentationState::Credits ==> spec_step(tl, confirm).frame == 0,
{
}

/// The end-to-end scenario: from the title screen, one confirm edge reaches
/// the notice, a second reaches the courtroom with its counter at exactly
/// 0, and 4401 idle frames later the machine sits in the credits with the
/// counter reset to 0.
pub proof fn lemma_end_to_end()
    ensures
        spec_step(initial_timeline(), true).state == PresentationState::Notice,
        spec_step(spec_step(initial_timeline(), true), true) == court_entry(),
        run_idle(court_entry(), 4401).state == PresentationState::Credits,
        run_idle(court_entry(), 4401).frame == 0,
{
    lemma_courtroom_schedule(4401);
}

/// Every frame is redrawn from scratch: the command list of any frame, in
/// any state, begins by clearing the canvas.
pub proof fn lemma_frame_starts_clear(
    tl: TimelineView,
    jury: Seq<PlacedActor>,
    audience: Seq<PlacedActor>,
)
    ensures
        frame_commands(tl, jury, audience).len() > 0,
        frame_commands(tl, jury, audience)[0] == DrawCommand::Clear,
{
}

/// The fade overlay is the topmost layer: whenever it is active, it is the
/// last command of the frame, so nothing occludes it.
pub proof fn lemma_fade_topmost(
    tl: TimelineView,
    jury: Seq<PlacedActor>,
    audience: Seq<PlacedActor>,
)
    requires
        tl.state == PresentationState::CourtroomPlay,
        tl.frame < 100 || tl.frame > 4300,
    ensures
        frame_commands(tl, jury, audience).last() == (DrawCommand::FadeOverlay {
            alpha: tl.alpha as u8,
        }),
{
}

} // verus!
