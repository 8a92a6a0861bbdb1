//! The scripted text of the vignette: the three dialogue pages revealed by
//! the typewriter, and the short labels of the title, notice and credits
//! screens.

use vstd::prelude::*;

verus! {

/// One of the three dialogue pages of the courtroom scene, revealed in order
/// by the typewriter over the scene's timeline.
#[derive(Clone, Copy, Debug, PartialEq, Eq, Structural)]
pub enum DialoguePage {
    First,
    Second,
    Third,
}

/// The characters of a dialogue page.
pub open spec fn spec_page_text(page: DialoguePage) -> Seq<char> {
    match page {
        DialoguePage::First => (
        "Steve looks at the jury and sees one juror staring at him.\nHe looks back at them and makes eye contact.\nHe notices the juror has a somewhat disgusted facial expression.\nAs he continues looking over, he wonders why.\nHe flashes back to the start of the trial and what O'Brien said:\n\"You're young, you're black, and you're on trial: what else do they need to know?\""
        )@,
        DialoguePage::Second => (
        "To try and break the ice, he waves.\nThe juror snarls and looks away.\nWith a heavy heart, he looks up at the American flag over the judge and places his trust in the 12 members of the jury who are the ones to decide his fate.\nHe knows he is innocent and hopes the justice system sees him the same way."
        )@,
        DialoguePage::Third => (
        "But as he thinks of all this, he worries more and more about the mainly white jury. He flashes back to O'Brien's statement again, and just can't get it out of his mind. It's hard not to be worried or stressed under this situation.\nSteve is handling it remarkably well."
        )@,
    }
}

/// The length of a dialogue page in characters. Every page is plain ASCII,
/// so this is also its length in bytes, and a typewriter cursor clamped
/// against it indexes the page safely.
pub open spec fn spec_page_len(page: DialoguePage) -> int {
    spec_page_text(page).len() as int
}

/// The text of a dialogue page.
pub fn page_text(page: DialoguePage) -> (r: &'static str)
    ensures
        r@ == spec_page_text(page),
{
    match page {
        DialoguePage::First => {
            "Steve looks at the jury and sees one juror staring at him.\nHe looks back at them and makes eye contact.\nHe notices the juror has a somewhat disgusted facial expression.\nAs he continues looking over, he wonders why.\nHe flashes back to the start of the trial and what O'Brien said:\n\"You're young, you're black, and you're on trial: what else do they need to know?\""
        },
        DialoguePage::Second => {
            "To try and break the ice, he waves.\nThe juror snarls and looks away.\nWith a heavy heart, he looks up at the American flag over the judge and places his trust in the 12 members of the jury who are the ones to decide his fate.\nHe knows he is innocent and hopes the justice system sees him the same way."
        },
        DialoguePage::Third => {
            "But as he thinks of all this, he worries more and more about the mainly white jury. He flashes back to O'Brien's statement again, and just can't get it out of his mind. It's hard not to be worried or stressed under this situation.\nSteve is handling it remarkably well."
        },
    }
}

/// The length of a dialogue page in characters.
pub fn page_len(page: DialoguePage) -> (r: usize)
    ensures
        r == spec_page_len(page),
{
    proof {
        lemma_page_lengths();
    }
    match page {
        DialoguePage::First => 362,
        DialoguePage::Second => 300,
        DialoguePage::Third => 268,
    }
}

/// The concrete lengths of the three dialogue pages.
pub proof fn lemma_page_lengths()
    ensures
        spec_page_len(DialoguePage::First) == 362,
        spec_page_len(DialoguePage::Second) == 300,
        spec_page_len(DialoguePage::Third) == 268,
{
    reveal_strlit(
        "Steve looks at the jury and sees one juror staring at him.\nHe looks back at them and makes eye contact.\nHe notices the juror has a somewhat disgusted facial expression.\nAs he continues looking over, he wonders why.\nHe flashes back to the start of the trial and what O'Brien said:\n\"You're young, you're black, and you're on trial: what else do they need to know?\"",
    );
    reveal_strlit(
        "To try and break the ice, he waves.\nThe juror snarls and looks away.\nWith a heavy heart, he looks up at the American flag over the judge and places his trust in the 12 members of the jury who are the ones to decide his fate.\nHe knows he is innocent and hopes the justice system sees him the same way.",
    );
    reveal_strlit(
        "But as he thinks of all this, he worries more and more about the mainly white jury. He flashes back to O'Brien's statement again, and just can't get it out of his mind. It's hard not to be worried or stressed under this situation.\nSteve is handling it remarkably well.",
    );
}

/// One of the fixed text labels of the title, notice and credits screens.
#[derive(Clone, Copy, Debug, PartialEq, Eq, Structural)]
pub enum LabelId {
    /// The book's title on the title screen
    TitleHeading,
    /// The subtitle on the title screen
    TitleSubheading,
    /// The confirm prompt of the title and notice screens
    PressEnter,
    /// The heading of the notice screen
    NoticeHeading,
    /// First line of the notice
    NoticeBody1,
    /// Second line of the notice
    NoticeBody2,
    /// The heading of the credits screen
    ThanksHeading,
    /// Introduces the source link on the credits screen
    SourceHeading,
    /// The clickable source link on the credits screen
    SourceLink,
    /// The exit prompt of the credits screen
    PressEscape,
}

/// The characters of a label.
pub open spec fn spec_label_text(id: LabelId) -> Seq<char> {
    match id {
        LabelId::TitleHeading => ("Monster")@,
        LabelId::TitleSubheading => ("An Interactive Book")@,
        LabelId::PressEnter => ("Press ENTER to continue...")@,
        LabelId::NoticeHeading => ("Note:")@,
        LabelId::NoticeBody1 => ("Some changes were made to")@,
        LabelId::NoticeBody2 => ("characters due to lack of free pixel art.")@,
        LabelId::ThanksHeading => ("Thanks for checking this out!")@,
        LabelId::SourceHeading => ("Source code is public:")@,
        LabelId::SourceLink => ("https://github.com/tazz4843/monster-storybook")@,
        LabelId::PressEscape => ("Press ESC to exit")@,
    }
}

/// The text drawn for a label.
pub fn label_text(id: LabelId) -> (r: &'static str)
    ensures
        r@ == spec_label_text(id),
{
    match id {
        LabelId::TitleHeading => "Monster",
        LabelId::TitleSubheading => "An Interactive Book",
        LabelId::PressEnter => "Press ENTER to continue...",
        LabelId::NoticeHeading => "Note:",
        LabelId::NoticeBody1 => "Some changes were made to",
        LabelId::NoticeBody2 => "characters due to lack of free pixel art.",
        LabelId::ThanksHeading => "Thanks for checking this out!",
        LabelId::SourceHeading => "Source code is public:",
        LabelId::SourceLink => "https://github.com/tazz4843/monster-storybook",
        LabelId::PressEscape => "Press ESC to exit",
    }
}

/// The browser link a label opens when clicked, if any: only the source link
/// of the credits screen is clickable, and it opens the address it displays.
pub fn label_link(id: LabelId) -> (r: Option<&'static str>)
    ensures
        r is Some <==> id == LabelId::SourceLink,
        r matches Some(u) ==> u@ == spec_label_text(LabelId::SourceLink),
{
    match id {
        LabelId::SourceLink => Some("https://github.com/tazz4843/monster-storybook"),
        _ => None,
    }
}

} // verus!
