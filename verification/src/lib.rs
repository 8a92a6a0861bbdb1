//! A fixed-duration animated courtroom vignette: a tile-composited scene with
//! procedurally placed background actors, a multi-page typewriter text reveal,
//! and timed fade transitions, driven by a per-frame counter inside a small
//! linear presentation state machine.
//!
//! The library computes everything about a frame — which atlas regions are
//! blitted where, which overlay alpha is shown, how much of the active page is
//! revealed, and which state comes next — as plain data (`DrawCommand`
//! values). A thin host around the library performs the actual rendering and
//! input polling.

use vstd::prelude::*;

pub mod drawing;
pub mod enums;
pub mod machine;
pub mod sampler;
pub mod scene;
pub mod script;

pub use drawing::DrawCommand;
pub use drawing::Rect;
pub use drawing::TextureId;
pub use drawing::draw_carpet;
pub use drawing::draw_horizontal_line;
pub use drawing::draw_person;
pub use drawing::draw_prop;
pub use drawing::draw_text;
pub use drawing::draw_wall;
pub use drawing::hit_test;
pub use drawing::label_hitbox;
pub use drawing::label_origin;
pub use enums::CarpetType;
pub use enums::CatKidType;
pub use enums::ChickType;
pub use enums::DoorTypes;
pub use enums::DuckType;
pub use enums::GnomeType;
pub use enums::PersonType;
pub use enums::PropTypes;
pub use enums::WallType;
pub use enums::person_for_roll;
pub use machine::PresentationMachine;
pub use machine::PresentationState;
pub use machine::reveal_len;
pub use sampler::PlacedActor;
pub use sampler::rand_person;
pub use sampler::sample_audience;
pub use sampler::sample_jury;
pub use scene::carpet_at;
pub use scene::draw_courtroom_carpets;
pub use scene::draw_courtroom_props;
pub use scene::draw_courtroom_scene;
pub use scene::draw_courtroom_walls;
pub use scene::draw_jury_floor;
pub use scene::draw_people;
pub use scene::draw_scripted_actors;
pub use script::DialoguePage;
pub use script::LabelId;
pub use script::label_link;
pub use script::label_text;
pub use script::page_len;
pub use script::page_text;

verus! {

/// The logical canvas is a fixed square of this many pixels on each side.
pub const CANVAS_SIZE: i32 = 624;

/// Each tile of the scene grid is blitted into a square cell of this many
/// pixels on each side.
pub const CELL_SIZE: i32 = 48;

} // verus!
