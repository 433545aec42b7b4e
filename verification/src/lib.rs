//! Song structure mapping: section kinds, sections, project records and the
//! editing rules of an arrangement, each with its contract.

pub mod color;
pub mod text;
pub mod kind;

pub use color::Color;
pub use kind::SectionKind;
pub mod section;

pub use section::Section;
pub mod project;

pub use project::{project_file_name, SectionSave, SongProject};
pub mod arrangement;

pub use arrangement::{Arrangement, SectionOp};
pub mod clock;

pub use clock::fmt_clock;
pub mod tips;
