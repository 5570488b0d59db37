//! A checklist of building materials: rows read from a material list in CSV
//! form, each with a count shown in boxes, stacks and items, and a flag that
//! the user ticks once the material is collected.

pub mod checklist;
pub mod csv_text;
pub mod material;
pub mod material_list;
pub mod notice;
pub mod quantity;

pub use checklist::{FileOutcome, Listmatica, Message};
pub use material::Material;
pub use notice::Notice;
pub use quantity::format_item_count;
