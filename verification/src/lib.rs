pub mod nk2;
pub mod widgets;
pub mod ui;

pub use ui::Menu;
