//! Decision core of a browser picker popup: which browser profiles are offered for a link,
//! where the popup goes, how keyboard focus moves and how commands are reduced.
pub mod browser;
pub mod dispatch;
pub mod filter;
pub mod focus;
pub mod geometry;
pub mod menu;
pub mod text;
pub mod ui;

pub use browser::{CommonBrowserProfile, MoveTo, UIBrowser};
pub use dispatch::{MessageToMain, UICommand, UIDelegate, UIState};
pub use focus::FocusData;
pub use ui::{UIConfig, UIImageController, UI};
