//! TaimiHUD's decision logic: timer triggers and alerts, commander marker
//! sets, data-source settings, squad roles and the extension runtime that
//! the addon runs under, each stated over a mathematical model and proved.
pub mod keyed;
pub mod marker;
pub mod settings;
pub mod timer;
pub mod controller;
pub mod exports;
pub mod render;
pub mod autoplace;
pub mod jsonc;
pub mod space;
pub mod control;
pub mod tabs;
pub mod marker_edit;
pub mod render_state;
