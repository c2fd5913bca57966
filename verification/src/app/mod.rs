pub mod machine;
pub mod operations;
pub mod overlay_controller;
pub mod session;
pub mod overlay;
pub mod shortcuts;
pub mod autostart_run;
pub mod lifecycle;
pub mod locale;
pub mod compare;
