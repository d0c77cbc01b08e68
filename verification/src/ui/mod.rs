//! The state of the application's windows and dialogs, and how each message
//! changes it; drawing them is left to the front end.

pub mod app;
pub mod clear_profiles_confirm_dialog;
pub mod edit_profile_dialog;
pub mod profile_manager_dialog;
pub mod setup_dialog;
