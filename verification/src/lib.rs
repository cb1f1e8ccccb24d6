//! Verified view models and state reducers of a desktop AI workspace shell:
//! the left sidebar of work items ("atoms"), the titlebar tab strip, workspace
//! mode routing, conversation labels, onboarding and application routing.

pub mod id_list;
pub mod id_map;
pub mod id_set;
pub mod shell;
pub mod text;
pub mod app_state;
pub mod preferences;
pub mod welcome;
