//! Durable state of a project-tree browser: which projects are open, which
//! tree nodes are expanded and which node is selected, its snapshot for the
//! preferences file, and the path helpers used alongside it.

pub mod paths;
pub mod prefs;
pub mod state;

pub use paths::{are_siblings, get_data_dir, get_prefs_file, get_selected_path, same_parent};
pub use prefs::{encode_prefs, get_prefs, read_prefs, Prefs};
pub use state::State;
