//! Reusable interactive components.
pub mod input;

pub use input::{InputMode, TextInput};
pub mod dropdown;

pub use dropdown::{Dropdown, DropdownAction, DropdownItem};
pub mod loading;

pub use loading::{InlineLoader, LoadingIndicator, SpinnerStyle};
pub mod notification;

pub use notification::{Notification, NotificationManager, NotificationType};
pub mod modal;

pub use modal::{ConfirmDialog, ErrorDialog, Modal};
pub mod search_bar;

pub use search_bar::QuickSearch;
pub mod jql_input;

pub use jql_input::{JqlAction, JqlInput};
pub mod priority_picker;

pub use priority_picker::{PriorityAction, PriorityPicker};
pub mod assignee_picker;

pub use assignee_picker::{AssigneeAction, AssigneePicker};
pub mod issue_search_picker;

pub use issue_search_picker::{IssueSearchPicker, IssueSearchPickerAction};
pub mod linked_issues;

pub use linked_issues::{LinkedIssuesAction, LinkedIssuesSection};
pub mod link_type_picker;

pub use link_type_picker::{LinkManager, LinkManagerAction};
pub mod command_palette;

pub use command_palette::{CommandPalette, CommandPaletteAction};
pub mod external_editor;

pub use external_editor::{ExternalEditResult, ExternalEditor, ExternalEditorError};
pub mod multiselect;

pub use multiselect::{MultiSelect, SelectItem};
pub mod profile_picker;

pub use profile_picker::{ProfilePicker, ProfilePickerAction};
pub mod tag_editor;

pub use tag_editor::{TagAction, TagEditor, TagEditorConfig};
pub mod table;

pub use table::Table;
pub mod help_bar;

pub use help_bar::{parse_hints_to_spans, HintSpan};
