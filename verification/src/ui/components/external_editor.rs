//! Editing text in the user's own editor.
//!
//! A session writes the text to a temporary file named after the issue, runs
//! the editor on it, and reads the file back. What the session decides is here:
//! which editor to run, the file's name, what the editor's exit status means,
//! which failure is reported, and whether the text changed. Running the editor
//! and touching the file are the caller's part.
use vstd::prelude::*;

use crate::text::{concat2, concat3, concat4, copy_str, decimal, signed_decimal, str_eq, to_decimal, to_signed_decimal};

verus! {

/// Errors of an editor session, each with the system's description of the cause.
#[derive(Debug, Clone, PartialEq, Eq)]
pub enum ExternalEditorError {
    /// The temporary file could not be written.
    TempFileCreation(String),
    /// The editor could not be started.
    EditorSpawn { editor: String, source: String },
    /// The editor exited with a non-zero status code.
    EditorExecution(i32),
    /// The editor was ended by a signal.
    EditorTerminated,
    /// The temporary file could not be read back.
    ContentRead(String),
}

/// The message of an error.
pub open spec fn editor_error_message(e: ExternalEditorError) -> Seq<char> {
    match e {
        ExternalEditorError::TempFileCreation(s) => "Failed to create temporary file: "@ + s@,
        ExternalEditorError::EditorSpawn { editor, source } => "Failed to launch editor '"@ + editor@
            + "': "@ + source@,
        ExternalEditorError::EditorExecution(code) => "Editor exited with status code "@
            + signed_decimal(code as int),
        ExternalEditorError::EditorTerminated => "Editor was terminated by a signal"@,
        ExternalEditorError::ContentRead(s) => "Failed to read content from temporary file: "@ + s@,
    }
}

impl ExternalEditorError {
    /// The message shown for the error.
    pub fn to_string(&self) -> (s: String)
        ensures
            s@ == editor_error_message(*self),
    {
        match self {
            ExternalEditorError::TempFileCreation(e) => concat2("Failed to create temporary file: ", e.as_str()),
            ExternalEditorError::EditorSpawn { editor, source } => concat4(
                "Failed to launch editor '",
                editor.as_str(),
                "': ",
                source.as_str(),
            ),
            ExternalEditorError::EditorExecution(code) => {
                let digits = to_signed_decimal(*code);
                concat2("Editor exited with status code ", digits.as_str())
            },
            ExternalEditorError::EditorTerminated => copy_str("Editor was terminated by a signal"),
            ExternalEditorError::ContentRead(e) => concat2(
                "Failed to read content from temporary file: ",
                e.as_str(),
            ),
        }
    }
}

/// The outcome of a session: the text after editing, and whether it changed.
#[derive(Debug, Clone, PartialEq, Eq)]
pub struct ExternalEditResult {
    /// The text after editing.
    pub content: String,
    /// Whether the text differs from the original.
    pub was_modified: bool,
}

/// The editor to run.
#[derive(Debug, Clone)]
pub struct ExternalEditor {
    /// The editor command.
    pub editor: String,
}

/// The editor named by `$EDITOR` if it is set, else by `$VISUAL`, else `vi`.
pub open spec fn chosen_editor(editor_var: Option<Seq<char>>, visual_var: Option<Seq<char>>) -> Seq<char> {
    match editor_var {
        Some(e) => e,
        None => match visual_var {
            Some(v) => v,
            None => "vi"@,
        },
    }
}

/// The characters of an optional string slice.
pub open spec fn opt_chars(o: Option<&str>) -> Option<Seq<char>> {
    match o {
        Some(s) => Some(s@),
        None => None,
    }
}

/// The editor to run, given the values of `$EDITOR` and `$VISUAL` (`None` when
/// unset or not valid text).
pub fn get_editor(editor_var: Option<&str>, visual_var: Option<&str>) -> (e: String)
    ensures
        e@ == chosen_editor(opt_chars(editor_var), opt_chars(visual_var)),
{
    match editor_var {
        Some(e) => copy_str(e),
        None => match visual_var {
            Some(v) => copy_str(v),
            None => {
                let vi = copy_str("vi");
                proof {
                    reveal_strlit("vi");
                }
                vi
            },
        },
    }
}

impl ExternalEditor {
    /// The editor chosen from the values of `$EDITOR` and `$VISUAL`.
    pub fn new(editor_var: Option<&str>, visual_var: Option<&str>) -> (e: ExternalEditor)
        ensures
            e.editor@ == chosen_editor(opt_chars(editor_var), opt_chars(visual_var)),
    {
        ExternalEditor { editor: get_editor(editor_var, visual_var) }
    }

    /// A given editor command.
    pub fn with_editor(editor: &str) -> (e: ExternalEditor)
        ensures
            e.editor@ == editor@,
    {
        ExternalEditor { editor: copy_str(editor) }
    }

    /// The editor command.
    pub fn editor(&self) -> (s: &str)
        ensures
            s@ == self.editor@,
    {
        self.editor.as_str()
    }
}

/// The name of the temporary file: "lazyjira-KEY-PID.md".
pub open spec fn temp_name(issue_key: Seq<char>, pid: nat) -> Seq<char> {
    "lazyjira-"@ + issue_key + "-"@ + decimal(pid) + ".md"@
}

/// The name of the temporary file for an issue, in a process.
pub fn temp_file_name(issue_key: &str, pid: u32) -> (s: String)
    ensures
        s@ == temp_name(issue_key@, pid as nat),
{
    let digits = to_decimal(pid as u64);
    let head = concat4("lazyjira-", issue_key, "-", digits.as_str());
    concat2(head.as_str(), ".md")
}

/// What the editor's exit means: success, its non-zero code, or its end by a signal.
pub fn editor_exit(success: bool, code: Option<i32>) -> (r: Result<(), ExternalEditorError>)
    ensures
        success ==> r is Ok,
        !success && code is Some ==> r == Err::<(), ExternalEditorError>(
            ExternalEditorError::EditorExecution(code->0),
        ),
        !success && code is None ==> r == Err::<(), ExternalEditorError>(ExternalEditorError::EditorTerminated),
{
    if success {
        Ok(())
    } else {
        match code {
            Some(c) => Err(ExternalEditorError::EditorExecution(c)),
            None => Err(ExternalEditorError::EditorTerminated),
        }
    }
}

/// The outcome of reading back the text: it was modified when it differs from
/// the original.
pub fn edit_result(content: String, original: &str) -> (r: ExternalEditResult)
    ensures
        r.content@ == content@,
        r.was_modified == (content@ != original@),
{
    let same = str_eq(content.as_str(), original);
    ExternalEditResult { was_modified: !same, content }
}

/// The outcome of a session: the editor's failure if it failed (the file is read
/// back either way), else the outcome of reading back.
pub fn session_outcome(
    editor: Result<(), ExternalEditorError>,
    read: Result<ExternalEditResult, ExternalEditorError>,
) -> (r: Result<ExternalEditResult, ExternalEditorError>)
    ensures
        editor is Err ==> r == Err::<ExternalEditResult, ExternalEditorError>(editor->Err_0),
        editor is Ok ==> r == read,
{
    match editor {
        Err(e) => Err(e),
        Ok(()) => read,
    }
}

} // verus!
