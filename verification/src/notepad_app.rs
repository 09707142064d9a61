//! The state of one notepad session and its verified transitions.
//!
//! The document text, the undo/redo history, the folder browser's listing
//! and the presentation flags live in [`NotepadApp`]. Every transition the
//! editor performs on this state — recording a snapshot, undo, redo, opening
//! a file or a folder, refreshing a listing — is a method here with a
//! contract. The caller performs the I/O (reading directories and files)
//! and hands the results in as plain values.

use vstd::prelude::*;

use crate::browser::{filter_visible, visible_pred, DirEntry, IoError};
use crate::history::{recorded, redo_cursor, undo_cursor};

verus! {

/// The whole state of one notepad session: the document and its associated
/// file path, the snapshot history with its cursor, the folder browser, and
/// the presentation flags.
pub struct NotepadApp {
    pub text: String,
    pub file_path: Option<String>,
    pub history: Vec<String>,
    pub current_step: usize,
    pub folder_path: String,
    pub folder_contents: Vec<DirEntry>,
    pub sidebar_visible: bool,
    pub show_hidden_files: bool,
    pub settings_open: bool,
    pub dark_mode: bool,
}

/// Relies on `dirs::home_dir`: the user's home directory, if the platform
/// reports one. The result depends on the environment, so nothing more is
/// promised of it.
#[verifier::external_body]
fn home_dir_path() -> (r: Option<String>) {
    dirs::home_dir().map(|p| p.to_string_lossy().into_owned())
}

impl NotepadApp {
    /// The history invariant: there is at least one snapshot, and the cursor
    /// is a valid index into the snapshot sequence.
    pub open spec fn wf(self) -> bool {
        self.history@.len() >= 1 && (self.current_step as int) < self.history@.len()
    }

    /// The snapshot sequence of the history, each snapshot as its text.
    pub open spec fn snapshots(self) -> Seq<Seq<char>> {
        self.history@.map_values(|s: String| s@)
    }

    /// The folder browser's part of the state agrees with `other`.
    pub open spec fn browser_unchanged(self, other: Self) -> bool {
        self.folder_path == other.folder_path && self.folder_contents == other.folder_contents
    }

    /// The presentation flags agree with `other`.
    pub open spec fn flags_unchanged(self, other: Self) -> bool {
        &&& self.sidebar_visible == other.sidebar_visible
        &&& self.show_hidden_files == other.show_hidden_files
        &&& self.settings_open == other.settings_open
        &&& self.dark_mode == other.dark_mode
    }

    /// Record the current text as a new snapshot: every snapshot past the
    /// cursor is discarded, the text is appended, and the cursor advances to
    /// it. Nothing else changes.
    pub fn save_history(&mut self)
        requires
            old(self).wf(),
        ensures
            final(self).wf(),
            final(self).current_step == old(self).current_step + 1,
            final(self).snapshots() == recorded(
                old(self).snapshots(),
                old(self).current_step as int,
                old(self).text@,
            ),
            final(self).text == old(self).text,
            final(self).file_path == old(self).file_path,
            final(self).browser_unchanged(*old(self)),
            final(self).flags_unchanged(*old(self)),
    {
        if self.current_step < self.history.len() - 1 {
            self.history.truncate(self.current_step + 1);
        }
        self.history.push(self.text.clone());
        self.current_step = self.current_step + 1;
        proof {
            assert(self.snapshots() =~= recorded(
                old(self).snapshots(),
                old(self).current_step as int,
                old(self).text@,
            ));
        }
    }

    /// Move the cursor back one snapshot and show that snapshot; at the first
    /// snapshot this is a no-op and the state is left exactly as it was.
    pub fn undo(&mut self)
        requires
            old(self).wf(),
        ensures
            final(self).wf(),
            final(self).history == old(self).history,
            final(self).current_step as int == undo_cursor(old(self).current_step as int),
            old(self).current_step > 0 ==> final(self).text@ == old(self).snapshots()[
                final(self).current_step as int
            ],
            old(self).current_step == 0 ==> *final(self) == *old(self),
            final(self).file_path == old(self).file_path,
            final(self).browser_unchanged(*old(self)),
            final(self).flags_unchanged(*old(self)),
    {
        if self.current_step > 0 {
            self.current_step = self.current_step - 1;
            self.text = self.history[self.current_step].clone();
        }
    }

    /// Move the cursor forward one snapshot and show that snapshot; at the
    /// last snapshot this is a no-op and the state is left exactly as it was.
    pub fn redo(&mut self)
        requires
            old(self).wf(),
        ensures
            final(self).wf(),
            final(self).history == old(self).history,
            final(self).current_step as int == redo_cursor(
                old(self).snapshots().len() as int,
                old(self).current_step as int,
            ),
            old(self).current_step + 1 < old(self).history@.len() ==> final(self).text@ == old(
                self,
            ).snapshots()[final(self).current_step as int],
            old(self).current_step + 1 >= old(self).history@.len() ==> *final(self) == *old(self),
            final(self).file_path == old(self).file_path,
            final(self).browser_unchanged(*old(self)),
            final(self).flags_unchanged(*old(self)),
    {
        if self.current_step < self.history.len() - 1 {
            self.current_step = self.current_step + 1;
            self.text = self.history[self.current_step].clone();
        }
    }

    /// Start a fresh document: clear the text, drop the associated path, and
    /// record the empty text as a new snapshot.
    pub fn new_file(&mut self)
        requires
            old(self).wf(),
        ensures
            final(self).wf(),
            final(self).text@ == Seq::<char>::empty(),
            final(self).file_path is None,
            final(self).current_step == old(self).current_step + 1,
            final(self).snapshots() == recorded(
                old(self).snapshots(),
                old(self).current_step as int,
                Seq::<char>::empty(),
            ),
            final(self).browser_unchanged(*old(self)),
            final(self).flags_unchanged(*old(self)),
    {
        self.text = String::new();
        self.file_path = None;
        self.save_history();
    }

    /// Show a file's content that the caller has read: the content becomes
    /// the text, the path becomes the associated path, and the content is
    /// recorded as a new snapshot.
    pub fn open_file(&mut self, path: String, content: String)
        requires
            old(self).wf(),
        ensures
            final(self).wf(),
            final(self).text == content,
            final(self).file_path == Some(path),
            final(self).current_step == old(self).current_step + 1,
            final(self).snapshots() == recorded(
                old(self).snapshots(),
                old(self).current_step as int,
                content@,
            ),
            final(self).browser_unchanged(*old(self)),
            final(self).flags_unchanged(*old(self)),
    {
        self.text = content;
        self.file_path = Some(path);
        self.save_history();
    }

    /// Associate the document with `path`, as after a save under a new name.
    /// Nothing else changes.
    pub fn set_file_path(&mut self, path: String)
        ensures
            final(self).file_path == Some(path),
            final(self).text == old(self).text,
            final(self).history == old(self).history,
            final(self).current_step == old(self).current_step,
            final(self).browser_unchanged(*old(self)),
            final(self).flags_unchanged(*old(self)),
    {
        self.file_path = Some(path);
    }

    /// Apply the outcome of listing the current folder. On a successful
    /// listing the visible entries replace the contents; on a failed one the
    /// previous listing is retained. Nothing else changes.
    pub fn refresh_folder_contents(&mut self, listing: Result<Vec<DirEntry>, IoError>)
        ensures
            listing matches Ok(entries) ==> final(self).folder_contents@ == entries@.filter(
                visible_pred(old(self).show_hidden_files),
            ),
            listing is Err ==> final(self).folder_contents == old(self).folder_contents,
            final(self).folder_path == old(self).folder_path,
            final(self).text == old(self).text,
            final(self).file_path == old(self).file_path,
            final(self).history == old(self).history,
            final(self).current_step == old(self).current_step,
            final(self).flags_unchanged(*old(self)),
    {
        match listing {
            Ok(entries) => {
                self.folder_contents = filter_visible(&entries, self.show_hidden_files);
            },
            Err(_) => {},
        }
    }

    /// Navigate to a folder the caller has listed. On a successful listing
    /// the folder becomes current and its visible entries the contents; on a
    /// failed one the whole previous state is retained. Nothing else changes.
    pub fn open_folder(&mut self, path: String, listing: Result<Vec<DirEntry>, IoError>)
        ensures
            listing matches Ok(entries) ==> {
                &&& final(self).folder_path == path
                &&& final(self).folder_contents@ == entries@.filter(
                    visible_pred(old(self).show_hidden_files),
                )
            },
            listing is Err ==> *final(self) == *old(self),
            final(self).text == old(self).text,
            final(self).file_path == old(self).file_path,
            final(self).history == old(self).history,
            final(self).current_step == old(self).current_step,
            final(self).flags_unchanged(*old(self)),
    {
        match listing {
            Ok(entries) => {
                self.folder_path = path;
                self.folder_contents = filter_visible(&entries, self.show_hidden_files);
            },
            Err(_) => {},
        }
    }
}

impl Default for NotepadApp {
    /// A fresh session: empty text, no associated path, a history of one
    /// empty snapshot with the cursor on it, an empty listing rooted at the
    /// user's home directory (or the current directory, if the platform
    /// reports none), the sidebar shown, hidden files hidden, the settings
    /// window closed, and light mode.
    fn default() -> (d: Self)
        ensures
            d.wf(),
            d.text@ == Seq::<char>::empty(),
            d.file_path is None,
            d.snapshots() == seq![Seq::<char>::empty()],
            d.current_step == 0,
            d.folder_contents@ == Seq::<DirEntry>::empty(),
            d.sidebar_visible,
            !d.show_hidden_files,
            !d.settings_open,
            !d.dark_mode,
    {
        let folder_path = match home_dir_path() {
            Some(p) => p,
            None => ".".to_owned(),
        };
        let mut history: Vec<String> = Vec::new();
        history.push(String::new());
        let d = NotepadApp {
            text: String::new(),
            file_path: None,
            history,
            current_step: 0,
            folder_path,
            folder_contents: Vec::new(),
            sidebar_visible: true,
            show_hidden_files: false,
            settings_open: false,
            dark_mode: false,
        };
        proof {
            assert(d.snapshots() =~= seq![Seq::<char>::empty()]);
        }
        d
    }
}

} // verus!
