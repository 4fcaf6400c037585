//! The single-window demo: a greeting form, a confirmation dialog on close,
//! and the lists of files that are dropped on or hovered over the window.
use vstd::prelude::*;
use vstd::string::StringExecFns;

use crate::text::{decimal, decimal_string, greeting, greeting_text};

verus! {

/// A file dropped on the window, as plain values.
pub struct DroppedFileInfo {
    /// Where it lies, when the platform says.
    pub path: Option<String>,
    /// Its name, possibly empty.
    pub name: String,
    /// How many bytes it holds, when they were handed over.
    pub byte_len: Option<usize>,
}

/// A file being dragged over the window, as plain values.
pub struct HoveredFileInfo {
    pub path: Option<String>,
    /// Its MIME type, possibly empty.
    pub mime: String,
}

pub open spec fn opt_view(o: Option<String>) -> Option<Seq<char>> {
    match o {
        Some(s) => Some(s@),
        None => None,
    }
}

/// The part of a dropped file's label that says where it is: its path, else
/// its name, else `???`.
pub open spec fn file_heading(path: Option<Seq<char>>, name: Seq<char>) -> Seq<char> {
    match path {
        Some(p) => p,
        None => if name.len() > 0 {
            name
        } else {
            "???"@
        },
    }
}

/// The details after a dropped file's heading: its type when it has a name,
/// its size when its bytes are known, in parentheses; nothing when neither.
pub open spec fn file_details(name: Seq<char>, byte_len: Option<nat>) -> Seq<char> {
    match byte_len {
        Some(n) => if name.len() > 0 {
            " (type: "@ + name + ", "@ + decimal(n) + " bytes)"@
        } else {
            " ("@ + decimal(n) + " bytes)"@
        },
        None => if name.len() > 0 {
            " (type: "@ + name + ")"@
        } else {
            Seq::empty()
        },
    }
}

pub open spec fn file_label(f: DroppedFileInfo) -> Seq<char> {
    let byte_len = match f.byte_len {
        Some(n) => Some(n as nat),
        None => None,
    };
    file_heading(opt_view(f.path), f.name@) + file_details(f.name@, byte_len)
}

/// How a hovered file is named: its path, else its MIME type, else `???`.
pub open spec fn hovered_entry(f: HoveredFileInfo) -> Seq<char> {
    match f.path {
        Some(p) => p@,
        None => if f.mime@.len() > 0 {
            f.mime@
        } else {
            "???"@
        },
    }
}

/// One line per hovered file, each after a line break.
pub open spec fn hovered_lines(files: Seq<HoveredFileInfo>) -> Seq<char>
    decreases files.len(),
{
    if files.len() == 0 {
        Seq::empty()
    } else {
        hovered_lines(files.drop_last()) + "\n"@ + hovered_entry(files.last())
    }
}

/// The text shown over the window while files are dragged over it.
pub open spec fn hovered_text(files: Seq<HoveredFileInfo>) -> Seq<char> {
    "Dropping files:\n"@ + hovered_lines(files)
}

/// The label of one dropped file.
pub fn dropped_file_label(file: &DroppedFileInfo) -> (r: String)
    ensures
        r@ == file_label(*file),
{
    let mut info = match &file.path {
        Some(p) => p.clone(),
        None => if file.name.as_str().is_empty() {
            String::from_str("???")
        } else {
            file.name.clone()
        },
    };
    let has_name = !file.name.as_str().is_empty();
    match file.byte_len {
        Some(n) => {
            if has_name {
                info.append(" (type: ");
                info.append(file.name.as_str());
                info.append(", ");
            } else {
                info.append(" (");
            }
            let digits = decimal_string(n as u64);
            info.append(digits.as_str());
            info.append(" bytes)");
        },
        None => {
            if has_name {
                info.append(" (type: ");
                info.append(file.name.as_str());
                info.append(")");
            }
        },
    }
    proof {
        assert(info@ =~= file_label(*file));
    }
    info
}

/// The text shown over the window while `files` are dragged over it.
pub fn hovered_files_text(files: &Vec<HoveredFileInfo>) -> (r: String)
    ensures
        r@ == hovered_text(files@),
{
    let mut text = String::from_str("Dropping files:\n");
    let mut i: usize = 0;
    while i < files.len()
        invariant
            i <= files.len(),
            text@ == "Dropping files:\n"@ + hovered_lines(files@.subrange(0, i as int)),
        decreases files.len() - i,
    {
        let f = &files[i];
        text.append("\n");
        match &f.path {
            Some(p) => text.append(p.as_str()),
            None => if f.mime.as_str().is_empty() {
                text.append("???")
            } else {
                text.append(f.mime.as_str())
            },
        }
        proof {
            let s = files@.subrange(0, i + 1);
            assert(s.drop_last() =~= files@.subrange(0, i as int));
            assert(s.last() == files@[i as int]);
        }
        i = i + 1;
    }
    assert(files@.subrange(0, i as int) =~= files@);
    text
}

/// The demo window's state.
pub struct MyApp {
    pub name: String,
    pub age: u32,
    /// The text of the multi-line editor.
    pub text: String,
    /// Whether a close request is to be let through.
    pub allowed_to_close: bool,
    /// Whether the "quit?" dialog is open.
    pub show_confirmation_dialog: bool,
    /// The files dropped on the window last.
    pub dropped_files: Vec<DroppedFileInfo>,
    /// The file picked in the file dialog last.
    pub picked_path: Option<String>,
}

impl MyApp {
    /// The demo as it opens: greeting "Zzrk" at 18, no dialog, nothing dropped or picked.
    pub fn new() -> (r: Self)
        ensures
            r.name@ == "Zzrk"@,
            r.age == 18,
            r.text@ == "Edit this text field if you want"@,
            !r.allowed_to_close,
            !r.show_confirmation_dialog,
            r.dropped_files@.len() == 0,
            r.picked_path is None,
    {
        MyApp {
            name: String::from_str("Zzrk"),
            age: 18,
            text: String::from_str("Edit this text field if you want"),
            allowed_to_close: false,
            show_confirmation_dialog: false,
            dropped_files: Vec::new(),
            picked_path: None,
        }
    }

    /// The window is asked to close: the dialog opens, and the close goes
    /// through only once it has been confirmed.
    pub fn on_close_event(&mut self) -> (r: bool)
        ensures
            r == old(self).allowed_to_close,
            final(self).show_confirmation_dialog,
            final(self).allowed_to_close == old(self).allowed_to_close,
            final(self).name == old(self).name,
            final(self).age == old(self).age,
            final(self).text == old(self).text,
            final(self).dropped_files == old(self).dropped_files,
            final(self).picked_path == old(self).picked_path,
    {
        self.show_confirmation_dialog = true;
        self.allowed_to_close
    }

    /// "Cancel" in the dialog: it closes and the window stays.
    pub fn cancel_close(&mut self)
        ensures
            !final(self).show_confirmation_dialog,
            final(self).allowed_to_close == old(self).allowed_to_close,
            final(self).name == old(self).name,
            final(self).age == old(self).age,
            final(self).text == old(self).text,
            final(self).dropped_files == old(self).dropped_files,
            final(self).picked_path == old(self).picked_path,
    {
        self.show_confirmation_dialog = false;
    }

    /// "Yes!" in the dialog: the next close request goes through.
    pub fn confirm_close(&mut self)
        ensures
            final(self).allowed_to_close,
            final(self).show_confirmation_dialog == old(self).show_confirmation_dialog,
            final(self).name == old(self).name,
            final(self).age == old(self).age,
            final(self).text == old(self).text,
            final(self).dropped_files == old(self).dropped_files,
            final(self).picked_path == old(self).picked_path,
    {
        self.allowed_to_close = true;
    }

    /// One click of the "each year" button.
    pub fn click_year(&mut self)
        requires
            old(self).age < u32::MAX,
        ensures
            final(self).age == old(self).age + 1,
            final(self).allowed_to_close == old(self).allowed_to_close,
            final(self).show_confirmation_dialog == old(self).show_confirmation_dialog,
            final(self).name == old(self).name,
            final(self).text == old(self).text,
            final(self).dropped_files == old(self).dropped_files,
            final(self).picked_path == old(self).picked_path,
    {
        self.age = self.age + 1;
    }

    /// The greeting line under the form.
    pub fn greeting(&self) -> (r: String)
        ensures
            r@ == greeting_text(self.name@, self.age as nat),
    {
        greeting(self.name.as_str(), self.age)
    }

    /// Files were dropped this frame: a non-empty list replaces the one kept;
    /// an empty one changes nothing.
    pub fn take_dropped_files(&mut self, files: Vec<DroppedFileInfo>)
        ensures
            final(self).dropped_files@ == if files@.len() > 0 {
                files@
            } else {
                old(self).dropped_files@
            },
            final(self).allowed_to_close == old(self).allowed_to_close,
            final(self).show_confirmation_dialog == old(self).show_confirmation_dialog,
            final(self).name == old(self).name,
            final(self).age == old(self).age,
            final(self).text == old(self).text,
            final(self).picked_path == old(self).picked_path,
    {
        if files.len() > 0 {
            self.dropped_files = files;
        }
    }

    /// The file dialog has closed: a picked file replaces the one kept; a
    /// cancelled dialog changes nothing.
    pub fn take_picked_path(&mut self, picked: Option<String>)
        ensures
            final(self).picked_path == if picked is Some {
                picked
            } else {
                old(self).picked_path
            },
            final(self).allowed_to_close == old(self).allowed_to_close,
            final(self).show_confirmation_dialog == old(self).show_confirmation_dialog,
            final(self).name == old(self).name,
            final(self).age == old(self).age,
            final(self).text == old(self).text,
            final(self).dropped_files == old(self).dropped_files,
    {
        if picked.is_some() {
            self.picked_path = picked;
        }
    }
}

impl Default for MyApp {
    fn default() -> (r: Self)
        ensures
            r.name@ == "Zzrk"@,
            r.age == 18,
            r.text@ == "Edit this text field if you want"@,
            !r.allowed_to_close,
            !r.show_confirmation_dialog,
            r.dropped_files@.len() == 0,
            r.picked_path is None,
    {
        MyApp::new()
    }
}

} // verus!
