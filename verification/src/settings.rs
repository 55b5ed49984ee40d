//! The settings window: what its fields hold, and what follows from the
//! user's actions.

use vstd::prelude::*;
use vstd::string::*;
use crate::config::{
    get_blank_max_filesize_from_confy, get_path_from_confy, save_to_confy, settings_view,
    stored_limit, stored_path, MyConfig, MyConfigView,
};

verus! {

/// The fields of the settings window.
#[derive(Clone, Debug, PartialEq, Eq)]
pub struct SettingsPopup {
    /// The path of the capture tool's settings file, as shown.
    pub ini_path: String,
    /// The size limit, as typed.
    pub blank_max_filesize: String,
    /// What was changed since the window opened; empty where nothing was.
    pub state_is_dirty: String,
    /// Whether the save button can be pressed.
    pub save_enabled: bool,
}

/// What a [`SettingsPopup`] holds, as mathematical values.
pub struct SettingsPopupView {
    pub ini_path: Seq<char>,
    pub blank_max_filesize: Seq<char>,
    pub state_is_dirty: Seq<char>,
    pub save_enabled: bool,
}

impl View for SettingsPopup {
    type V = SettingsPopupView;

    open spec fn view(&self) -> SettingsPopupView {
        SettingsPopupView {
            ini_path: self.ini_path@,
            blank_max_filesize: self.blank_max_filesize@,
            state_is_dirty: self.state_is_dirty@,
            save_enabled: self.save_enabled,
        }
    }
}

/// The user's answer to a question with three buttons.
#[derive(Clone, Copy, Debug, PartialEq, Eq, Structural)]
pub enum MessageChoice {
    Yes,
    No,
    Cancel,
}

/// What the window is to do next.
#[derive(Clone, Debug, PartialEq, Eq)]
pub enum PopupAction {
    /// Stay open.
    Nothing,
    /// Ask whether the changes are to be saved, and hand the answer back.
    AskToSave,
    /// Store these settings, and hand back how that went.
    Store(MyConfig),
    /// Close.
    Stop,
}

/// What a [`PopupAction`] holds, as mathematical values.
pub enum PopupActionView {
    Nothing,
    AskToSave,
    Store(MyConfigView),
    Stop,
}

impl View for PopupAction {
    type V = PopupActionView;

    open spec fn view(&self) -> PopupActionView {
        match *self {
            PopupAction::Nothing => PopupActionView::Nothing,
            PopupAction::AskToSave => PopupActionView::AskToSave,
            PopupAction::Store(settings) => PopupActionView::Store(settings@),
            PopupAction::Stop => PopupActionView::Stop,
        }
    }
}

/// A message box that reports how storing the settings went.
#[derive(Clone, Debug, PartialEq, Eq)]
pub struct SaveReport {
    pub title: String,
    pub content: String,
    /// Whether the box carries the error sign.
    pub is_error: bool,
}

/// What a [`SaveReport`] holds, as mathematical values.
pub struct SaveReportView {
    pub title: Seq<char>,
    pub content: Seq<char>,
    pub is_error: bool,
}

impl View for SaveReport {
    type V = SaveReportView;

    open spec fn view(&self) -> SaveReportView {
        SaveReportView { title: self.title@, content: self.content@, is_error: self.is_error }
    }
}

/// The report for an attempt to store the settings, which failed with the
/// given description where it failed.
pub open spec fn save_report_view(failure: Option<Seq<char>>) -> SaveReportView {
    match failure {
        None => SaveReportView {
            title: "Timesnapper Checker - Saving settings"@,
            content: "Saved"@,
            is_error: false,
        },
        Some(description) => SaveReportView {
            title: "Timesnapper Checker - Saving settings"@,
            content: "NOT saved - error: "@ + description,
            is_error: true,
        },
    }
}

/// The controls of the window that show text.
#[derive(Clone, Copy, Debug, PartialEq, Eq, Structural)]
pub enum PopupControl {
    IniPathMainLabel,
    IniPathHelpLabel,
    IniPath,
    IniPathButtonChange,
    FilesizeMainLabel,
    FilesizeHelpLabel,
    Filesize,
}

/// A font of the family [`FONT_FAMILY`].
#[derive(Clone, Copy, Debug, PartialEq, Eq, Structural)]
pub struct FontSpec {
    pub size: u32,
    pub weight: u32,
}

/// The family of every font in the window.
pub const FONT_FAMILY: &'static str = "Segoe UI";

/// The weight of bold text.
pub const WEIGHT_BOLD: u32 = 700;

/// The weight of ordinary text.
pub const WEIGHT_NORMAL: u32 = 400;

/// The font of a size, bold or not.
pub open spec fn font_of_size(size: u32, is_bold: bool) -> FontSpec {
    FontSpec {
        size,
        weight: if is_bold {
            WEIGHT_BOLD
        } else {
            WEIGHT_NORMAL
        },
    }
}

/// The font of each control: headings bold, fields and the button at the
/// same size, help texts smaller.
pub open spec fn font_table() -> Seq<(PopupControl, FontSpec)> {
    seq![
        (PopupControl::IniPathMainLabel, font_of_size(18, true)),
        (PopupControl::IniPathHelpLabel, font_of_size(14, false)),
        (PopupControl::IniPath, font_of_size(18, false)),
        (PopupControl::IniPathButtonChange, font_of_size(18, false)),
        (PopupControl::FilesizeMainLabel, font_of_size(18, true)),
        (PopupControl::FilesizeHelpLabel, font_of_size(14, false)),
        (PopupControl::Filesize, font_of_size(18, false)),
    ]
}

impl SettingsPopup {
    /// The window as it opens: the stored settings in its fields, nothing
    /// changed, and nothing to save.
    pub fn new(loaded: &Option<MyConfig>) -> (r: SettingsPopup)
        ensures
            r@ == (SettingsPopupView {
                ini_path: stored_path(settings_view(*loaded)),
                blank_max_filesize: stored_limit(settings_view(*loaded)),
                state_is_dirty: Seq::empty(),
                save_enabled: false,
            }),
    {
        SettingsPopup {
            ini_path: get_path_from_confy(loaded),
            blank_max_filesize: get_blank_max_filesize_from_confy(loaded),
            state_is_dirty: String::new(),
            save_enabled: false,
        }
    }

    /// The font of a size, bold or not.
    pub fn get_font_of_size(&self, size: u32, is_bold: bool) -> (r: FontSpec)
        ensures
            r == font_of_size(size, is_bold),
    {
        FontSpec {
            size,
            weight: if is_bold {
                WEIGHT_BOLD
            } else {
                WEIGHT_NORMAL
            },
        }
    }

    /// The font that each control gets when the window opens.
    pub fn fonty(&self) -> (r: Vec<(PopupControl, FontSpec)>)
        ensures
            r@ == font_table(),
    {
        let mut fonts: Vec<(PopupControl, FontSpec)> = Vec::new();
        fonts.push((PopupControl::IniPathMainLabel, self.get_font_of_size(18, true)));
        fonts.push((PopupControl::IniPathHelpLabel, self.get_font_of_size(14, false)));
        fonts.push((PopupControl::IniPath, self.get_font_of_size(18, false)));
        fonts.push((PopupControl::IniPathButtonChange, self.get_font_of_size(18, false)));
        fonts.push((PopupControl::FilesizeMainLabel, self.get_font_of_size(18, true)));
        fonts.push((PopupControl::FilesizeHelpLabel, self.get_font_of_size(14, false)));
        fonts.push((PopupControl::Filesize, self.get_font_of_size(18, false)));
        proof {
            assert(fonts@ =~= font_table());
        }
        fonts
    }

    /// The user typed in the size field: the window holds the new text, has
    /// something to save, and remembers what changed.
    pub fn filesize_dirty(&mut self, typed: &str)
        ensures
            final(self)@ == (SettingsPopupView {
                blank_max_filesize: typed@,
                state_is_dirty: "filesize changed"@,
                save_enabled: true,
                ..old(self)@
            }),
    {
        self.blank_max_filesize = String::from_str(typed);
        self.save_enabled = true;
        self.state_is_dirty = String::from_str("filesize changed");
    }

    /// The user was asked for the settings file. Where a file was chosen the
    /// window shows it, has something to save, and remembers what changed;
    /// where none was chosen nothing changes.
    pub fn ini_path_selector(&mut self, selected: Option<String>)
        ensures
            final(self)@ == match selected {
                Some(file) => SettingsPopupView {
                    ini_path: file@,
                    state_is_dirty: "path changed"@,
                    save_enabled: true,
                    ..old(self)@
                },
                None => old(self)@,
            },
    {
        match selected {
            Some(file) => {
                self.ini_path = file;
                self.save_enabled = true;
                self.state_is_dirty = String::from_str("path changed");
            },
            None => {},
        }
    }

    /// The user pressed cancel: the window closes.
    pub fn cancel(&self) -> (r: PopupAction)
        ensures
            r@ == PopupActionView::Stop,
    {
        PopupAction::Stop
    }

    /// The user closes the window. With unsaved changes the window forgets
    /// that there are any and asks whether to save them; without, it closes.
    pub fn close(&mut self) -> (r: PopupAction)
        ensures
            old(self)@.state_is_dirty.len() > 0 ==> r@ == PopupActionView::AskToSave && final(self)@
                == (SettingsPopupView { state_is_dirty: Seq::empty(), ..old(self)@ }),
            old(self)@.state_is_dirty.len() == 0 ==> r@ == PopupActionView::Stop && final(self)@
                == old(self)@,
    {
        if !self.state_is_dirty.as_str().is_empty() {
            self.state_is_dirty = String::new();
            PopupAction::AskToSave
        } else {
            PopupAction::Stop
        }
    }

    /// The user answered whether to save: yes stores the settings, no closes
    /// the window, cancel leaves it open.
    pub fn answer(&self, choice: MessageChoice) -> (r: PopupAction)
        ensures
            r@ == match choice {
                MessageChoice::Yes => PopupActionView::Store(
                    MyConfigView {
                        path: self@.ini_path,
                        blank_max_filesize: self@.blank_max_filesize,
                    },
                ),
                MessageChoice::No => PopupActionView::Stop,
                MessageChoice::Cancel => PopupActionView::Nothing,
            },
    {
        match choice {
            MessageChoice::Yes => PopupAction::Store(self.save()),
            MessageChoice::No => PopupAction::Stop,
            MessageChoice::Cancel => PopupAction::Nothing,
        }
    }

    /// The settings to store: the path and the size limit as the fields hold
    /// them.
    pub fn save(&self) -> (r: MyConfig)
        ensures
            r@ == (MyConfigView {
                path: self@.ini_path,
                blank_max_filesize: self@.blank_max_filesize,
            }),
    {
        save_to_confy(self.ini_path.as_str(), self.blank_max_filesize.as_str())
    }

    /// The message box that reports how storing went: `failure` describes
    /// what went wrong, where anything did. The window closes after it.
    pub fn save_report(&self, failure: Option<String>) -> (r: SaveReport)
        ensures
            r@ == save_report_view(
                match failure {
                    Some(description) => Some(description@),
                    None => None,
                },
            ),
    {
        match failure {
            None => SaveReport {
                title: String::from_str("Timesnapper Checker - Saving settings"),
                content: String::from_str("Saved"),
                is_error: false,
            },
            Some(description) => {
                let mut content = String::from_str("NOT saved - error: ");
                content.append(description.as_str());
                SaveReport {
                    title: String::from_str("Timesnapper Checker - Saving settings"),
                    content,
                    is_error: true,
                }
            },
        }
    }
}

} // verus!
