//! The tray icon's side of the program: one scan at a time, step by step.

use vstd::prelude::*;
use vstd::string::*;
use crate::config::{
    blank_max_filesize_bytes, blank_max_filesize_of, configuration_of, get_blank_max_filesize_from_confy,
    get_path_from_confy, ini_property, settings_view, stored_limit, stored_path, Configuration,
    ConfigurationView, MyConfig, MyConfigView,
};
use crate::listing::{listing_view, DirectoryEntry, EntryView};
use crate::locator::{find_directory, located, todays_date_as_string};
use crate::notify::{
    configuration_missing_message, configuration_missing_text, day_listing_error_message,
    day_listing_error_text, directory_not_found_message, directory_not_found_text,
    error_notification, root_listing_error_message, root_listing_error_text,
    size_unreadable_detail, stats_notification_view, Notification, NotificationView,
};
use crate::scanner::scan_outcome;

verus! {

/// How far the scan in flight has come.
#[derive(Clone, Debug, PartialEq, Eq)]
pub enum ScanState {
    /// No scan is in flight.
    Idle,
    /// The stored settings were asked for.
    AwaitingSettings,
    /// The capture tool's settings file was asked for.
    AwaitingIni { blank_max_filesize: u64 },
    /// The listing of the root directory was asked for.
    AwaitingRoot { config: Configuration },
    /// The listing of today's directory was asked for.
    AwaitingDay { config: Configuration },
}

/// What a [`ScanState`] holds, as mathematical values.
pub enum ScanStateView {
    Idle,
    AwaitingSettings,
    AwaitingIni { blank_max_filesize: u64 },
    AwaitingRoot { config: ConfigurationView },
    AwaitingDay { config: ConfigurationView },
}

impl View for ScanState {
    type V = ScanStateView;

    open spec fn view(&self) -> ScanStateView {
        match *self {
            ScanState::Idle => ScanStateView::Idle,
            ScanState::AwaitingSettings => ScanStateView::AwaitingSettings,
            ScanState::AwaitingIni { blank_max_filesize } => ScanStateView::AwaitingIni {
                blank_max_filesize,
            },
            ScanState::AwaitingRoot { config } => ScanStateView::AwaitingRoot { config: config@ },
            ScanState::AwaitingDay { config } => ScanStateView::AwaitingDay { config: config@ },
        }
    }
}

/// The tray icon's state: the scan in flight, if any.
#[derive(Clone, Debug, PartialEq, Eq)]
pub struct SystemTray {
    pub state: ScanState,
}

/// What happened outside: the user or the timer asked for a scan, or
/// something that the tray asked for has arrived.
#[derive(Debug, PartialEq, Eq)]
pub enum ScanEvent {
    /// A scan was asked for.
    Trigger,
    /// The stored settings, where they could be read.
    Settings(Option<MyConfig>),
    /// The text of the capture tool's settings file, where it could be read.
    IniText(Option<String>),
    /// The entries of the directory asked for, or what the system said when
    /// it could not be listed.
    Listing(Result<Vec<DirectoryEntry>, String>),
}

/// What a [`ScanEvent`] holds, as mathematical values.
pub enum ScanEventView {
    Trigger,
    Settings(Option<MyConfigView>),
    IniText(Option<Seq<char>>),
    Listing(Result<Seq<EntryView>, Seq<char>>),
}

impl View for ScanEvent {
    type V = ScanEventView;

    open spec fn view(&self) -> ScanEventView {
        match *self {
            ScanEvent::Trigger => ScanEventView::Trigger,
            ScanEvent::Settings(loaded) => ScanEventView::Settings(settings_view(loaded)),
            ScanEvent::IniText(text) => ScanEventView::IniText(
                match text {
                    Some(t) => Some(t@),
                    None => None,
                },
            ),
            ScanEvent::Listing(listed) => ScanEventView::Listing(
                match listed {
                    Ok(entries) => Ok(listing_view(entries@)),
                    Err(detail) => Err(detail@),
                },
            ),
        }
    }
}

/// What the program is to do next.
#[derive(Clone, Debug, PartialEq, Eq)]
pub enum ScanAction {
    /// Nothing: the event does not concern the scan in flight.
    Nothing,
    /// Read the stored settings and hand them back.
    LoadSettings,
    /// Read the file at this path and hand its text back.
    ReadIni(String),
    /// List the directory at this path and hand its entries back.
    ListDirectory(String),
    /// Show this notification; the scan is over.
    Notify(Notification),
}

/// What a [`ScanAction`] holds, as mathematical values.
pub enum ScanActionView {
    Nothing,
    LoadSettings,
    ReadIni(Seq<char>),
    ListDirectory(Seq<char>),
    Notify(NotificationView),
}

impl View for ScanAction {
    type V = ScanActionView;

    open spec fn view(&self) -> ScanActionView {
        match *self {
            ScanAction::Nothing => ScanActionView::Nothing,
            ScanAction::LoadSettings => ScanActionView::LoadSettings,
            ScanAction::ReadIni(path) => ScanActionView::ReadIni(path@),
            ScanAction::ListDirectory(path) => ScanActionView::ListDirectory(path@),
            ScanAction::Notify(notification) => ScanActionView::Notify(notification@),
        }
    }
}

/// A scan that ends with the notification of a failure.
pub open spec fn fail_with(text: Seq<char>) -> (ScanStateView, ScanActionView) {
    (ScanStateView::Idle, ScanActionView::Notify(error_notification(text)))
}

/// One step of a scan: the state after the event and the action to take,
/// where `today` is the name of today's directory.
///
/// A scan asks in turn for the stored settings, the capture tool's settings
/// file, the listing of the root directory and the listing of today's
/// directory, and ends with a notification: of the counts, or of the first
/// failure. An event that the state does not wait for changes nothing, so a
/// second request while a scan is in flight starts no second scan.
pub open spec fn step(state: ScanStateView, event: ScanEventView, today: Seq<char>) -> (
    ScanStateView,
    ScanActionView,
) {
    match (state, event) {
        (ScanStateView::Idle, ScanEventView::Trigger) => (
            ScanStateView::AwaitingSettings,
            ScanActionView::LoadSettings,
        ),
        (ScanStateView::AwaitingSettings, ScanEventView::Settings(loaded)) => (
            ScanStateView::AwaitingIni {
                blank_max_filesize: blank_max_filesize_of(stored_limit(loaded)),
            },
            ScanActionView::ReadIni(stored_path(loaded)),
        ),
        (ScanStateView::AwaitingIni { blank_max_filesize }, ScanEventView::IniText(read)) => {
            match read {
                Some(text) => match configuration_of(
                    ini_property(text, "Path"@),
                    ini_property(text, "Interval"@),
                    blank_max_filesize,
                ) {
                    Ok(config) => (
                        ScanStateView::AwaitingRoot { config },
                        ScanActionView::ListDirectory(config.snapshot_root_path),
                    ),
                    Err(_) => fail_with(configuration_missing_text()),
                },
                None => fail_with(configuration_missing_text()),
            }
        },
        (ScanStateView::AwaitingRoot { config }, ScanEventView::Listing(listed)) => {
            match listed {
                Ok(entries) => match located(entries, today) {
                    Some(i) => (
                        ScanStateView::AwaitingDay { config },
                        ScanActionView::ListDirectory(entries[i].path),
                    ),
                    None => fail_with(directory_not_found_text(today)),
                },
                Err(detail) => fail_with(
                    root_listing_error_text(config.snapshot_root_path, detail),
                ),
            }
        },
        (ScanStateView::AwaitingDay { config }, ScanEventView::Listing(listed)) => {
            match listed {
                Ok(files) => match scan_outcome(files, config.undersized_byte_threshold) {
                    Ok(found) => (
                        ScanStateView::Idle,
                        ScanActionView::Notify(
                            stats_notification_view(found, config.capture_interval_seconds),
                        ),
                    ),
                    Err(_) => fail_with(day_listing_error_text(size_unreadable_detail())),
                },
                Err(detail) => fail_with(day_listing_error_text(detail)),
            }
        },
        _ => (state, ScanActionView::Nothing),
    }
}

impl SystemTray {
    /// A tray with no scan in flight.
    pub fn new() -> (r: SystemTray)
        ensures
            r.state@ == ScanStateView::Idle,
    {
        SystemTray { state: ScanState::Idle }
    }

    /// Takes one step of the scan, given the name of today's directory.
    pub fn advance(&mut self, event: ScanEvent, today: &str) -> (action: ScanAction)
        ensures
            (final(self).state@, action@) == step(old(self).state@, event@, today@),
    {
        let mut state = ScanState::Idle;
        std::mem::swap(&mut self.state, &mut state);
        let (next, action) = match (state, event) {
            (ScanState::Idle, ScanEvent::Trigger) => (
                ScanState::AwaitingSettings,
                ScanAction::LoadSettings,
            ),
            (ScanState::AwaitingSettings, ScanEvent::Settings(loaded)) => {
                let limit = get_blank_max_filesize_from_confy(&loaded);
                let path = get_path_from_confy(&loaded);
                (
                    ScanState::AwaitingIni {
                        blank_max_filesize: blank_max_filesize_bytes(limit.as_str()),
                    },
                    ScanAction::ReadIni(path),
                )
            },
            (ScanState::AwaitingIni { blank_max_filesize }, ScanEvent::IniText(read)) => {
                let loaded = match read {
                    Some(text) => Configuration::from_ini(text.as_str(), blank_max_filesize),
                    None => Err(crate::error::ScanError::ConfigurationMissing),
                };
                match loaded {
                    Ok(config) => {
                        let root = config.snapshot_root_path.clone();
                        (ScanState::AwaitingRoot { config }, ScanAction::ListDirectory(root))
                    },
                    Err(_) => {
                        let text = configuration_missing_message();
                        (ScanState::Idle, ScanAction::Notify(self.notification_error(text.as_str())))
                    },
                }
            },
            (ScanState::AwaitingRoot { config }, ScanEvent::Listing(listed)) => {
                match listed {
                    Ok(entries) => match find_directory(&entries, today) {
                        Ok(entry) => {
                            let day = entry.path.clone();
                            (ScanState::AwaitingDay { config }, ScanAction::ListDirectory(day))
                        },
                        Err(_) => {
                            let text = directory_not_found_message(today);
                            (
                                ScanState::Idle,
                                ScanAction::Notify(self.notification_error(text.as_str())),
                            )
                        },
                    },
                    Err(detail) => {
                        let text = root_listing_error_message(
                            config.snapshot_root_path.as_str(),
                            detail.as_str(),
                        );
                        (ScanState::Idle, ScanAction::Notify(self.notification_error(text.as_str())))
                    },
                }
            },
            (ScanState::AwaitingDay { config }, ScanEvent::Listing(listed)) => {
                match listed {
                    Ok(files) => match self.get_count_last_hours_files_too_small(
                        &files,
                        config.undersized_byte_threshold,
                    ) {
                        Ok(found) => (
                            ScanState::Idle,
                            ScanAction::Notify(
                                self.stats_notification(&found, config.capture_interval_seconds),
                            ),
                        ),
                        Err(_) => {
                            let text = day_listing_error_message(
                                "the size of a file could not be read",
                            );
                            (
                                ScanState::Idle,
                                ScanAction::Notify(self.notification_error(text.as_str())),
                            )
                        },
                    },
                    Err(detail) => {
                        let text = day_listing_error_message(detail.as_str());
                        (ScanState::Idle, ScanAction::Notify(self.notification_error(text.as_str())))
                    },
                }
            },
            (state, _) => (state, ScanAction::Nothing),
        };
        self.state = next;
        action
    }

    /// Takes one step of the scan for today's date in UTC.
    ///
    /// The date is read from the system clock, so the contract states what
    /// holds whatever the date is; [`SystemTray::advance`] says what the step
    /// is for each date.
    pub fn todays_stats(&mut self, event: ScanEvent) -> (action: ScanAction)
        ensures
            exists|today: Seq<char>|
                (final(self).state@, action@) == #[trigger] step(old(self).state@, event@, today),
    {
        let today = todays_date_as_string();
        self.advance(event, today.as_str())
    }
}

} // verus!
