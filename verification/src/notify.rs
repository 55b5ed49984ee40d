//! What the tray shows: the notification of a scan's outcome, or of its failure.

use vstd::prelude::*;
use vstd::string::*;
use crate::duration::{duration_text, total_seconds};
use crate::scanner::ScanResult;
use crate::text::{debug_quote, debug_quoted, decimal, decimal_string};
use crate::tray::SystemTray;

verus! {

/// The symbol shown beside a notification.
#[derive(Clone, Copy, Debug, PartialEq, Eq, Structural)]
pub enum NotificationFlags {
    /// The program's own icon: nothing is wrong.
    UserIcon,
    /// A warning sign: many captures are blank.
    WarningIcon,
    /// An error sign: the scan failed.
    ErrorIcon,
}

/// A notification to show at the tray icon.
#[derive(Clone, Debug, PartialEq, Eq)]
pub struct Notification {
    /// The body.
    pub text: String,
    /// The headline.
    pub title: String,
    /// The symbol beside it.
    pub flags: NotificationFlags,
    /// Whether the program's icon is shown in the notification.
    pub with_icon: bool,
}

/// What a [`Notification`] holds, as mathematical values.
pub struct NotificationView {
    pub text: Seq<char>,
    pub title: Seq<char>,
    pub flags: NotificationFlags,
    pub with_icon: bool,
}

impl View for Notification {
    type V = NotificationView;

    open spec fn view(&self) -> NotificationView {
        NotificationView {
            text: self.text@,
            title: self.title@,
            flags: self.flags,
            with_icon: self.with_icon,
        }
    }
}

/// More blank captures than this many make the notification a warning.
pub const BLANKS_WARNING_LIMIT: u64 = 300;

/// The notification of a failure with the given text.
pub open spec fn error_notification(text: Seq<char>) -> NotificationView {
    NotificationView {
        text,
        title: "Timesnapper Checker"@,
        flags: NotificationFlags::ErrorIcon,
        with_icon: true,
    }
}

/// The notification of what a scan found.
///
/// The body gives the blank captures: the time that a sixtieth of their
/// number stands for, and their number in brackets. The headline gives the
/// time that the buckets stand for.
pub open spec fn stats_notification_view(found: ScanResult, interval_seconds: u64)
    -> NotificationView {
    NotificationView {
        text: duration_text(
            total_seconds((found.undersized_count / 60) as nat, interval_seconds as nat),
        ) + " ("@ + decimal(found.undersized_count as nat) + ") Timesnapper BLANKS"@,
        title: "Timesnapper Checker: "@ + duration_text(
            total_seconds(found.total_time_buckets as nat, interval_seconds as nat),
        ),
        flags: if found.undersized_count > BLANKS_WARNING_LIMIT {
            NotificationFlags::WarningIcon
        } else {
            NotificationFlags::UserIcon
        },
        with_icon: false,
    }
}

/// The text shown where the capture tool's settings give no root directory.
pub open spec fn configuration_missing_text() -> Seq<char> {
    "This is probably an error because we do not know where your Timesnapper Settings.ini is\r\nYou should find it here:\r\nC:\\Users\\<your-user>\\AppData\\Roaming\\TimeSnapper\\Settings.ini\r\nPlease update your config."@
}

/// The text shown where the root directory could not be listed.
pub open spec fn root_listing_error_text(path: Seq<char>, detail: Seq<char>) -> Seq<char> {
    "Check your settings. Path may not be set: "@ + debug_quoted(path) + " "@ + detail
}

/// The text shown where no directory, or more than one, carries the date.
pub open spec fn directory_not_found_text(label: Seq<char>) -> Seq<char> {
    "There was an error finding todays directory. Check your config Settings, or the folder doesn't exist: "@
        + debug_quoted(label)
}

/// The text shown where today's directory could not be read.
pub open spec fn day_listing_error_text(detail: Seq<char>) -> Seq<char> {
    "There was an error reading from todays directory: "@ + detail
}

/// The detail given where the size of a capture could not be read.
pub open spec fn size_unreadable_detail() -> Seq<char> {
    "the size of a file could not be read"@
}

/// Writes the text for a missing configuration.
pub fn configuration_missing_message() -> (r: String)
    ensures
        r@ == configuration_missing_text(),
{
    String::from_str(
        "This is probably an error because we do not know where your Timesnapper Settings.ini is\r\nYou should find it here:\r\nC:\\Users\\<your-user>\\AppData\\Roaming\\TimeSnapper\\Settings.ini\r\nPlease update your config.",
    )
}

/// Writes the text for a root directory that could not be listed: the path
/// in quotes, then what the system said.
pub fn root_listing_error_message(path: &str, detail: &str) -> (r: String)
    ensures
        r@ == root_listing_error_text(path@, detail@),
{
    let mut text = String::from_str("Check your settings. Path may not be set: ");
    let quoted = debug_quote(path);
    text.append(quoted.as_str());
    text.append(" ");
    text.append(detail);
    text
}

/// Writes the text for a date that no directory, or more than one, carries.
pub fn directory_not_found_message(label: &str) -> (r: String)
    ensures
        r@ == directory_not_found_text(label@),
{
    let mut text = String::from_str(
        "There was an error finding todays directory. Check your config Settings, or the folder doesn't exist: ",
    );
    let quoted = debug_quote(label);
    text.append(quoted.as_str());
    text
}

/// Writes the text for a directory of the day that could not be read.
pub fn day_listing_error_message(detail: &str) -> (r: String)
    ensures
        r@ == day_listing_error_text(detail@),
{
    let mut text = String::from_str("There was an error reading from todays directory: ");
    text.append(detail);
    text
}

impl SystemTray {
    /// The notification of a failure: the given text under the program's
    /// name, with the error sign and the program's icon.
    pub fn notification_error(&self, notification_text: &str) -> (r: Notification)
        ensures
            r@ == error_notification(notification_text@),
    {
        Notification {
            text: String::from_str(notification_text),
            title: String::from_str("Timesnapper Checker"),
            flags: NotificationFlags::ErrorIcon,
            with_icon: true,
        }
    }

    /// The notification of what a scan found, for captures taken every
    /// `interval_seconds`.
    pub fn stats_notification(&self, found: &ScanResult, interval_seconds: u64) -> (r:
        Notification)
        ensures
            r@ == stats_notification_view(*found, interval_seconds),
    {
        let mut text = self.get_hrs_mins(found.undersized_count / 60, interval_seconds);
        text.append(" (");
        let blanks = decimal_string(found.undersized_count as u128);
        text.append(blanks.as_str());
        text.append(") Timesnapper BLANKS");
        let mut title = String::from_str("Timesnapper Checker: ");
        let active = self.get_hrs_mins(found.total_time_buckets, interval_seconds);
        title.append(active.as_str());
        let flags = if found.undersized_count > BLANKS_WARNING_LIMIT {
            NotificationFlags::WarningIcon
        } else {
            NotificationFlags::UserIcon
        };
        Notification { text, title, flags, with_icon: false }
    }
}

} // verus!
