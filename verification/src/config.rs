//! Settings: what the user stored, and what one scan works with.

use vstd::prelude::*;
use vstd::string::*;
use crate::error::ScanError;
use crate::text::{parse_u64, parse_unsigned};

verus! {

/// The settings that the user edits and that are kept between runs.
#[derive(Clone, Debug, PartialEq, Eq)]
pub struct MyConfig {
    /// Where the capture tool's own settings file lies.
    pub path: String,
    /// The size in bytes under which a capture counts as blank, as typed.
    pub blank_max_filesize: String,
}

/// What a [`MyConfig`] holds, as mathematical values.
pub struct MyConfigView {
    pub path: Seq<char>,
    pub blank_max_filesize: Seq<char>,
}

impl View for MyConfig {
    type V = MyConfigView;

    open spec fn view(&self) -> MyConfigView {
        MyConfigView { path: self.path@, blank_max_filesize: self.blank_max_filesize@ }
    }
}

/// The settings of a fresh installation: no path, and a limit of 80000 bytes.
pub open spec fn default_settings() -> MyConfigView {
    MyConfigView { path: Seq::empty(), blank_max_filesize: "80000"@ }
}

impl Default for MyConfig {
    fn default() -> (r: Self)
        ensures
            r@ == default_settings(),
    {
        MyConfig { path: String::new(), blank_max_filesize: String::from_str("80000") }
    }
}

/// The inputs of one scan, fixed for its duration.
#[derive(Clone, Debug, PartialEq, Eq)]
pub struct Configuration {
    /// The directory that holds one subdirectory per day.
    pub snapshot_root_path: String,
    /// A capture smaller than this many bytes counts as blank.
    pub undersized_byte_threshold: u64,
    /// Seconds between two captures.
    pub capture_interval_seconds: u64,
}

/// What a [`Configuration`] holds, as mathematical values.
pub struct ConfigurationView {
    pub snapshot_root_path: Seq<char>,
    pub undersized_byte_threshold: u64,
    pub capture_interval_seconds: u64,
}

impl View for Configuration {
    type V = ConfigurationView;

    open spec fn view(&self) -> ConfigurationView {
        ConfigurationView {
            snapshot_root_path: self.snapshot_root_path@,
            undersized_byte_threshold: self.undersized_byte_threshold,
            capture_interval_seconds: self.capture_interval_seconds,
        }
    }
}

/// The limit in bytes that applies where none is stored or it is no number.
pub const DEFAULT_BLANK_MAX_FILESIZE: u64 = 80000;

/// The interval in seconds that stands for "not known": the capture tool's
/// settings name none, or none that is a number.
pub const UNKNOWN_INTERVAL_SECONDS: u64 = 999;

/// The view of settings that may or may not have been read.
pub open spec fn settings_view(loaded: Option<MyConfig>) -> Option<MyConfigView> {
    match loaded {
        Some(settings) => Some(settings@),
        None => None,
    }
}

/// The path of the capture tool's settings file that stored settings give:
/// empty where they could not be read.
pub open spec fn stored_path(loaded: Option<MyConfigView>) -> Seq<char> {
    match loaded {
        Some(settings) => settings.path,
        None => Seq::empty(),
    }
}

/// The size limit that stored settings give, as text: `80000` where they
/// could not be read.
pub open spec fn stored_limit(loaded: Option<MyConfigView>) -> Seq<char> {
    match loaded {
        Some(settings) => settings.blank_max_filesize,
        None => "80000"@,
    }
}

/// The path of the capture tool's settings file according to the stored
/// settings, which `loaded` holds where they could be read.
pub fn get_path_from_confy(loaded: &Option<MyConfig>) -> (r: String)
    ensures
        r@ == stored_path(settings_view(*loaded)),
{
    match loaded {
        Some(settings) => settings.path.clone(),
        None => String::new(),
    }
}

/// The size limit as stored, which `loaded` holds where the settings could be
/// read.
pub fn get_blank_max_filesize_from_confy(loaded: &Option<MyConfig>) -> (r: String)
    ensures
        r@ == stored_limit(settings_view(*loaded)),
{
    match loaded {
        Some(settings) => settings.blank_max_filesize.clone(),
        None => String::from_str("80000"),
    }
}

/// The settings to store for a path and a size limit as the user typed them.
pub fn save_to_confy(path: &str, blank_max_filesize: &str) -> (r: MyConfig)
    ensures
        r@ == (MyConfigView { path: path@, blank_max_filesize: blank_max_filesize@ }),
{
    MyConfig {
        path: String::from_str(path),
        blank_max_filesize: String::from_str(blank_max_filesize),
    }
}

/// The size limit that a stored text stands for.
pub open spec fn blank_max_filesize_of(text: Seq<char>) -> u64 {
    match parse_unsigned(text) {
        Some(limit) => limit,
        None => DEFAULT_BLANK_MAX_FILESIZE,
    }
}

/// Reads the size limit from its stored text; a text that is no number
/// stands for the default.
pub fn blank_max_filesize_bytes(text: &str) -> (r: u64)
    ensures
        r == blank_max_filesize_of(text@),
{
    match parse_u64(text) {
        Some(limit) => limit,
        None => DEFAULT_BLANK_MAX_FILESIZE,
    }
}

/// The capture interval that a property of the settings file stands for.
pub open spec fn interval_of(property: Option<Seq<char>>) -> u64 {
    match property {
        Some(text) => match parse_unsigned(text) {
            Some(seconds) => seconds,
            None => UNKNOWN_INTERVAL_SECONDS,
        },
        None => UNKNOWN_INTERVAL_SECONDS,
    }
}

/// `ini::Ini`: a settings document as the ini crate holds it after parsing.
/// Nothing inside it is visible here; [`general_properties`] names what its
/// general section holds.
#[verifier::external_type_specification]
#[verifier::external_body]
pub struct ExIni(ini::Ini);

/// `ini::ParseError`: why the ini crate could not parse a text. It is only
/// passed on; nothing is read from it.
#[verifier::external_type_specification]
#[verifier::external_body]
pub struct ExParseError(ini::ParseError);

/// The general section of a document, the one before any section header: for
/// each key that it holds, the first value stored under that key.
pub uninterp spec fn general_properties(document: ini::Ini) -> Map<Seq<char>, Seq<char>>;

/// What `ini::Ini::load_from_str_noescape` makes of a text: the general
/// section of the document that it reads, or nothing where it reports a
/// parse error.
pub uninterp spec fn parsed_general_section(text: Seq<char>) -> Option<
    Map<Seq<char>, Seq<char>>,
>;

/// `ini::Ini::load_from_str_noescape`: parses a settings file in which a
/// backslash is an ordinary character. The outcome depends on the text alone.
#[verifier::external_body]
fn load_ini(text: &str) -> (r: Result<ini::Ini, ini::ParseError>)
    ensures
        match r {
            Ok(document) => parsed_general_section(text@) == Some(general_properties(document)),
            Err(_) => parsed_general_section(text@) is None,
        },
{
    ini::Ini::load_from_str_noescape(text)
}

/// `ini::Ini::get_from` on the general section: the first value stored under
/// `key`, or nothing where the section does not hold the key.
#[verifier::external_body]
fn general_property(document: &ini::Ini, key: &str) -> (r: Option<String>)
    ensures
        match r {
            Some(value) => general_properties(*document).contains_key(key@) && general_properties(
                *document,
            )[key@] == value@,
            None => !general_properties(*document).contains_key(key@),
        },
{
    document.get_from(None::<String>, key).map(String::from)
}

/// The text of a file without the byte order mark that may stand at its
/// start.
pub open spec fn without_byte_order_mark(text: Seq<char>) -> Seq<char> {
    if text.len() > 0 && text[0] == '\u{feff}' {
        text.subrange(1, text.len() as int)
    } else {
        text
    }
}

fn strip_byte_order_mark(text: &str) -> (r: &str)
    ensures
        r@ == without_byte_order_mark(text@),
{
    let len: usize = text.unicode_len();
    if len > 0 && text.get_char(0) == '\u{feff}' {
        text.substring_char(1, len)
    } else {
        text
    }
}

/// The value of a property in the general section of a settings file, where
/// the file parses and holds the property. A byte order mark at the start of
/// the file is no part of its text.
pub open spec fn ini_property(text: Seq<char>, property: Seq<char>) -> Option<Seq<char>> {
    match parsed_general_section(without_byte_order_mark(text)) {
        Some(section) => if section.contains_key(property) {
            Some(section[property])
        } else {
            None
        },
        None => None,
    }
}

/// Looks a property up in the text of the capture tool's settings file.
///
/// Fails with `ConfigurationMissing` where the text does not parse, and where
/// its general section does not hold the property.
pub fn get_property_from_timesnapper_ini(text: &str, property: &str) -> (r: Result<
    String,
    ScanError,
>)
    ensures
        match r {
            Ok(value) => ini_property(text@, property@) == Some(value@),
            Err(e) => e == ScanError::ConfigurationMissing && ini_property(text@, property@)
                is None,
        },
{
    match load_ini(strip_byte_order_mark(text)) {
        Ok(document) => match general_property(&document, property) {
            Some(value) => Ok(value),
            None => Err(ScanError::ConfigurationMissing),
        },
        Err(_) => Err(ScanError::ConfigurationMissing),
    }
}

/// The configuration that follows from the properties of the settings file
/// and the size limit: `ConfigurationMissing` where no root path is set.
pub open spec fn configuration_of(
    path: Option<Seq<char>>,
    interval: Option<Seq<char>>,
    threshold: u64,
) -> Result<ConfigurationView, ScanError> {
    match path {
        Some(root) => if root.len() == 0 {
            Err(ScanError::ConfigurationMissing)
        } else {
            Ok(
                ConfigurationView {
                    snapshot_root_path: root,
                    undersized_byte_threshold: threshold,
                    capture_interval_seconds: interval_of(interval),
                },
            )
        },
        None => Err(ScanError::ConfigurationMissing),
    }
}

/// The view of an optional text.
pub open spec fn text_view(text: Option<String>) -> Option<Seq<char>> {
    match text {
        Some(t) => Some(t@),
        None => None,
    }
}

/// The view of a configuration, or the error.
pub open spec fn outcome_view(outcome: Result<Configuration, ScanError>) -> Result<
    ConfigurationView,
    ScanError,
> {
    match outcome {
        Ok(config) => Ok(config@),
        Err(e) => Err(e),
    }
}

impl Configuration {
    /// Builds the configuration of a scan from the two properties of the
    /// settings file, each present or not, and the size limit.
    ///
    /// Fails with `ConfigurationMissing` exactly when the path is absent or
    /// empty. An interval that is absent or no number becomes
    /// `UNKNOWN_INTERVAL_SECONDS`.
    pub fn from_properties(path: Option<String>, interval: Option<String>, threshold: u64) -> (r:
        Result<Configuration, ScanError>)
        ensures
            outcome_view(r) == configuration_of(text_view(path), text_view(interval), threshold),
    {
        let root = match path {
            Some(root) => root,
            None => {
                return Err(ScanError::ConfigurationMissing);
            },
        };
        if root.as_str().is_empty() {
            return Err(ScanError::ConfigurationMissing);
        }
        let seconds: u64 = match interval {
            Some(text) => match parse_u64(text.as_str()) {
                Some(seconds) => seconds,
                None => UNKNOWN_INTERVAL_SECONDS,
            },
            None => UNKNOWN_INTERVAL_SECONDS,
        };
        Ok(
            Configuration {
                snapshot_root_path: root,
                undersized_byte_threshold: threshold,
                capture_interval_seconds: seconds,
            },
        )
    }

    /// Builds the configuration of a scan from the text of the capture
    /// tool's settings file: the root path is its property `Path`, the
    /// capture interval its property `Interval`.
    pub fn from_ini(text: &str, threshold: u64) -> (r: Result<Configuration, ScanError>)
        ensures
            outcome_view(r) == configuration_of(
                ini_property(text@, "Path"@),
                ini_property(text@, "Interval"@),
                threshold,
            ),
    {
        match load_ini(strip_byte_order_mark(text)) {
            Ok(document) => {
                let path = general_property(&document, "Path");
                let interval = general_property(&document, "Interval");
                Configuration::from_properties(path, interval, threshold)
            },
            Err(_) => Err(ScanError::ConfigurationMissing),
        }
    }
}

} // verus!
