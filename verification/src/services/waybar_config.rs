//! Wiring modules into the bar's configuration.
//!
//! The configuration is a JSON object whose members `modules-left`,
//! `modules-center` and `modules-right` list the modules of each section.
//! Comments in the file are read over and not written back.

use crate::domain::bar_section::BarSection;
use crate::json::{
    json_pretty_text, jsonc_document, lemma_array_model, lemma_object_model, members_of,
    models_of, parse_jsonc, render_pretty, JsonMember, JsonModel, JsonValue,
};
use crate::text::{
    first_index, is_first_index, joined_text, lemma_first_index_exists, lemma_first_index_unique,
    starts_with,
};
use std::fmt::Write;
use vstd::prelude::*;

verus! {

/// Why a document cannot take or give up a module.
#[derive(Debug, Clone, Copy, PartialEq, Eq, Structural)]
pub enum ConfigDefect {
    /// The document is not a JSON object.
    NotAnObject,
    /// The member that should list a section's modules is not an array.
    NotAnArray,
}

/// The keys of the members of an object, in order.
pub open spec fn keys_of(members: Seq<(Seq<char>, JsonModel)>) -> Seq<Seq<char>> {
    Seq::new(members.len(), |i: int| members[i].0)
}

/// The document `doc` with the module `name` listed under `key`: appended to
/// the array under `key` unless it is there already; where no member has that
/// key, a new array that holds only `name` is added under it.
pub open spec fn with_module(doc: JsonModel, name: Seq<char>, key: Seq<char>) -> Result<
    JsonModel,
    ConfigDefect,
> {
    match doc {
        JsonModel::Object(members) => if !keys_of(members).contains(key) {
            Ok(
                JsonModel::Object(
                    members.push((key, JsonModel::Array(seq![JsonModel::Text(name)]))),
                ),
            )
        } else {
            let at = first_index(keys_of(members), key);
            match members[at].1 {
                JsonModel::Array(items) => if items.contains(JsonModel::Text(name)) {
                    Ok(doc)
                } else {
                    Ok(
                        JsonModel::Object(
                            members.update(
                                at,
                                (key, JsonModel::Array(items.push(JsonModel::Text(name)))),
                            ),
                        ),
                    )
                },
                _ => Err(ConfigDefect::NotAnArray),
            }
        },
        _ => Err(ConfigDefect::NotAnObject),
    }
}

/// The test that keeps every value but the string `name`.
pub open spec fn is_not_name(name: Seq<char>) -> spec_fn(JsonModel) -> bool {
    |value: JsonModel| value != JsonModel::Text(name)
}

/// The members `members` with every string `name` taken out of the array
/// under `key`; unchanged where no member has that key or the first one that
/// has it is not an array.
pub open spec fn stripped(
    members: Seq<(Seq<char>, JsonModel)>,
    key: Seq<char>,
    name: Seq<char>,
) -> Seq<(Seq<char>, JsonModel)> {
    if !keys_of(members).contains(key) {
        members
    } else {
        let at = first_index(keys_of(members), key);
        match members[at].1 {
            JsonModel::Array(items) => members.update(
                at,
                (key, JsonModel::Array(items.filter(is_not_name(name)))),
            ),
            _ => members,
        }
    }
}

/// The document `doc` with the module `name` taken out of the arrays of all
/// three sections.
pub open spec fn without_module(doc: JsonModel, name: Seq<char>) -> Result<
    JsonModel,
    ConfigDefect,
> {
    match doc {
        JsonModel::Object(members) => Ok(
            JsonModel::Object(
                stripped(
                    stripped(
                        stripped(members, BarSection::Left.spec_array_key(), name),
                        BarSection::Center.spec_array_key(),
                        name,
                    ),
                    BarSection::Right.spec_array_key(),
                    name,
                ),
            ),
        ),
        _ => Err(ConfigDefect::NotAnObject),
    }
}

/// Position of the first member of `members` with the key `key`.
fn find_member(members: &Vec<JsonMember>, key: &str) -> (found: Option<usize>)
    ensures
        found is Some <==> keys_of(members_of(members@)).contains(key@),
        found matches Some(at) ==> at < members@.len() && members@[at as int].key@ == key@
            && at as int == first_index(keys_of(members_of(members@)), key@),
{
    let wanted = key.to_owned();
    let ghost keys = keys_of(members_of(members@));
    let mut i: usize = 0;
    while i < members.len()
        invariant
            i <= members@.len(),
            wanted@ == key@,
            keys == keys_of(members_of(members@)),
            forall|j: int| 0 <= j < i ==> keys[j] != key@,
        decreases members@.len() - i,
    {
        if members[i].key == wanted {
            proof {
                assert(keys[i as int] == key@);
                assert(is_first_index(keys, key@, i as int));
                lemma_first_index_unique(keys, key@, i as int);
            }
            return Some(i);
        }
        i += 1;
    }
    None
}

/// Whether `value` is the string `name`.
fn is_name(value: &JsonValue, name: &String) -> (same: bool)
    ensures
        same == (value@ == JsonModel::Text(name@)),
{
    match value {
        JsonValue::String(text) => *text == *name,
        _ => false,
    }
}

/// Whether the string `name` is among `items`.
fn lists_name(items: &Vec<JsonValue>, name: &String) -> (listed: bool)
    ensures
        listed == models_of(items@).contains(JsonModel::Text(name@)),
{
    let mut i: usize = 0;
    while i < items.len()
        invariant
            i <= items@.len(),
            forall|j: int| 0 <= j < i ==> models_of(items@)[j] != JsonModel::Text(name@),
        decreases items@.len() - i,
    {
        if is_name(&items[i], name) {
            assert(models_of(items@)[i as int] == JsonModel::Text(name@));
            return true;
        }
        i += 1;
    }
    false
}

/// Lists the module `module_name` in the section `section` of `doc`, unless
/// it is listed there already; the array is created where it is missing.
pub fn add_module_to_document(doc: JsonValue, module_name: &str, section: BarSection) -> (added:
    Result<JsonValue, ConfigDefect>)
    ensures
        match with_module(doc@, module_name@, section.spec_array_key()) {
            Ok(model) => added matches Ok(document) && document@ == model,
            Err(defect) => added matches Err(d) && d == defect,
        },
{
    let key = section.array_key();
    let name = module_name.to_owned();
    let mut members = match doc {
        JsonValue::Object(members) => members,
        _ => {
            return Err(ConfigDefect::NotAnObject);
        },
    };
    let ghost before = members@;
    proof {
        lemma_object_model(members);
    }
    let at = match find_member(&members, key) {
        Some(at) => at,
        None => {
            let mut items: Vec<JsonValue> = Vec::new();
            items.push(JsonValue::String(name));
            proof {
                lemma_array_model(items);
                assert(models_of(items@) =~= seq![JsonModel::Text(module_name@)]);
            }
            members.push(JsonMember { key: key.to_owned(), value: JsonValue::Array(items) });
            proof {
                lemma_object_model(members);
                assert(members_of(members@) =~= members_of(before).push(
                    (key@, JsonModel::Array(seq![JsonModel::Text(module_name@)])),
                ));
            }
            return Ok(JsonValue::Object(members));
        },
    };
    let member = members.remove(at);
    let mut items = match member.value {
        JsonValue::Array(items) => items,
        _ => {
            return Err(ConfigDefect::NotAnArray);
        },
    };
    proof {
        lemma_array_model(items);
    }
    let ghost old_items = items@;
    if lists_name(&items, &name) {
        members.insert(at, JsonMember { key: member.key, value: JsonValue::Array(items) });
        proof {
            lemma_object_model(members);
            assert(members@ =~= before);
        }
        return Ok(JsonValue::Object(members));
    }
    items.push(JsonValue::String(name));
    proof {
        lemma_array_model(items);
        assert(models_of(items@) =~= models_of(old_items).push(JsonModel::Text(module_name@)));
    }
    members.insert(at, JsonMember { key: member.key, value: JsonValue::Array(items) });
    proof {
        lemma_object_model(members);
        assert(members_of(members@) =~= members_of(before).update(
            at as int,
            (key@, JsonModel::Array(models_of(old_items).push(JsonModel::Text(module_name@)))),
        ));
    }
    Ok(JsonValue::Object(members))
}

/// The values of `items` that are not the string `name`, in order.
fn strip_name(items: Vec<JsonValue>, name: &String) -> (kept: Vec<JsonValue>)
    ensures
        models_of(kept@) == models_of(items@).filter(is_not_name(name@)),
{
    let mut kept: Vec<JsonValue> = Vec::new();
    proof {
        reveal(Seq::filter);
        assert(models_of(items@.take(0)) =~= Seq::<JsonModel>::empty());
        assert(models_of(kept@) =~= Seq::<JsonModel>::empty());
    }
    for item in it: items
        invariant
            it.seq() == items@,
            models_of(kept@) == models_of(items@.take(it.index() as int)).filter(
                is_not_name(name@),
            ),
    {
        let ghost i = it.index() as int;
        let ghost seen = models_of(items@.take(i));
        let ghost kept_before = kept@;
        proof {
            assert(models_of(items@.take(i + 1)) =~= seen.push(item@));
            seen.lemma_filter_push(item@, is_not_name(name@));
        }
        if !is_name(&item, name) {
            kept.push(item);
            proof {
                assert(models_of(kept@) =~= models_of(kept_before).push(item@));
            }
        }
    }
    proof {
        assert(items@.take(items@.len() as int) =~= items@);
    }
    kept
}

/// Takes every string `name` out of the array under `key`, if there is one.
fn strip_member(members: Vec<JsonMember>, key: &str, name: &String) -> (result: Vec<JsonMember>)
    ensures
        members_of(result@) == stripped(members_of(members@), key@, name@),
{
    let mut members = members;
    let ghost before = members@;
    let at = match find_member(&members, key) {
        Some(at) => at,
        None => {
            return members;
        },
    };
    let member = members.remove(at);
    match member.value {
        JsonValue::Array(items) => {
            proof {
                lemma_array_model(items);
            }
            let kept = strip_name(items, name);
            proof {
                lemma_array_model(kept);
            }
            members.insert(at, JsonMember { key: member.key, value: JsonValue::Array(kept) });
            proof {
                assert(members_of(members@) =~= members_of(before).update(
                    at as int,
                    (key@, JsonModel::Array(models_of(items@).filter(is_not_name(name@)))),
                ));
            }
            members
        },
        other => {
            members.insert(at, JsonMember { key: member.key, value: other });
            proof {
                assert(members@ =~= before);
            }
            members
        },
    }
}

/// Takes the module `module_name` out of all three sections of `doc`.
pub fn remove_module_from_document(doc: JsonValue, module_name: &str) -> (removed: Result<
    JsonValue,
    ConfigDefect,
>)
    ensures
        match without_module(doc@, module_name@) {
            Ok(model) => removed matches Ok(document) && document@ == model,
            Err(defect) => removed matches Err(d) && d == defect,
        },
{
    let name = module_name.to_owned();
    let members = match doc {
        JsonValue::Object(members) => members,
        _ => {
            return Err(ConfigDefect::NotAnObject);
        },
    };
    proof {
        lemma_object_model(members);
    }
    let members = strip_member(members, BarSection::Left.array_key(), &name);
    let members = strip_member(members, BarSection::Center.array_key(), &name);
    let members = strip_member(members, BarSection::Right.array_key(), &name);
    proof {
        lemma_object_model(members);
    }
    Ok(JsonValue::Object(members))
}

/// Why a configuration text could not be edited.
#[derive(Debug, Clone, Copy, PartialEq, Eq, Structural)]
pub enum ConfigFailure {
    /// The text is not JSON, comments allowed.
    Unreadable,
    /// The text holds no value.
    Empty,
    /// The value is not an object.
    NotAnObject,
    /// The member for the section is not an array.
    NotAnArray,
    /// The edited document could not be written as text.
    Unwritable,
}

/// The text written for an edited document, or why there is none.
pub open spec fn written(edited: Result<JsonModel, ConfigDefect>) -> Result<
    Seq<char>,
    ConfigFailure,
> {
    match edited {
        Err(ConfigDefect::NotAnObject) => Err(ConfigFailure::NotAnObject),
        Err(ConfigDefect::NotAnArray) => Err(ConfigFailure::NotAnArray),
        Ok(document) => match json_pretty_text(document) {
            Some(text) => Ok(text),
            None => Err(ConfigFailure::Unwritable),
        },
    }
}

/// What adding the module `name` to `section` makes of the configuration
/// text `content`.
pub open spec fn add_module_outcome(
    content: Seq<char>,
    name: Seq<char>,
    section: BarSection,
) -> Result<Seq<char>, ConfigFailure> {
    match jsonc_document(content) {
        None => Err(ConfigFailure::Unreadable),
        Some(None) => Err(ConfigFailure::Empty),
        Some(Some(document)) => written(with_module(document, name, section.spec_array_key())),
    }
}

/// What removing the module `name` makes of the configuration text
/// `content`.
pub open spec fn remove_module_outcome(content: Seq<char>, name: Seq<char>) -> Result<
    Seq<char>,
    ConfigFailure,
> {
    match jsonc_document(content) {
        None => Err(ConfigFailure::Unreadable),
        Some(None) => Err(ConfigFailure::Empty),
        Some(Some(document)) => written(without_module(document, name)),
    }
}

/// `message` reports `failure`, met while editing the array under `key`.
/// The words of an outside parser or writer are not fixed here, only what
/// stands before them.
pub open spec fn describes_failure(
    message: Seq<char>,
    failure: ConfigFailure,
    key: Seq<char>,
) -> bool {
    match failure {
        ConfigFailure::Unreadable => starts_with(message, "Failed to parse waybar config: "@),
        ConfigFailure::Empty => message == "Empty waybar config"@,
        ConfigFailure::NotAnObject => message == "Waybar config is not a JSON object"@,
        ConfigFailure::NotAnArray => message == key + " is not an array"@,
        ConfigFailure::Unwritable => starts_with(message, "Failed to serialize config: "@),
    }
}

/// Reads a configuration text; a failure comes back as its message.
fn read_document(content: &str) -> (read: Result<JsonValue, String>)
    ensures
        match jsonc_document(content@) {
            None => read matches Err(message) && describes_failure(
                message@,
                ConfigFailure::Unreadable,
                Seq::empty(),
            ),
            Some(None) => read matches Err(message) && describes_failure(
                message@,
                ConfigFailure::Empty,
                Seq::empty(),
            ),
            Some(Some(model)) => read matches Ok(document) && document@ == model,
        },
{
    match parse_jsonc(content) {
        Ok(Some(document)) => Ok(document),
        Ok(None) => Err("Empty waybar config".to_owned()),
        Err(error) => {
            let detail = error.to_string();
            Err(joined_text("Failed to parse waybar config: ", detail.as_str()))
        },
    }
}

/// Writes a document as indented JSON; a failure comes back as its message.
fn write_document(document: &JsonValue) -> (text: Result<String, String>)
    ensures
        match json_pretty_text(document@) {
            Some(rendered) => text matches Ok(t) && t@ == rendered,
            None => text matches Err(message) && describes_failure(
                message@,
                ConfigFailure::Unwritable,
                Seq::empty(),
            ),
        },
{
    match render_pretty(document) {
        Ok(text) => Ok(text),
        Err(error) => {
            let detail = error.to_string();
            Err(joined_text("Failed to serialize config: ", detail.as_str()))
        },
    }
}

/// Adds the module `module_name` to the section `section` of the
/// configuration text `content` and returns the new text. The module is
/// listed once: adding it again changes nothing.
pub fn add_module(content: &str, module_name: &str, section: BarSection) -> (edited: Result<
    String,
    String,
>)
    ensures
        match add_module_outcome(content@, module_name@, section) {
            Ok(text) => edited matches Ok(t) && t@ == text,
            Err(failure) => edited matches Err(message) && describes_failure(
                message@,
                failure,
                section.spec_array_key(),
            ),
        },
{
    let document = match read_document(content) {
        Ok(document) => document,
        Err(message) => {
            return Err(message);
        },
    };
    let changed = match add_module_to_document(document, module_name, section) {
        Ok(changed) => changed,
        Err(ConfigDefect::NotAnObject) => {
            return Err("Waybar config is not a JSON object".to_owned());
        },
        Err(ConfigDefect::NotAnArray) => {
            return Err(joined_text(section.array_key(), " is not an array"));
        },
    };
    write_document(&changed)
}

/// Removes the module `module_name` from every section of the configuration
/// text `content` and returns the new text.
pub fn remove_module(content: &str, module_name: &str) -> (edited: Result<String, String>)
    ensures
        match remove_module_outcome(content@, module_name@) {
            Ok(text) => edited matches Ok(t) && t@ == text,
            Err(failure) => edited matches Err(message) && describes_failure(
                message@,
                failure,
                Seq::empty(),
            ),
        },
{
    let document = match read_document(content) {
        Ok(document) => document,
        Err(message) => {
            return Err(message);
        },
    };
    let changed = match remove_module_from_document(document, module_name) {
        Ok(changed) => changed,
        Err(_) => {
            return Err("Waybar config is not a JSON object".to_owned());
        },
    };
    write_document(&changed)
}

/// What `chrono` writes for the instant `seconds` after the Unix epoch, in
/// UTC, when it formats it by `pattern`: `None` where the instant is out of
/// its range or the pattern is not one that it can format by.
pub uninterp spec fn chrono_formatted(seconds: int, pattern: Seq<char>) -> Option<Seq<char>>;

/// The text of an optional string.
pub open spec fn optional_text(text: Option<String>) -> Option<Seq<char>> {
    match text {
        Some(t) => Some(t@),
        None => None,
    }
}

/// Makes the instant with `chrono::DateTime::from_timestamp` and writes what
/// its `format` displays for `pattern`. The result is what `chrono_formatted`
/// names; it is `None` where there is no such instant or the display fails.
#[verifier::external_body]
fn chrono_format_utc(seconds: i64, pattern: &str) -> (text: Option<String>)
    ensures
        optional_text(text) == chrono_formatted(seconds as int, pattern@),
{
    let moment = chrono::DateTime::from_timestamp(seconds, 0)?;
    let mut text = String::new();
    write!(text, "{}", moment.format(pattern)).ok()?;
    Some(text)
}

/// The pattern of the time stamp in a backup's name: year, month, day, an
/// underscore, hour, minute, second.
pub open spec fn stamp_pattern() -> Seq<char> {
    "%Y%m%d_%H%M%S"@
}

/// The name of the backup made at the instant `seconds`: `config.jsonc.`,
/// the time stamp, and `.backup`.
pub open spec fn spec_backup_name(seconds: int) -> Option<Seq<char>> {
    match chrono_formatted(seconds, stamp_pattern()) {
        Some(stamp) => Some("config.jsonc."@ + stamp + ".backup"@),
        None => None,
    }
}

/// The name of a backup from its time stamp.
pub fn backup_name_for(stamp: &str) -> (name: String)
    ensures
        name@ == "config.jsonc."@ + stamp@ + ".backup"@,
{
    let mut name = "config.jsonc.".to_owned();
    name.append(stamp);
    name.append(".backup");
    name
}

/// The name of the backup of the configuration made at `now_seconds` after
/// the Unix epoch; `None` where that instant cannot be written as a date.
pub fn backup_file_name(now_seconds: i64) -> (name: Option<String>)
    ensures
        optional_text(name) == spec_backup_name(now_seconds as int),
{
    match chrono_format_utc(now_seconds, "%Y%m%d_%H%M%S") {
        Some(stamp) => Some(backup_name_for(stamp.as_str())),
        None => None,
    }
}

/// The directory part of a path: everything up to and including its last
/// `/`; nothing where it has none.
pub open spec fn directory_part(path: Seq<char>) -> Seq<char>
    decreases path.len(),
{
    if path.len() == 0 {
        path
    } else if path.last() == '/' {
        path
    } else {
        directory_part(path.drop_last())
    }
}

/// The directory part of `path`.
fn directory_of(path: &str) -> (directory: Vec<char>)
    ensures
        directory@ == directory_part(path@),
{
    let chars = crate::text::chars_of(path);
    let mut end: usize = chars.len();
    proof {
        assert(chars@.subrange(0, end as int) =~= path@);
    }
    while end > 0 && chars[end - 1] != '/'
        invariant
            end <= chars@.len(),
            chars@ == path@,
            directory_part(chars@.subrange(0, end as int)) == directory_part(path@),
        decreases end,
    {
        proof {
            assert(chars@.subrange(0, end as int).drop_last() =~= chars@.subrange(0, end - 1));
        }
        end -= 1;
    }
    crate::text::slice_chars(chars.as_slice(), 0, end)
}

/// What a request to back the configuration up comes to.
pub open spec fn backup_outcome(config_path: Seq<char>, exists: bool, seconds: int) -> Result<
    Seq<char>,
    Seq<char>,
> {
    if !exists {
        Err("No config to backup"@)
    } else {
        match spec_backup_name(seconds) {
            Some(name) => Ok(directory_part(config_path) + name),
            None => Err("Failed to create backup: time out of range"@),
        }
    }
}

/// Where to copy the configuration at `config_path` to as a backup made at
/// `now_seconds`: a file beside it, named by the time. There is nothing to
/// back up where the configuration does not exist.
pub fn backup_config(config_path: &str, exists: bool, now_seconds: i64) -> (target: Result<
    String,
    String,
>)
    ensures
        match backup_outcome(config_path@, exists, now_seconds as int) {
            Ok(path) => target matches Ok(p) && p@ == path,
            Err(message) => target matches Err(m) && m@ == message,
        },
{
    if !exists {
        return Err("No config to backup".to_owned());
    }
    let name = match backup_file_name(now_seconds) {
        Some(name) => name,
        None => {
            return Err("Failed to create backup: time out of range".to_owned());
        },
    };
    let mut path = directory_of(config_path);
    crate::text::push_str(&mut path, name.as_str());
    Ok(crate::text::string_of(path.as_slice()))
}

/// What came of reading the configuration file.
pub enum ReadAttempt {
    /// There is no file at the path.
    Missing,
    /// The file was read.
    Read(String),
    /// Reading failed, for the reason given.
    Failed(String),
}

/// The configuration's text, or what to tell the user where there is none.
pub fn load_config(config_path: &str, attempt: ReadAttempt) -> (content: Result<String, String>)
    ensures
        match attempt {
            ReadAttempt::Missing => content matches Err(m) && m@ == "Waybar config not found at "@
                + config_path@,
            ReadAttempt::Read(text) => content matches Ok(t) && t == text,
            ReadAttempt::Failed(reason) => content matches Err(m) && m@
                == "Failed to read waybar config: "@ + reason@,
        },
{
    match attempt {
        ReadAttempt::Missing => Err(joined_text("Waybar config not found at ", config_path)),
        ReadAttempt::Read(text) => Ok(text),
        ReadAttempt::Failed(reason) => Err(
            joined_text("Failed to read waybar config: ", reason.as_str()),
        ),
    }
}

/// What to tell the user after the configuration was written: nothing where
/// it went well.
pub fn save_config(written: Result<(), String>) -> (outcome: Result<(), String>)
    ensures
        match written {
            Ok(_) => outcome is Ok,
            Err(reason) => outcome matches Err(m) && m@ == "Failed to write waybar config: "@
                + reason@,
        },
{
    match written {
        Ok(_) => Ok(()),
        Err(reason) => Err(joined_text("Failed to write waybar config: ", reason.as_str())),
    }
}

/// What came of asking the bar to load its configuration again.
pub enum SignalAttempt {
    /// The signalling command could not be started, for the reason given.
    NotSent(String),
    /// The command ran and ended: whether it reported success, its exit
    /// code if it has one, and how its status displays.
    Exited { success: bool, code: Option<i32>, status: String },
}

/// Whether the bar was asked to reload. An exit code of 1 says that no bar
/// is running, which is no failure.
pub fn reload_waybar(attempt: SignalAttempt) -> (outcome: Result<(), String>)
    ensures
        match attempt {
            SignalAttempt::NotSent(reason) => outcome matches Err(m) && m@
                == "Failed to send reload signal: "@ + reason@,
            SignalAttempt::Exited { success, code, status } => if success || code == Some(1i32) {
                outcome is Ok
            } else {
                outcome matches Err(m) && m@ == "pkill failed with status: "@ + status@
            },
        },
{
    match attempt {
        SignalAttempt::NotSent(reason) => Err(
            joined_text("Failed to send reload signal: ", reason.as_str()),
        ),
        SignalAttempt::Exited { success, code, status } => {
            let tolerated = match code {
                Some(value) => value == 1,
                None => false,
            };
            if success || tolerated {
                Ok(())
            } else {
                Err(joined_text("pkill failed with status: ", status.as_str()))
            }
        },
    }
}

/// The items of the array under `key` in `doc`; none where `doc` is not an
/// object, has no such member, or the member is not an array.
pub open spec fn section_items(doc: JsonModel, key: Seq<char>) -> Seq<JsonModel> {
    match doc {
        JsonModel::Object(members) => if keys_of(members).contains(key) {
            match members[first_index(keys_of(members), key)].1 {
                JsonModel::Array(items) => items,
                _ => Seq::empty(),
            }
        } else {
            Seq::empty()
        },
        _ => Seq::empty(),
    }
}

/// The string `name` stands at exactly one position of `items`.
pub open spec fn listed_once(items: Seq<JsonModel>, name: Seq<char>) -> bool {
    exists|at: int|
        0 <= at < items.len() && #[trigger] items[at] == JsonModel::Text(name) && forall|j: int|
            0 <= j < items.len() && j != at ==> items[j] != JsonModel::Text(name)
}

/// After a module was added to a section, the section lists it; and where
/// the section did not list it before, it lists it exactly once.
pub proof fn law_added_module_is_listed(doc: JsonModel, name: Seq<char>, key: Seq<char>)
    requires
        with_module(doc, name, key) is Ok,
    ensures
        section_items(with_module(doc, name, key)->Ok_0, key).contains(JsonModel::Text(name)),
        !section_items(doc, key).contains(JsonModel::Text(name)) ==> listed_once(
            section_items(with_module(doc, name, key)->Ok_0, key),
            name,
        ),
        section_items(doc, key).contains(JsonModel::Text(name)) ==> with_module(doc, name, key)
            == Ok::<JsonModel, ConfigDefect>(doc),
{
    let members = doc->Object_0;
    let keys = keys_of(members);
    let after = with_module(doc, name, key)->Ok_0;
    let wanted = JsonModel::Text(name);
    if !keys.contains(key) {
        let added = (key, JsonModel::Array(seq![wanted]));
        let members2 = members.push(added);
        let keys2 = keys_of(members2);
        assert(keys2[members.len() as int] == key);
        assert forall|j: int| 0 <= j < members.len() implies keys2[j] != key by {
            assert(keys2[j] == keys[j]);
        }
        assert(is_first_index(keys2, key, members.len() as int));
        lemma_first_index_unique(keys2, key, members.len() as int);
        assert(section_items(after, key) == seq![wanted]);
        assert(seq![wanted][0] == wanted);
    } else {
        lemma_first_index_exists(keys, key);
        let at = first_index(keys, key);
        let items = members[at].1->Array_0;
        if !items.contains(wanted) {
            let members2 = members.update(at, (key, JsonModel::Array(items.push(wanted))));
            let keys2 = keys_of(members2);
            assert(keys2 =~= keys);
            let items2 = items.push(wanted);
            assert(section_items(after, key) == items2);
            assert(items2[items.len() as int] == wanted);
            assert forall|j: int| 0 <= j < items2.len() && j != items.len() implies items2[j]
                != wanted by {
                assert(items2[j] == items[j]);
            }
        }
    }
}

/// Adding a module twice gives what adding it once gives.
pub proof fn law_add_module_idempotent(doc: JsonModel, name: Seq<char>, key: Seq<char>)
    requires
        with_module(doc, name, key) is Ok,
    ensures
        with_module(with_module(doc, name, key)->Ok_0, name, key) == with_module(doc, name, key),
{
    law_added_module_is_listed(doc, name, key);
    let after = with_module(doc, name, key)->Ok_0;
    let members = doc->Object_0;
    let keys = keys_of(members);
    let wanted = JsonModel::Text(name);
    if !keys.contains(key) {
        let members2 = members.push((key, JsonModel::Array(seq![wanted])));
        let keys2 = keys_of(members2);
        assert(keys2[members.len() as int] == key);
        assert forall|j: int| 0 <= j < members.len() implies keys2[j] != key by {
            assert(keys2[j] == keys[j]);
        }
        assert(is_first_index(keys2, key, members.len() as int));
        lemma_first_index_unique(keys2, key, members.len() as int);
    } else {
        lemma_first_index_exists(keys, key);
        let at = first_index(keys, key);
        let items = members[at].1->Array_0;
        if !items.contains(wanted) {
            let members2 = members.update(at, (key, JsonModel::Array(items.push(wanted))));
            assert(keys_of(members2) =~= keys);
        }
    }
}

/// A filter that every item passes changes nothing.
proof fn lemma_filter_keeps_all(items: Seq<JsonModel>, test: spec_fn(JsonModel) -> bool)
    requires
        forall|i: int| 0 <= i < items.len() ==> test(#[trigger] items[i]),
    ensures
        items.filter(test) == items,
    decreases items.len(),
{
    reveal(Seq::filter);
    if items.len() > 0 {
        lemma_filter_keeps_all(items.drop_last(), test);
        assert(items.drop_last().push(items.last()) =~= items);
    }
}

/// Stripping a module from a section that does not list it changes nothing.
proof fn lemma_strip_absent(members: Seq<(Seq<char>, JsonModel)>, key: Seq<char>, name: Seq<char>)
    requires
        !section_items(JsonModel::Object(members), key).contains(JsonModel::Text(name)),
    ensures
        stripped(members, key, name) == members,
{
    let keys = keys_of(members);
    if keys.contains(key) {
        lemma_first_index_exists(keys, key);
        let at = first_index(keys, key);
        if members[at].1 is Array {
            let items = members[at].1->Array_0;
            assert forall|i: int| 0 <= i < items.len() implies is_not_name(name)(
                #[trigger] items[i],
            ) by {
                if items[i] == JsonModel::Text(name) {
                    assert(items.contains(JsonModel::Text(name)));
                }
            }
            lemma_filter_keeps_all(items, is_not_name(name));
            assert(keys[at] == key);
            assert(members.update(at, (key, JsonModel::Array(items))) =~= members);
        }
    }
}

/// Removing a module that no section lists changes nothing: every array
/// keeps its items and its length.
pub proof fn law_remove_absent_module_is_noop(doc: JsonModel, name: Seq<char>)
    requires
        doc is Object,
        !section_items(doc, BarSection::Left.spec_array_key()).contains(JsonModel::Text(name)),
        !section_items(doc, BarSection::Center.spec_array_key()).contains(JsonModel::Text(name)),
        !section_items(doc, BarSection::Right.spec_array_key()).contains(JsonModel::Text(name)),
    ensures
        without_module(doc, name) == Ok::<JsonModel, ConfigDefect>(doc),
{
    let members = doc->Object_0;
    lemma_strip_absent(members, BarSection::Left.spec_array_key(), name);
    lemma_strip_absent(members, BarSection::Center.spec_array_key(), name);
    lemma_strip_absent(members, BarSection::Right.spec_array_key(), name);
}

} // verus!
