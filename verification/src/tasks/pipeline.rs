//! The install and uninstall pipelines.
//!
//! A module goes from not installed to wired through fixed steps, each of
//! which the caller performs and reports back. The functions here decide the
//! next step, check a download before anything is written, and keep track of
//! the modules that are under way.

use crate::domain::installed::InstalledModule;
use crate::domain::module::ModuleUuid;
use crate::domain::version::ModuleVersion;
use crate::security::path_validation::{
    extraction_outcome, validate_extraction_path, PathTraversalError,
};
use crate::security::script_inspection::{
    all_findings, findings_of, higher, inspect_script_safety, worst, RiskLevel,
    ScriptInspectionResult,
};
use crate::domain::bar_section::BarSection;
use crate::services::paths::{joined, module_install_path, spec_modules_dir, PlatformDirs};
use crate::services::waybar_config::{
    add_module, add_module_outcome, describes_failure, remove_module, remove_module_outcome,
};
use crate::services::waybar_style::{injected, injection_defect, removed};
use crate::tasks::waybar::{
    handle_css_injection, handle_css_removal, sheet_or_empty, CssInjection,
};
use crate::ui::installed::{is_module, position_of};
use vstd::prelude::*;

verus! {

/// Where a module is on its way to being installed.
#[derive(Debug, Clone, Copy, PartialEq, Eq, Structural)]
pub enum InstallState {
    NotInstalled,
    Downloading,
    Validating,
    Extracting,
    Registered,
    Wired,
}

/// What the caller reports to the install pipeline.
#[derive(Debug, Clone, Copy, PartialEq, Eq, Structural)]
pub enum InstallEvent {
    /// The user asked for the module.
    Requested,
    /// The step under way was done.
    StepDone,
    /// The step under way failed.
    StepFailed,
}

/// What the install pipeline asks the caller to do next.
#[derive(Debug, Clone, Copy, PartialEq, Eq, Structural)]
pub enum InstallCommand {
    /// Fetch the module's archive.
    Download,
    /// Check the archive and inspect its scripts.
    Validate,
    /// Unpack the archive into the install directory.
    Extract,
    /// Record the module as installed, then wire it into the bar.
    RegisterAndWire,
    /// Tell the user that the module is installed.
    Finish,
    /// Tell the user what failed; nothing was written.
    Report,
    /// Remove what was written for the module, then tell the user.
    RemoveFilesAndReport,
    /// Tell the user that the module is installed but not in the bar.
    ReportUnwired,
    /// The report does not fit the state: do nothing.
    Ignore,
}

/// The state after `event` and what is to be done then.
pub open spec fn install_transition(state: InstallState, event: InstallEvent) -> (
    InstallState,
    InstallCommand,
) {
    match (state, event) {
        (InstallState::NotInstalled, InstallEvent::Requested) => (
            InstallState::Downloading,
            InstallCommand::Download,
        ),
        (InstallState::Downloading, InstallEvent::StepDone) => (
            InstallState::Validating,
            InstallCommand::Validate,
        ),
        (InstallState::Validating, InstallEvent::StepDone) => (
            InstallState::Extracting,
            InstallCommand::Extract,
        ),
        (InstallState::Extracting, InstallEvent::StepDone) => (
            InstallState::Registered,
            InstallCommand::RegisterAndWire,
        ),
        (InstallState::Registered, InstallEvent::StepDone) => (
            InstallState::Wired,
            InstallCommand::Finish,
        ),
        (InstallState::Downloading, InstallEvent::StepFailed) => (
            InstallState::NotInstalled,
            InstallCommand::Report,
        ),
        (InstallState::Validating, InstallEvent::StepFailed) => (
            InstallState::NotInstalled,
            InstallCommand::Report,
        ),
        (InstallState::Extracting, InstallEvent::StepFailed) => (
            InstallState::NotInstalled,
            InstallCommand::RemoveFilesAndReport,
        ),
        (InstallState::Registered, InstallEvent::StepFailed) => (
            InstallState::Registered,
            InstallCommand::ReportUnwired,
        ),
        _ => (state, InstallCommand::Ignore),
    }
}

/// How far a state is along the pipeline, from 0 to 5.
pub open spec fn install_rank(state: InstallState) -> int {
    match state {
        InstallState::NotInstalled => 0,
        InstallState::Downloading => 1,
        InstallState::Validating => 2,
        InstallState::Extracting => 3,
        InstallState::Registered => 4,
        InstallState::Wired => 5,
    }
}

/// Advances the install pipeline of one module by one report.
pub fn install_step(state: InstallState, event: InstallEvent) -> (next: (
    InstallState,
    InstallCommand,
))
    ensures
        next == install_transition(state, event),
{
    match (state, event) {
        (InstallState::NotInstalled, InstallEvent::Requested) => (
            InstallState::Downloading,
            InstallCommand::Download,
        ),
        (InstallState::Downloading, InstallEvent::StepDone) => (
            InstallState::Validating,
            InstallCommand::Validate,
        ),
        (InstallState::Validating, InstallEvent::StepDone) => (
            InstallState::Extracting,
            InstallCommand::Extract,
        ),
        (InstallState::Extracting, InstallEvent::StepDone) => (
            InstallState::Registered,
            InstallCommand::RegisterAndWire,
        ),
        (InstallState::Registered, InstallEvent::StepDone) => (
            InstallState::Wired,
            InstallCommand::Finish,
        ),
        (InstallState::Downloading, InstallEvent::StepFailed) => (
            InstallState::NotInstalled,
            InstallCommand::Report,
        ),
        (InstallState::Validating, InstallEvent::StepFailed) => (
            InstallState::NotInstalled,
            InstallCommand::Report,
        ),
        (InstallState::Extracting, InstallEvent::StepFailed) => (
            InstallState::NotInstalled,
            InstallCommand::RemoveFilesAndReport,
        ),
        (InstallState::Registered, InstallEvent::StepFailed) => (
            InstallState::Registered,
            InstallCommand::ReportUnwired,
        ),
        _ => (state, InstallCommand::Ignore),
    }
}

/// Where a module is on its way to being removed.
#[derive(Debug, Clone, Copy, PartialEq, Eq, Structural)]
pub enum UninstallState {
    Wired,
    Unwiring,
    Unregistering,
    Removed,
}

/// What the caller reports to the uninstall pipeline.
#[derive(Debug, Clone, Copy, PartialEq, Eq, Structural)]
pub enum UninstallEvent {
    /// The user confirmed the removal.
    Requested,
    /// The step under way ended; `ok` says whether it did what it should.
    StepEnded { ok: bool },
}

/// What the uninstall pipeline asks the caller to do next.
#[derive(Debug, Clone, Copy, PartialEq, Eq, Structural)]
pub enum UninstallCommand {
    /// Take the module out of the bar's configuration and stylesheet.
    Unwire,
    /// Delete the module's record; `warn` says that the step before failed
    /// and the user is to be told.
    Unregister { warn: bool },
    /// Delete the module's directory; `warn` as above.
    DeleteFiles { warn: bool },
    /// The report does not fit the state: do nothing.
    Ignore,
}

/// The state after `event` and what is to be done then. A step that failed
/// is reported and the next step is taken all the same.
pub open spec fn uninstall_transition(state: UninstallState, event: UninstallEvent) -> (
    UninstallState,
    UninstallCommand,
) {
    match (state, event) {
        (UninstallState::Wired, UninstallEvent::Requested) => (
            UninstallState::Unwiring,
            UninstallCommand::Unwire,
        ),
        (UninstallState::Unwiring, UninstallEvent::StepEnded { ok }) => (
            UninstallState::Unregistering,
            UninstallCommand::Unregister { warn: !ok },
        ),
        (UninstallState::Unregistering, UninstallEvent::StepEnded { ok }) => (
            UninstallState::Removed,
            UninstallCommand::DeleteFiles { warn: !ok },
        ),
        _ => (state, UninstallCommand::Ignore),
    }
}

/// Advances the uninstall pipeline of one module by one report.
pub fn uninstall_step(state: UninstallState, event: UninstallEvent) -> (next: (
    UninstallState,
    UninstallCommand,
))
    ensures
        next == uninstall_transition(state, event),
{
    match (state, event) {
        (UninstallState::Wired, UninstallEvent::Requested) => (
            UninstallState::Unwiring,
            UninstallCommand::Unwire,
        ),
        (UninstallState::Unwiring, UninstallEvent::StepEnded { ok }) => (
            UninstallState::Unregistering,
            UninstallCommand::Unregister { warn: !ok },
        ),
        (UninstallState::Unregistering, UninstallEvent::StepEnded { ok }) => (
            UninstallState::Removed,
            UninstallCommand::DeleteFiles { warn: !ok },
        ),
        _ => (state, UninstallCommand::Ignore),
    }
}

/// A report moves a module at most one step forward; only a failure moves
/// it back, and then to the start.
pub proof fn law_install_moves_one_step(state: InstallState, event: InstallEvent)
    ensures
        ({
            let next = install_transition(state, event).0;
            ||| next == state
            ||| install_rank(next) == install_rank(state) + 1
            ||| (event == InstallEvent::StepFailed && next == InstallState::NotInstalled)
        }),
{
}

/// Files are removed exactly when extraction fails: a failure before it has
/// written nothing, and after it the module stays installed.
pub proof fn law_files_removed_only_after_extraction(state: InstallState, event: InstallEvent)
    ensures
        install_transition(state, event).1 == InstallCommand::RemoveFilesAndReport <==> state
            == InstallState::Extracting && event == InstallEvent::StepFailed,
{
}

/// Whatever a step of the removal reports, the next step is taken.
pub proof fn law_uninstall_never_stops(state: UninstallState, ok: bool)
    requires
        state == UninstallState::Unwiring || state == UninstallState::Unregistering,
    ensures
        uninstall_transition(state, UninstallEvent::StepEnded { ok }).0
            == uninstall_transition(state, UninstallEvent::StepEnded { ok: !ok }).0,
        uninstall_transition(state, UninstallEvent::StepEnded { ok }).0 != state,
{
}

/// Why a download is not unpacked.
#[derive(Debug, Clone, Copy, PartialEq, Eq, Structural)]
pub enum DownloadDefect {
    /// The registry names a checksum and the archive has another.
    ChecksumMismatch,
}

/// Whether the archive's checksum is acceptable: the registry names none, or
/// names the same.
pub open spec fn checksum_accepted(expected: Option<String>, actual: Seq<char>) -> bool {
    match expected {
        Some(named) => named@ == actual,
        None => true,
    }
}

/// Checks a downloaded archive against the checksum that the registry
/// names, if it names one.
pub fn verify_checksum(expected: &Option<String>, actual: &str) -> (checked: Result<
    (),
    DownloadDefect,
>)
    ensures
        checked is Ok <==> checksum_accepted(*expected, actual@),
{
    match expected {
        Some(named) => {
            let computed = actual.to_owned();
            if *named == computed {
                Ok(())
            } else {
                Err(DownloadDefect::ChecksumMismatch)
            }
        },
        None => Ok(()),
    }
}

/// The highest level among the scripts before `upto`.
pub open spec fn worst_of_scripts(scripts: Seq<String>, upto: int) -> RiskLevel
    decreases upto,
{
    if upto <= 0 {
        RiskLevel::Clean
    } else {
        higher(worst_of_scripts(scripts, upto - 1), worst(all_findings(scripts[upto - 1]@)))
    }
}

/// What the inspection of a module's scripts came to.
pub struct InspectionReport {
    /// One result for each script, in order.
    pub scripts: Vec<ScriptInspectionResult>,
    /// The highest level among them.
    pub risk: RiskLevel,
}

/// The higher of two levels.
fn higher_of(a: RiskLevel, b: RiskLevel) -> (level: RiskLevel)
    ensures
        level == higher(a, b),
{
    match (a, b) {
        (RiskLevel::High, _) => RiskLevel::High,
        (RiskLevel::Medium, RiskLevel::High) => RiskLevel::High,
        (RiskLevel::Medium, _) => RiskLevel::Medium,
        (RiskLevel::Low, RiskLevel::Clean) => RiskLevel::Low,
        (RiskLevel::Low, other) => other,
        (RiskLevel::Clean, other) => other,
    }
}

/// Inspects every script of a module. The report informs the user; it does
/// not stop the installation.
pub fn inspect_scripts(scripts: &Vec<String>) -> (report: InspectionReport)
    ensures
        report.scripts@.len() == scripts@.len(),
        forall|i: int|
            0 <= i < scripts@.len() ==> findings_of((#[trigger] report.scripts@[i]).findings@)
                == all_findings(scripts@[i]@) && report.scripts@[i].risk == worst(
                all_findings(scripts@[i]@),
            ),
        report.risk == worst_of_scripts(scripts@, scripts@.len() as int),
{
    let mut results: Vec<ScriptInspectionResult> = Vec::new();
    let mut risk = RiskLevel::Clean;
    let mut i: usize = 0;
    while i < scripts.len()
        invariant
            i <= scripts@.len(),
            results@.len() == i,
            forall|j: int|
                0 <= j < i ==> findings_of((#[trigger] results@[j]).findings@) == all_findings(
                    scripts@[j]@,
                ) && results@[j].risk == worst(all_findings(scripts@[j]@)),
            risk == worst_of_scripts(scripts@, i as int),
        decreases scripts@.len() - i,
    {
        let result = inspect_script_safety(scripts[i].as_str());
        risk = higher_of(risk, result.risk);
        results.push(result);
        i += 1;
    }
    InspectionReport { scripts: results, risk }
}

/// Checks a download before it is unpacked: the checksum, where the registry
/// names one, and the scripts. A wrong checksum stops the install; what the
/// inspection finds never does, it is handed on for the user to see.
pub fn validate_download(
    expected: &Option<String>,
    actual: &str,
    scripts: &Vec<String>,
) -> (checked: Result<InspectionReport, DownloadDefect>)
    ensures
        checked is Ok <==> checksum_accepted(*expected, actual@),
        checked matches Ok(report) ==> {
            &&& report.scripts@.len() == scripts@.len()
            &&& forall|i: int|
                0 <= i < scripts@.len() ==> findings_of((#[trigger] report.scripts@[i]).findings@)
                    == all_findings(scripts@[i]@) && report.scripts@[i].risk == worst(
                    all_findings(scripts@[i]@),
                )
            &&& report.risk == worst_of_scripts(scripts@, scripts@.len() as int)
        },
{
    match verify_checksum(expected, actual) {
        Ok(_) => Ok(inspect_scripts(scripts)),
        Err(defect) => Err(defect),
    }
}

/// What is to be written to wire a module into the bar.
pub struct WiringPlan {
    /// The new text of the bar's configuration.
    pub config: String,
    /// What is to be done about the bar's stylesheet.
    pub stylesheet: CssInjection,
}

/// What is to be written to wire the module `uuid` into the bar: the
/// configuration with `module_name` listed in `section`, and the stylesheet
/// with the module's style put in, if it ships one and the style is not
/// refused. A configuration that cannot be edited fails the step, and then
/// nothing is to be written.
pub fn plan_wiring(
    config: &str,
    module_name: &str,
    section: BarSection,
    uuid: &str,
    module_css: Option<String>,
    existing_css: Option<String>,
) -> (plan: Result<WiringPlan, String>)
    ensures
        match add_module_outcome(config@, module_name@, section) {
            Ok(text) => plan matches Ok(found) && found.config@ == text && match module_css {
                None => found.stylesheet is NoStyle,
                Some(css) => match injection_defect(uuid@, css@) {
                    Some(defect) => found.stylesheet matches CssInjection::Refused(d) && d
                        == defect,
                    None => found.stylesheet matches CssInjection::Write(sheet) && sheet@
                        == injected(sheet_or_empty(existing_css), uuid@, css@),
                },
            },
            Err(failure) => plan matches Err(message) && describes_failure(
                message@,
                failure,
                section.spec_array_key(),
            ),
        },
{
    let edited = match add_module(config, module_name, section) {
        Ok(edited) => edited,
        Err(message) => {
            return Err(message);
        },
    };
    let stylesheet = handle_css_injection(uuid, module_css, existing_css);
    Ok(WiringPlan { config: edited, stylesheet })
}

/// What is to be written to take a module out of the bar.
pub struct UnwiringPlan {
    /// The new text of the bar's configuration, or why there is none.
    pub config: Result<String, String>,
    /// The new text of the bar's stylesheet, where it could be read.
    pub stylesheet: Option<String>,
}

/// What is to be written to take the module `uuid` out of the bar: the
/// configuration without `module_name` in any section, and the stylesheet
/// without the module's block. The two do not depend on each other: a
/// configuration that cannot be edited does not keep the block in place.
pub fn plan_unwiring(
    config: &str,
    module_name: &str,
    uuid: &str,
    existing_css: Option<String>,
) -> (plan: UnwiringPlan)
    ensures
        match remove_module_outcome(config@, module_name@) {
            Ok(text) => plan.config matches Ok(t) && t@ == text,
            Err(failure) => plan.config matches Err(message) && describes_failure(
                message@,
                failure,
                Seq::empty(),
            ),
        },
        match existing_css {
            None => plan.stylesheet is None,
            Some(existing) => plan.stylesheet matches Some(sheet) && sheet@ == removed(
                existing@,
                uuid@,
            ),
        },
{
    UnwiringPlan {
        config: remove_module(config, module_name),
        stylesheet: handle_css_removal(uuid, existing_css),
    }
}

/// No entry among the first `upto` breaks a rule of the path guard.
pub open spec fn entries_clean(base: Seq<char>, entries: Seq<String>, upto: int) -> bool {
    forall|i: int| 0 <= i < upto ==> (#[trigger] extraction_outcome(base, entries[i]@)) is Ok
}

/// A refused entry: its position in the archive and the rule it breaks.
#[derive(Debug, Clone, Copy, PartialEq, Eq, Structural)]
pub struct RefusedEntry {
    pub index: usize,
    pub error: PathTraversalError,
}

/// Decides, before anything is written, where each entry of an archive goes
/// under `install_dir`. One entry that the path guard refuses refuses the
/// whole archive: the first such entry is reported and there are no
/// targets.
pub fn plan_extraction(install_dir: &str, entries: &Vec<String>) -> (plan: Result<
    Vec<String>,
    RefusedEntry,
>)
    ensures
        match plan {
            Ok(targets) => {
                &&& entries_clean(install_dir@, entries@, entries@.len() as int)
                &&& targets@.len() == entries@.len()
                &&& forall|i: int|
                    0 <= i < entries@.len() ==> extraction_outcome(install_dir@, entries@[i]@)
                        == Ok::<Seq<char>, PathTraversalError>((#[trigger] targets@[i])@)
            },
            Err(refused) => {
                &&& refused.index < entries@.len()
                &&& entries_clean(install_dir@, entries@, refused.index as int)
                &&& extraction_outcome(install_dir@, entries@[refused.index as int]@) == Err::<
                    Seq<char>,
                    PathTraversalError,
                >(refused.error)
            },
        },
{
    let mut targets: Vec<String> = Vec::new();
    let mut i: usize = 0;
    while i < entries.len()
        invariant
            i <= entries@.len(),
            targets@.len() == i,
            entries_clean(install_dir@, entries@, i as int),
            forall|j: int|
                0 <= j < i ==> extraction_outcome(install_dir@, entries@[j]@) == Ok::<
                    Seq<char>,
                    PathTraversalError,
                >((#[trigger] targets@[j])@),
        decreases entries@.len() - i,
    {
        match validate_extraction_path(install_dir, entries[i].as_str()) {
            Ok(target) => {
                targets.push(target);
            },
            Err(error) => {
                return Err(RefusedEntry { index: i, error });
            },
        }
        i += 1;
    }
    Ok(targets)
}

/// An archive that holds an entry which the path guard refuses has no plan:
/// none of its entries is written.
pub proof fn law_one_bad_entry_refuses_the_archive(
    install_dir: Seq<char>,
    entries: Seq<String>,
    at: int,
)
    requires
        0 <= at < entries.len(),
        extraction_outcome(install_dir, entries[at]@) is Err,
    ensures
        !entries_clean(install_dir, entries, entries.len() as int),
{
}

/// The record of a module that was just unpacked: enabled, and with the
/// install directory that its identifier gives, under the modules directory.
pub fn new_record(
    dirs: &PlatformDirs,
    uuid: ModuleUuid,
    version: ModuleVersion,
    waybar_module_name: String,
    has_preferences: bool,
) -> (record: InstalledModule)
    ensures
        record.uuid == uuid,
        record.version == version,
        record.install_path@ == joined(spec_modules_dir(*dirs), uuid.text()),
        record.enabled,
        record.waybar_module_name == waybar_module_name,
        record.has_preferences == has_preferences,
{
    let install_path = module_install_path(dirs, &uuid);
    InstalledModule::new(uuid, version, install_path, waybar_module_name, has_preferences)
}

/// Puts `record` on the list of installed modules: in place of the first
/// record of the same module, or at the end where there is none.
pub fn register_module(modules: &mut Vec<InstalledModule>, record: InstalledModule)
    ensures
        (forall|j: int| !is_module(old(modules)@, j, record.uuid.text())) ==> final(modules)@
            == old(modules)@.push(record),
        (exists|j: int| is_module(old(modules)@, j, record.uuid.text())) ==> exists|at: int|
            #[trigger] crate::ui::installed::is_first_module(old(modules)@, at, record.uuid.text())
                && final(modules)@ == old(modules)@.update(at, record),
{
    let text = record.uuid.to_string();
    match position_of(modules, text.as_str()) {
        Some(at) => {
            assert(is_module(modules@, at as int, record.uuid.text()));
            modules.remove(at);
            modules.insert(at, record);
            assert(modules@ =~= old(modules)@.update(at as int, record));
        },
        None => {
            modules.push(record);
        },
    }
}

/// The identifiers of the modules whose install or removal is under way.
pub struct InFlight {
    uuids: Vec<ModuleUuid>,
}

impl InFlight {
    /// The identifier texts of the modules under way.
    pub closed spec fn texts(&self) -> Seq<Seq<char>> {
        Seq::new(self.uuids@.len(), |i: int| self.uuids@[i].text())
    }

    /// No module is under way twice.
    pub open spec fn wf(&self) -> bool {
        self.texts().no_duplicates()
    }

    /// Whether the module with the identifier text `uuid` is under way.
    pub open spec fn holds(&self, uuid: Seq<char>) -> bool {
        self.texts().contains(uuid)
    }

    /// Nothing is under way.
    pub fn new() -> (none: InFlight)
        ensures
            none.wf(),
            none.texts().len() == 0,
    {
        InFlight { uuids: Vec::new() }
    }

    /// Position of `uuid` among the modules under way.
    fn position(&self, uuid: &ModuleUuid) -> (found: Option<usize>)
        ensures
            found is Some <==> self.holds(uuid.text()),
            found matches Some(at) ==> at < self.uuids@.len() && self.texts()[at as int]
                == uuid.text(),
    {
        let wanted = uuid.to_string();
        let mut i: usize = 0;
        while i < self.uuids.len()
            invariant
                i <= self.uuids@.len(),
                wanted@ == uuid.text(),
                forall|j: int| 0 <= j < i ==> self.texts()[j] != uuid.text(),
            decreases self.uuids@.len() - i,
        {
            let text = self.uuids[i].to_string();
            if text == wanted {
                assert(self.texts()[i as int] == uuid.text());
                return Some(i);
            }
            i += 1;
        }
        None
    }

    /// Whether an install or removal of `uuid` is under way.
    pub fn contains(&self, uuid: &ModuleUuid) -> (under_way: bool)
        ensures
            under_way == self.holds(uuid.text()),
    {
        self.position(uuid).is_some()
    }

    /// How many modules are under way.
    pub fn len(&self) -> (count: usize)
        ensures
            count == self.texts().len(),
    {
        self.uuids.len()
    }

    /// Claims `uuid` for an install or a removal. A module that is under way
    /// already is not claimed again: the request is refused and nothing
    /// changes.
    pub fn try_begin(&mut self, uuid: ModuleUuid) -> (claimed: bool)
        requires
            old(self).wf(),
        ensures
            final(self).wf(),
            claimed == !old(self).holds(uuid.text()),
            claimed ==> final(self).texts() == old(self).texts().push(uuid.text()),
            !claimed ==> final(self).texts() == old(self).texts(),
            final(self).holds(uuid.text()),
    {
        if self.contains(&uuid) {
            return false;
        }
        let ghost before = self.texts();
        self.uuids.push(uuid);
        proof {
            assert(self.texts() =~= before.push(uuid.text()));
            assert(self.texts()[before.len() as int] == uuid.text());
        }
        true
    }

    /// Releases `uuid` when its install or removal has ended.
    pub fn finish(&mut self, uuid: &ModuleUuid)
        requires
            old(self).wf(),
        ensures
            final(self).wf(),
            !final(self).holds(uuid.text()),
            forall|other: Seq<char>|
                other != uuid.text() ==> final(self).holds(other) == old(self).holds(other),
            old(self).holds(uuid.text()) ==> final(self).texts().len() + 1
                == old(self).texts().len(),
            !old(self).holds(uuid.text()) ==> final(self).texts() == old(self).texts(),
    {
        let at = match self.position(uuid) {
            Some(at) => at,
            None => {
                return ;
            },
        };
        let ghost before = self.texts();
        self.uuids.remove(at);
        proof {
            let after = self.texts();
            assert(after =~= before.remove(at as int));
            assert forall|i: int, j: int| 0 <= i < j < after.len() implies after[i] != after[j] by {
                let a = if i < at {
                    i
                } else {
                    i + 1
                };
                let b = if j < at {
                    j
                } else {
                    j + 1
                };
                assert(after[i] == before[a]);
                assert(after[j] == before[b]);
            }
            assert forall|i: int| 0 <= i < after.len() implies after[i] != uuid.text() by {
                let a = if i < at {
                    i
                } else {
                    i + 1
                };
                assert(after[i] == before[a]);
                assert(before[at as int] == uuid.text());
            }
            assert forall|other: Seq<char>| other != uuid.text() implies after.contains(other)
                == before.contains(other) by {
                if before.contains(other) {
                    let k = choose|k: int| 0 <= k < before.len() && before[k] == other;
                    let moved = if k < at {
                        k
                    } else {
                        k - 1
                    };
                    assert(after[moved] == other);
                }
                if after.contains(other) {
                    let k = choose|k: int| 0 <= k < after.len() && after[k] == other;
                    let from = if k < at {
                        k
                    } else {
                        k + 1
                    };
                    assert(before[from] == other);
                }
            }
        }
    }
}

} // verus!
