//! The inspector of a module's scripts.
//!
//! A script is searched for a fixed catalog of risky texts. What is found is
//! reported with its place and summed up in a risk level; nothing is
//! blocked here, the user decides.

use crate::text::{chars_of, matches_at, occurs_at};
use vstd::prelude::*;

verus! {

/// What a risky text does.
#[derive(Debug, Clone, Copy, PartialEq, Eq, Hash, Structural)]
pub enum RiskyPattern {
    /// It starts another process.
    ProcessSpawn,
    /// It talks to the network.
    NetworkCall,
    /// It writes to, or removes from, the file system.
    FilesystemWrite,
    /// It lets the shell expand text inside a string.
    ShellInterpolation,
}

/// How risky a script is, summed up.
#[derive(Debug, Clone, Copy, PartialEq, Eq, Hash, Structural)]
pub enum RiskLevel {
    Clean,
    Low,
    Medium,
    High,
}

/// One risky text that was found: what it does, and the position of its
/// first character in the script, counted in characters from 0.
#[derive(Debug, Clone, Copy, PartialEq, Eq, Structural)]
pub struct Finding {
    pub pattern: RiskyPattern,
    pub offset: usize,
}

/// What the inspector found in a script.
#[derive(Debug, Clone)]
pub struct ScriptInspectionResult {
    pub findings: Vec<Finding>,
    pub risk: RiskLevel,
}

/// One entry of the catalog: a text and what it does.
pub struct CatalogEntry {
    pub needle: Vec<char>,
    pub pattern: RiskyPattern,
}

/// The catalog of risky texts, in the order in which they are looked for.
pub open spec fn catalog() -> Seq<(Seq<char>, RiskyPattern)> {
    seq![
        ("eval "@, RiskyPattern::ProcessSpawn),
        ("exec "@, RiskyPattern::ProcessSpawn),
        ("sudo "@, RiskyPattern::ProcessSpawn),
        ("| sh"@, RiskyPattern::ProcessSpawn),
        ("| bash"@, RiskyPattern::ProcessSpawn),
        ("nohup "@, RiskyPattern::ProcessSpawn),
        ("curl "@, RiskyPattern::NetworkCall),
        ("wget "@, RiskyPattern::NetworkCall),
        ("nc "@, RiskyPattern::NetworkCall),
        ("/dev/tcp/"@, RiskyPattern::NetworkCall),
        ("rm -rf"@, RiskyPattern::FilesystemWrite),
        ("> /"@, RiskyPattern::FilesystemWrite),
        ("> ~"@, RiskyPattern::FilesystemWrite),
        ("chmod "@, RiskyPattern::FilesystemWrite),
        ("$("@, RiskyPattern::ShellInterpolation),
        ("`"@, RiskyPattern::ShellInterpolation),
    ]
}

/// The entries of an executable catalog as pairs.
pub open spec fn entries_of(entries: Seq<CatalogEntry>) -> Seq<(Seq<char>, RiskyPattern)> {
    Seq::new(entries.len(), |i: int| (entries[i].needle@, entries[i].pattern))
}

/// The findings of a list as pairs of pattern and position.
pub open spec fn findings_of(findings: Seq<Finding>) -> Seq<(RiskyPattern, int)> {
    Seq::new(findings.len(), |i: int| (findings[i].pattern, findings[i].offset as int))
}

/// How much one kind of risky text weighs.
pub open spec fn level_of(pattern: RiskyPattern) -> RiskLevel {
    match pattern {
        RiskyPattern::ProcessSpawn => RiskLevel::High,
        RiskyPattern::NetworkCall => RiskLevel::Medium,
        RiskyPattern::FilesystemWrite => RiskLevel::High,
        RiskyPattern::ShellInterpolation => RiskLevel::Low,
    }
}

/// The rank of a level, from 0 for clean to 3 for high.
pub open spec fn rank(level: RiskLevel) -> int {
    match level {
        RiskLevel::Clean => 0,
        RiskLevel::Low => 1,
        RiskLevel::Medium => 2,
        RiskLevel::High => 3,
    }
}

/// The higher of two levels.
pub open spec fn higher(a: RiskLevel, b: RiskLevel) -> RiskLevel {
    if rank(a) >= rank(b) {
        a
    } else {
        b
    }
}

/// The highest level among the findings; clean where there are none.
pub open spec fn worst(findings: Seq<(RiskyPattern, int)>) -> RiskLevel
    decreases findings.len(),
{
    if findings.len() == 0 {
        RiskLevel::Clean
    } else {
        higher(worst(findings.drop_last()), level_of(findings.last().0))
    }
}

/// The findings at the position `at`: one for each of the first `upto`
/// catalog entries whose text starts there, in catalog order.
pub open spec fn findings_at(script: Seq<char>, at: int, upto: int) -> Seq<(RiskyPattern, int)>
    decreases upto,
{
    if upto <= 0 {
        Seq::empty()
    } else {
        let before = findings_at(script, at, upto - 1);
        if occurs_at(script, catalog()[upto - 1].0, at) {
            before.push((catalog()[upto - 1].1, at))
        } else {
            before
        }
    }
}

/// The findings at all positions before `upto`, by position.
pub open spec fn findings_before(script: Seq<char>, upto: int) -> Seq<(RiskyPattern, int)>
    decreases upto,
{
    if upto <= 0 {
        Seq::empty()
    } else {
        findings_before(script, upto - 1) + findings_at(
            script,
            upto - 1,
            catalog().len() as int,
        )
    }
}

/// Everything the catalog finds in `script`: by position, and at one
/// position in catalog order.
pub open spec fn all_findings(script: Seq<char>) -> Seq<(RiskyPattern, int)> {
    findings_before(script, script.len() as int)
}

/// One catalog entry.
fn entry(needle: &str, pattern: RiskyPattern) -> (made: CatalogEntry)
    ensures
        made.needle@ == needle@,
        made.pattern == pattern,
{
    CatalogEntry { needle: chars_of(needle), pattern }
}

/// The catalog, ready to be searched for.
pub fn catalog_entries() -> (entries: Vec<CatalogEntry>)
    ensures
        entries_of(entries@) == catalog(),
{
    let mut entries: Vec<CatalogEntry> = Vec::new();
    entries.push(entry("eval ", RiskyPattern::ProcessSpawn));
    entries.push(entry("exec ", RiskyPattern::ProcessSpawn));
    entries.push(entry("sudo ", RiskyPattern::ProcessSpawn));
    entries.push(entry("| sh", RiskyPattern::ProcessSpawn));
    entries.push(entry("| bash", RiskyPattern::ProcessSpawn));
    entries.push(entry("nohup ", RiskyPattern::ProcessSpawn));
    entries.push(entry("curl ", RiskyPattern::NetworkCall));
    entries.push(entry("wget ", RiskyPattern::NetworkCall));
    entries.push(entry("nc ", RiskyPattern::NetworkCall));
    entries.push(entry("/dev/tcp/", RiskyPattern::NetworkCall));
    entries.push(entry("rm -rf", RiskyPattern::FilesystemWrite));
    entries.push(entry("> /", RiskyPattern::FilesystemWrite));
    entries.push(entry("> ~", RiskyPattern::FilesystemWrite));
    entries.push(entry("chmod ", RiskyPattern::FilesystemWrite));
    entries.push(entry("$(", RiskyPattern::ShellInterpolation));
    entries.push(entry("`", RiskyPattern::ShellInterpolation));
    assert(entries_of(entries@) =~= catalog());
    entries
}

/// The higher of two levels.
fn higher_level(a: RiskLevel, b: RiskLevel) -> (level: RiskLevel)
    ensures
        level == higher(a, b),
{
    match (a, b) {
        (RiskLevel::High, _) => RiskLevel::High,
        (RiskLevel::Medium, RiskLevel::High) => RiskLevel::High,
        (RiskLevel::Medium, _) => RiskLevel::Medium,
        (RiskLevel::Low, RiskLevel::Clean) => RiskLevel::Low,
        (RiskLevel::Low, other) => other,
        (RiskLevel::Clean, other) => other,
    }
}

/// How much one kind of risky text weighs.
pub fn pattern_level(pattern: RiskyPattern) -> (level: RiskLevel)
    ensures
        level == level_of(pattern),
{
    match pattern {
        RiskyPattern::ProcessSpawn => RiskLevel::High,
        RiskyPattern::NetworkCall => RiskLevel::Medium,
        RiskyPattern::FilesystemWrite => RiskLevel::High,
        RiskyPattern::ShellInterpolation => RiskLevel::Low,
    }
}

/// The worst level of a list that ends with `last` is the higher of the
/// worst before it and the level of `last`.
proof fn lemma_worst_push(findings: Seq<(RiskyPattern, int)>, last: (RiskyPattern, int))
    ensures
        worst(findings.push(last)) == higher(worst(findings), level_of(last.0)),
{
    assert(findings.push(last).drop_last() =~= findings);
}

/// The worst level of two lists, one after the other, is the higher of
/// their worst levels.
proof fn lemma_worst_add(a: Seq<(RiskyPattern, int)>, b: Seq<(RiskyPattern, int)>)
    ensures
        worst(a + b) == higher(worst(a), worst(b)),
    decreases b.len(),
{
    if b.len() == 0 {
        assert(a + b =~= a);
    } else {
        lemma_worst_add(a, b.drop_last());
        assert((a + b).drop_last() =~= a + b.drop_last());
        assert((a + b).last() == b.last());
    }
}

/// Searches `script` for the texts of the catalog and reports every place
/// where one starts, with the highest level among what was found.
pub fn inspect_script_safety(script: &str) -> (result: ScriptInspectionResult)
    ensures
        findings_of(result.findings@) == all_findings(script@),
        result.risk == worst(all_findings(script@)),
{
    let text = chars_of(script);
    let entries = catalog_entries();
    let mut findings: Vec<Finding> = Vec::new();
    let mut risk = RiskLevel::Clean;
    let len = text.len();
    let count = entries.len();
    let mut at: usize = 0;
    proof {
        assert(findings_of(findings@) =~= findings_before(script@, 0));
    }
    while at < len
        invariant
            at <= len,
            len == text@.len(),
            text@ == script@,
            count == entries@.len(),
            entries_of(entries@) == catalog(),
            findings_of(findings@) == findings_before(script@, at as int),
            risk == worst(findings_before(script@, at as int)),
        decreases len - at,
    {
        let ghost before = findings_of(findings@);
        let mut k: usize = 0;
        proof {
            assert(before + findings_at(script@, at as int, 0) =~= before);
        }
        while k < count
            invariant
                k <= count,
                at < len,
                len == text@.len(),
                text@ == script@,
                count == entries@.len(),
                entries_of(entries@) == catalog(),
                findings_of(findings@) == before + findings_at(script@, at as int, k as int),
                risk == worst(before + findings_at(script@, at as int, k as int)),
            decreases count - k,
        {
            let ghost here = findings_at(script@, at as int, k as int);
            let ghost listed = findings_of(findings@);
            proof {
                assert(entries_of(entries@)[k as int] == catalog()[k as int]);
            }
            if matches_at(text.as_slice(), entries[k].needle.as_slice(), at) {
                let pattern = entries[k].pattern;
                findings.push(Finding { pattern, offset: at });
                risk = higher_level(risk, pattern_level(pattern));
                proof {
                    let found = (pattern, at as int);
                    assert(findings_of(findings@) =~= listed.push(found));
                    assert(before + here.push(found) =~= (before + here).push(found));
                    lemma_worst_push(before + here, found);
                }
            }
            k += 1;
        }
        at += 1;
    }
    ScriptInspectionResult { findings, risk }
}

/// Every place where a catalog text starts is among the findings at that
/// position.
proof fn lemma_findings_at_complete(script: Seq<char>, at: int, upto: int, k: int)
    requires
        0 <= k < upto <= catalog().len(),
        occurs_at(script, catalog()[k].0, at),
    ensures
        findings_at(script, at, upto).contains((catalog()[k].1, at)),
    decreases upto,
{
    let all = findings_at(script, at, upto);
    if k == upto - 1 {
        assert(all.last() == (catalog()[k].1, at));
    } else {
        lemma_findings_at_complete(script, at, upto - 1, k);
        let before = findings_at(script, at, upto - 1);
        let i = choose|i: int| 0 <= i < before.len() && before[i] == (catalog()[k].1, at);
        assert(all[i] == (catalog()[k].1, at));
    }
}

/// Every finding at a position is a catalog text that starts there.
proof fn lemma_findings_at_sound(script: Seq<char>, at: int, upto: int, i: int)
    requires
        0 <= upto <= catalog().len(),
        0 <= i < findings_at(script, at, upto).len(),
    ensures
        findings_at(script, at, upto)[i].1 == at,
        exists|k: int|
            0 <= k < upto && #[trigger] occurs_at(script, catalog()[k].0, at) && catalog()[k].1
                == findings_at(script, at, upto)[i].0,
    decreases upto,
{
    let all = findings_at(script, at, upto);
    let before = findings_at(script, at, upto - 1);
    if i < before.len() {
        lemma_findings_at_sound(script, at, upto - 1, i);
        let k = choose|k: int|
            0 <= k < upto - 1 && #[trigger] occurs_at(script, catalog()[k].0, at) && catalog()[k].1
                == before[i].0;
        assert(occurs_at(script, catalog()[k].0, at));
    } else {
        assert(occurs_at(script, catalog()[upto - 1].0, at));
    }
}

/// Nothing is missed: wherever a text of the catalog starts in the script,
/// the findings hold its kind at that position.
pub proof fn law_every_occurrence_is_found(script: Seq<char>, at: int, k: int)
    requires
        0 <= k < catalog().len(),
        occurs_at(script, catalog()[k].0, at),
    ensures
        all_findings(script).contains((catalog()[k].1, at)),
{
    assert(catalog()[k].0.len() > 0) by {
        lemma_catalog_texts_not_empty(k);
    }
    assert(at < script.len());
    lemma_found_before(script, script.len() as int, at, k);
}

/// No text of the catalog is empty.
proof fn lemma_catalog_texts_not_empty(k: int)
    requires
        0 <= k < catalog().len(),
    ensures
        catalog()[k].0.len() > 0,
{
    reveal_strlit("eval ");
    reveal_strlit("exec ");
    reveal_strlit("sudo ");
    reveal_strlit("| sh");
    reveal_strlit("| bash");
    reveal_strlit("nohup ");
    reveal_strlit("curl ");
    reveal_strlit("wget ");
    reveal_strlit("nc ");
    reveal_strlit("/dev/tcp/");
    reveal_strlit("rm -rf");
    reveal_strlit("> /");
    reveal_strlit("> ~");
    reveal_strlit("chmod ");
    reveal_strlit("$(");
    reveal_strlit("`");
}

/// An occurrence at a position before `upto` is among the findings before
/// `upto`.
proof fn lemma_found_before(script: Seq<char>, upto: int, at: int, k: int)
    requires
        0 <= at < upto,
        0 <= k < catalog().len(),
        occurs_at(script, catalog()[k].0, at),
    ensures
        findings_before(script, upto).contains((catalog()[k].1, at)),
    decreases upto,
{
    let earlier = findings_before(script, upto - 1);
    let here = findings_at(script, upto - 1, catalog().len() as int);
    let wanted = (catalog()[k].1, at);
    if at == upto - 1 {
        lemma_findings_at_complete(script, at, catalog().len() as int, k);
        let i = choose|i: int| 0 <= i < here.len() && here[i] == wanted;
        assert((earlier + here)[earlier.len() + i] == wanted);
    } else {
        lemma_found_before(script, upto - 1, at, k);
        let i = choose|i: int| 0 <= i < earlier.len() && earlier[i] == wanted;
        assert((earlier + here)[i] == wanted);
    }
}

/// Nothing is made up: every finding is a text of the catalog, of the
/// reported kind, that starts at the reported position.
pub proof fn law_every_finding_is_an_occurrence(script: Seq<char>, i: int)
    requires
        0 <= i < all_findings(script).len(),
    ensures
        exists|k: int|
            0 <= k < catalog().len() && #[trigger] occurs_at(
                script,
                catalog()[k].0,
                all_findings(script)[i].1,
            ) && catalog()[k].1 == all_findings(script)[i].0,
{
    lemma_finding_before_is_occurrence(script, script.len() as int, i);
}

/// Every finding before `upto` is an occurrence.
proof fn lemma_finding_before_is_occurrence(script: Seq<char>, upto: int, i: int)
    requires
        0 <= i < findings_before(script, upto).len(),
    ensures
        exists|k: int|
            0 <= k < catalog().len() && #[trigger] occurs_at(
                script,
                catalog()[k].0,
                findings_before(script, upto)[i].1,
            ) && catalog()[k].1 == findings_before(script, upto)[i].0,
    decreases upto,
{
    if upto > 0 {
        let earlier = findings_before(script, upto - 1);
        let here = findings_at(script, upto - 1, catalog().len() as int);
        if i < earlier.len() {
            lemma_finding_before_is_occurrence(script, upto - 1, i);
            let k = choose|k: int|
                0 <= k < catalog().len() && #[trigger] occurs_at(
                    script,
                    catalog()[k].0,
                    earlier[i].1,
                ) && catalog()[k].1 == earlier[i].0;
            assert(occurs_at(script, catalog()[k].0, findings_before(script, upto)[i].1));
        } else {
            let j = i - earlier.len();
            lemma_findings_at_sound(script, upto - 1, catalog().len() as int, j);
            let k = choose|k: int|
                0 <= k < catalog().len() && #[trigger] occurs_at(
                    script,
                    catalog()[k].0,
                    upto - 1,
                ) && catalog()[k].1 == here[j].0;
            assert(occurs_at(script, catalog()[k].0, findings_before(script, upto)[i].1));
        }
    }
}

/// The level is clean exactly where nothing was found.
pub proof fn law_no_findings_no_risk(findings: Seq<(RiskyPattern, int)>)
    ensures
        worst(findings) == RiskLevel::Clean <==> findings.len() == 0,
    decreases findings.len(),
{
    if findings.len() > 0 {
        law_no_findings_no_risk(findings.drop_last());
    }
}

/// The level is no lower than that of any finding.
pub proof fn law_risk_covers_every_finding(findings: Seq<(RiskyPattern, int)>, i: int)
    requires
        0 <= i < findings.len(),
    ensures
        rank(worst(findings)) >= rank(level_of(findings[i].0)),
    decreases findings.len(),
{
    if i < findings.len() - 1 {
        law_risk_covers_every_finding(findings.drop_last(), i);
    }
}

} // verus!
