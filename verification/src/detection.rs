//! The detection pipeline: classifies an incoming message into game phases
//! and action prompts.
//!
//! Phase classification is first-match-wins over the phase patterns, sorted
//! by phase priority then pattern priority, both descending. Action
//! classification collects every match over the action patterns, sorted by
//! pattern priority descending. The combined output is ordered by a total
//! priority key, descending, with ties resolved by insertion order: because
//! the action results already come out in descending priority order, that
//! equals placing the single phase result before the first action result of
//! strictly lower priority.
//!
//! Regex matching recompiles per call behind its trusted wrapper: a shared
//! cache of compiled handles would need a verified link between a handle
//! and the pattern text it was compiled from, which nothing can state of
//! an opaque outside value.

use vstd::prelude::*;
use vstd::string::StringExecFns;
use crate::config::Action;
use crate::config::ActionPattern;
use crate::config::PhasePattern;
use crate::constants::MAX_PRIORITY;
use crate::constants::MIN_PRIORITY;
use crate::sorting::lemma_insert_by_at;
use crate::sorting::lemma_sort_by_sorted;
use crate::sorting::spec_insert_by;
use crate::sorting::spec_sort_by;
use crate::sorting::spec_sorted_by;
use crate::text::contains_substring;
use crate::text::regex_find;
use crate::text::regex_is_match;
use crate::text::regex_valid;
use crate::text::spec_contains;

verus! {

/// A normalized message, as the worker hands it to the pipeline.
#[derive(Clone, Debug)]
pub struct MessageEvent {
    pub text: String,
    pub chat_id: i64,
    pub is_private: bool,
    pub sender_id: i64,
    pub buttons: Vec<InlineButton>,
}

/// One inline keyboard button of a message.
#[derive(Clone, Debug)]
pub struct InlineButton {
    pub text: String,
    pub callback_data: Option<String>,
    pub url: Option<String>,
}

/// One classification produced for a message.
#[derive(Clone, Debug, PartialEq)]
pub enum DetectionResult {
    Phase { phase_name: String, pattern_id: i64, priority: i32 },
    Action { action_id: i64, action_name: String, pattern_id: i64, priority: i32, step: i32 },
}

/// A phase pattern compiled for matching, joined with its phase.
pub struct CompiledPattern {
    pub id: i64,
    pub phase_name: String,
    pub pattern: String,
    pub is_regex: bool,
    pub priority: i32,
    pub phase_priority: i32,
}

/// An action pattern compiled for matching, joined with its action.
pub struct CompiledActionPattern {
    pub id: i64,
    pub action_id: i64,
    pub action_name: String,
    pub pattern: String,
    pub is_regex: bool,
    pub priority: i32,
    pub step: i32,
}

/// A pattern matches a text: a plain pattern when it occurs as a substring,
/// a regex pattern when it compiles and finds a match anywhere. An invalid
/// regex never matches.
pub open spec fn spec_pattern_matches(text: Seq<char>, pattern: Seq<char>, is_regex: bool) -> bool {
    if is_regex {
        regex_valid(pattern) && regex_is_match(pattern, text)
    } else {
        spec_contains(text, pattern)
    }
}

/// Ordering of phase patterns: by phase priority, then pattern priority,
/// both descending.
pub open spec fn spec_phase_ge() -> spec_fn(CompiledPattern, CompiledPattern) -> bool {
    |a: CompiledPattern, b: CompiledPattern|
        a.phase_priority > b.phase_priority || (a.phase_priority == b.phase_priority && a.priority
            >= b.priority)
}

/// Ordering of action patterns: by pattern priority, descending.
pub open spec fn spec_action_ge() -> spec_fn(CompiledActionPattern, CompiledActionPattern) -> bool {
    |a: CompiledActionPattern, b: CompiledActionPattern| a.priority >= b.priority
}

/// The enabled phase rows, compiled in their given order.
pub open spec fn spec_compile_phases(rows: Seq<(PhasePattern, String, i32)>) -> Seq<CompiledPattern>
    decreases rows.len(),
{
    if rows.len() == 0 {
        Seq::empty()
    } else {
        let rest = spec_compile_phases(rows.drop_last());
        let row = rows.last();
        if row.0.enabled {
            rest.push(
                CompiledPattern {
                    id: row.0.id,
                    phase_name: row.1,
                    pattern: row.0.pattern,
                    is_regex: row.0.is_regex,
                    priority: row.0.priority,
                    phase_priority: row.2,
                },
            )
        } else {
            rest
        }
    }
}

/// The action with the given id, if the catalog holds one.
pub open spec fn spec_find_action(actions: Seq<Action>, action_id: i64) -> Option<Action>
    decreases actions.len(),
{
    if actions.len() == 0 {
        None
    } else if actions[0].id == action_id {
        Some(actions[0])
    } else {
        spec_find_action(actions.skip(1), action_id)
    }
}

/// The enabled action rows whose action exists in the catalog, compiled in
/// their given order.
pub open spec fn spec_compile_actions(actions: Seq<Action>, rows: Seq<ActionPattern>) -> Seq<
    CompiledActionPattern,
>
    decreases rows.len(),
{
    if rows.len() == 0 {
        Seq::empty()
    } else {
        let rest = spec_compile_actions(actions, rows.drop_last());
        let row = rows.last();
        if row.enabled {
            match spec_find_action(actions, row.action_id) {
                Some(action) => rest.push(
                    CompiledActionPattern {
                        id: row.id,
                        action_id: row.action_id,
                        action_name: action.name,
                        pattern: row.pattern,
                        is_regex: row.is_regex,
                        priority: row.priority,
                        step: row.step,
                    },
                ),
                None => rest,
            }
        } else {
            rest
        }
    }
}

/// The first phase pattern in order that matches the text.
pub open spec fn spec_first_phase(ps: Seq<CompiledPattern>, text: Seq<char>) -> Option<
    CompiledPattern,
>
    decreases ps.len(),
{
    if ps.len() == 0 {
        None
    } else if spec_pattern_matches(text, ps[0].pattern@, ps[0].is_regex) {
        Some(ps[0])
    } else {
        spec_first_phase(ps.skip(1), text)
    }
}

/// The detection result a phase pattern produces: its priority key combines
/// the phase priority and the pattern priority.
pub open spec fn spec_phase_result(p: CompiledPattern) -> DetectionResult {
    DetectionResult::Phase {
        phase_name: p.phase_name,
        pattern_id: p.id,
        priority: (p.phase_priority * 1000 + p.priority) as i32,
    }
}

/// The detection result an action pattern produces.
pub open spec fn spec_action_result(p: CompiledActionPattern) -> DetectionResult {
    DetectionResult::Action {
        action_id: p.action_id,
        action_name: p.action_name,
        pattern_id: p.id,
        priority: p.priority,
        step: p.step,
    }
}

/// The results of every matching action pattern, in pattern order.
pub open spec fn spec_action_results(ps: Seq<CompiledActionPattern>, text: Seq<char>) -> Seq<
    DetectionResult,
>
    decreases ps.len(),
{
    if ps.len() == 0 {
        Seq::empty()
    } else {
        let rest = spec_action_results(ps.drop_last(), text);
        let p = ps.last();
        if spec_pattern_matches(text, p.pattern@, p.is_regex) {
            rest.push(spec_action_result(p))
        } else {
            rest
        }
    }
}

/// The priority key of a detection result.
pub open spec fn spec_result_priority(r: DetectionResult) -> int {
    match r {
        DetectionResult::Phase { priority, .. } => priority as int,
        DetectionResult::Action { priority, .. } => priority as int,
    }
}

/// Strict ordering of detection results: by priority, descending. The
/// phase result is merged in under the strict relation so that it lands
/// before action results of equal priority, as insertion order demands.
pub open spec fn spec_result_gt() -> spec_fn(DetectionResult, DetectionResult) -> bool {
    |a: DetectionResult, b: DetectionResult| spec_result_priority(a) > spec_result_priority(b)
}

/// Everything the pipeline returns for a message: the action matches in
/// order, with the winning phase result, if any, inserted by its priority,
/// before any action of strictly lower priority.
pub open spec fn spec_process(
    phases: Seq<CompiledPattern>,
    actions: Seq<CompiledActionPattern>,
    text: Seq<char>,
) -> Seq<DetectionResult> {
    let acts = spec_action_results(actions, text);
    match spec_first_phase(phases, text) {
        None => acts,
        Some(p) => spec_insert_by(spec_result_gt(), spec_phase_result(p), acts),
    }
}

/// The action patterns whose regexes fail to compile, in scan order; the
/// action scan visits every pattern.
pub open spec fn spec_action_issue_patterns(ps: Seq<CompiledActionPattern>) -> Seq<String>
    decreases ps.len(),
{
    if ps.len() == 0 {
        Seq::empty()
    } else {
        let rest = spec_action_issue_patterns(ps.drop_last());
        if ps.last().is_regex && !regex_valid(ps.last().pattern@) {
            rest.push(ps.last().pattern)
        } else {
            rest
        }
    }
}

/// The phase patterns whose regexes fail to compile among those the
/// first-match scan visits: everything before the winning pattern, or all
/// of them when none matches.
pub open spec fn spec_phase_issue_patterns(ps: Seq<CompiledPattern>, text: Seq<char>) -> Seq<
    String,
>
    decreases ps.len(),
{
    if ps.len() == 0 {
        Seq::empty()
    } else if spec_pattern_matches(text, ps[0].pattern@, ps[0].is_regex) {
        Seq::empty()
    } else {
        let rest = spec_phase_issue_patterns(ps.skip(1), text);
        if ps[0].is_regex && !regex_valid(ps[0].pattern@) {
            seq![ps[0].pattern].add(rest)
        } else {
            rest
        }
    }
}

/// A report of a pattern whose regex did not compile while matching.
#[derive(Clone, Debug)]
pub struct RegexIssue {
    pub scope: String,
    pub pattern: String,
    pub error: String,
}

/// All pattern priorities of a phase list lie in the validated range.
pub open spec fn spec_phases_bounded(ps: Seq<CompiledPattern>) -> bool {
    forall|i: int|
        0 <= i < ps.len() ==> {
            &&& MIN_PRIORITY <= (#[trigger] ps[i]).priority <= MAX_PRIORITY
            &&& MIN_PRIORITY <= ps[i].phase_priority <= MAX_PRIORITY
        }
}

/// The detection pipeline: compiled, sorted pattern lists.
pub struct DetectionPipeline {
    pub phase_patterns: Vec<CompiledPattern>,
    pub action_patterns: Vec<CompiledActionPattern>,
}

impl DetectionPipeline {
    /// Both lists are sorted and the phase priorities are in range, so the
    /// combined output order of `process` is well defined.
    pub open spec fn wf(self) -> bool {
        &&& spec_sorted_by(spec_phase_ge(), self.phase_patterns@)
        &&& spec_sorted_by(spec_action_ge(), self.action_patterns@)
        &&& spec_phases_bounded(self.phase_patterns@)
    }

    /// Create an empty pipeline.
    pub fn new() -> (r: DetectionPipeline)
        ensures
            r.phase_patterns@ == Seq::<CompiledPattern>::empty(),
            r.action_patterns@ == Seq::<CompiledActionPattern>::empty(),
            r.wf(),
    {
        DetectionPipeline { phase_patterns: Vec::new(), action_patterns: Vec::new() }
    }

    /// Load phase patterns: keep the enabled rows and sort them by phase
    /// priority then pattern priority, both descending, stably.
    #[verifier::loop_isolation(false)]
    pub fn load_phase_patterns(&mut self, patterns: Vec<(PhasePattern, String, i32)>)
        requires
            forall|i: int|
                0 <= i < patterns@.len() ==> {
                    &&& MIN_PRIORITY <= (#[trigger] patterns@[i]).0.priority <= MAX_PRIORITY
                    &&& MIN_PRIORITY <= patterns@[i].2 <= MAX_PRIORITY
                },
        ensures
            final(self).phase_patterns@ == spec_sort_by(
                spec_phase_ge(),
                spec_compile_phases(patterns@),
            ),
            final(self).action_patterns == old(self).action_patterns,
            old(self).wf() ==> final(self).wf(),
    {
        let ghost all_rows = patterns@;
        let mut patterns = patterns;
        let mut compiled: Vec<CompiledPattern> = Vec::new();
        proof {
            assert(all_rows.take(0) =~= Seq::<(PhasePattern, String, i32)>::empty());
        }
        let ghost mut seen: int = 0;
        while patterns.len() > 0
            invariant
                0 <= seen <= all_rows.len(),
                patterns@ =~= all_rows.skip(seen),
                compiled@ == spec_compile_phases(all_rows.take(seen)),
            decreases patterns.len(),
        {
            let row = patterns.remove(0);
            proof {
                assert(row == all_rows[seen]);
                assert(all_rows.take(seen + 1).drop_last() =~= all_rows.take(seen));
                assert(all_rows.take(seen + 1).last() == all_rows[seen]);
            }
            if row.0.enabled {
                compiled.push(
                    CompiledPattern {
                        id: row.0.id,
                        phase_name: row.1,
                        pattern: row.0.pattern,
                        is_regex: row.0.is_regex,
                        priority: row.0.priority,
                        phase_priority: row.2,
                    },
                );
            }
            proof {
                seen = seen + 1;
                assert(patterns@ =~= all_rows.skip(seen));
            }
        }
        proof {
            assert(all_rows.take(all_rows.len() as int) =~= all_rows);
        }
        let ghost compiled_all = compiled@;
        let mut sorted: Vec<CompiledPattern> = Vec::new();
        proof {
            assert(compiled_all.take(0) =~= Seq::<CompiledPattern>::empty());
        }
        let ghost mut placed: int = 0;
        while compiled.len() > 0
            invariant
                0 <= placed <= compiled_all.len(),
                compiled@ =~= compiled_all.skip(placed),
                sorted@ == spec_sort_by(spec_phase_ge(), compiled_all.take(placed)),
            decreases compiled.len(),
        {
            let x = compiled.remove(0);
            proof {
                assert(x == compiled_all[placed]);
                assert(compiled_all.take(placed + 1).drop_last() =~= compiled_all.take(placed));
                assert(compiled_all.take(placed + 1).last() == compiled_all[placed]);
            }
            insert_phase_sorted(&mut sorted, x);
            proof {
                placed = placed + 1;
                assert(compiled@ =~= compiled_all.skip(placed));
            }
        }
        proof {
            assert(compiled_all.take(compiled_all.len() as int) =~= compiled_all);
            lemma_sort_by_sorted(spec_phase_ge(), compiled_all);
            lemma_compile_phases_bounded(all_rows);
            lemma_sort_by_bounded(compiled_all);
        }
        self.phase_patterns = sorted;
    }

    /// Load action patterns: keep the enabled rows whose action exists, and
    /// sort them by pattern priority, descending, stably.
    #[verifier::loop_isolation(false)]
    pub fn load_action_patterns(&mut self, actions: Vec<Action>, patterns: Vec<ActionPattern>)
        ensures
            final(self).action_patterns@ == spec_sort_by(
                spec_action_ge(),
                spec_compile_actions(actions@, patterns@),
            ),
            final(self).phase_patterns == old(self).phase_patterns,
            old(self).wf() ==> final(self).wf(),
    {
        let ghost all_rows = patterns@;
        let mut patterns = patterns;
        let mut compiled: Vec<CompiledActionPattern> = Vec::new();
        proof {
            assert(all_rows.take(0) =~= Seq::<ActionPattern>::empty());
        }
        let ghost mut seen: int = 0;
        while patterns.len() > 0
            invariant
                0 <= seen <= all_rows.len(),
                patterns@ =~= all_rows.skip(seen),
                compiled@ == spec_compile_actions(actions@, all_rows.take(seen)),
            decreases patterns.len(),
        {
            let row = patterns.remove(0);
            proof {
                assert(row == all_rows[seen]);
                assert(all_rows.take(seen + 1).drop_last() =~= all_rows.take(seen));
                assert(all_rows.take(seen + 1).last() == all_rows[seen]);
            }
            if row.enabled {
                match find_action(&actions, row.action_id) {
                    Some(idx) => {
                        compiled.push(
                            CompiledActionPattern {
                                id: row.id,
                                action_id: row.action_id,
                                action_name: actions[idx].name.clone(),
                                pattern: row.pattern,
                                is_regex: row.is_regex,
                                priority: row.priority,
                                step: row.step,
                            },
                        );
                    },
                    None => {},
                }
            }
            proof {
                seen = seen + 1;
                assert(patterns@ =~= all_rows.skip(seen));
            }
        }
        proof {
            assert(all_rows.take(all_rows.len() as int) =~= all_rows);
        }
        let ghost compiled_all = compiled@;
        let mut sorted: Vec<CompiledActionPattern> = Vec::new();
        proof {
            assert(compiled_all.take(0) =~= Seq::<CompiledActionPattern>::empty());
        }
        let ghost mut placed: int = 0;
        while compiled.len() > 0
            invariant
                0 <= placed <= compiled_all.len(),
                compiled@ =~= compiled_all.skip(placed),
                sorted@ == spec_sort_by(spec_action_ge(), compiled_all.take(placed)),
            decreases compiled.len(),
        {
            let x = compiled.remove(0);
            proof {
                assert(x == compiled_all[placed]);
                assert(compiled_all.take(placed + 1).drop_last() =~= compiled_all.take(placed));
                assert(compiled_all.take(placed + 1).last() == compiled_all[placed]);
            }
            insert_action_sorted(&mut sorted, x);
            proof {
                placed = placed + 1;
                assert(compiled@ =~= compiled_all.skip(placed));
            }
        }
        proof {
            assert(compiled_all.take(compiled_all.len() as int) =~= compiled_all);
            lemma_sort_by_sorted(spec_action_ge(), compiled_all);
        }
        self.action_patterns = sorted;
    }

    /// Whether a pattern matches a text; an invalid regex counts as a
    /// non-match.
    pub fn matches_text(&self, text: &str, pattern: &str, is_regex: bool) -> (r: bool)
        ensures
            r == spec_pattern_matches(text@, pattern@, is_regex),
    {
        if is_regex {
            match regex_find(pattern, text) {
                Ok(b) => b,
                Err(_) => false,
            }
        } else {
            contains_substring(text, pattern)
        }
    }

    /// Classify a message: the winning phase, if any, merged with every
    /// matching action pattern, ordered by priority, descending, ties in
    /// insertion order. Invalid regex patterns are reported alongside and
    /// never match.
    #[verifier::loop_isolation(false)]
    pub fn process_with_issues(&self, event: &MessageEvent) -> (r: (
        Vec<DetectionResult>,
        Vec<RegexIssue>,
    ))
        requires
            self.wf(),
        ensures
            r.0@ == spec_process(self.phase_patterns@, self.action_patterns@, event.text@),
            ({
                let ai = spec_action_issue_patterns(self.action_patterns@);
                let pi = spec_phase_issue_patterns(self.phase_patterns@, event.text@);
                &&& r.1@.len() == ai.len() + pi.len()
                &&& (forall|k: int|
                    0 <= k < ai.len() ==> (#[trigger] r.1@[k]).scope@ == "action"@
                        && r.1@[k].pattern == ai[k])
                &&& (forall|k: int|
                    ai.len() <= k < r.1@.len() ==> (#[trigger] r.1@[k]).scope@ == "phase"@
                        && r.1@[k].pattern == pi[k - ai.len()])
            }),
    {
        let text = event.text.as_str();
        let mut issues: Vec<RegexIssue> = Vec::new();

        // Action matches, in pattern order.
        let mut results: Vec<DetectionResult> = Vec::new();
        let n = self.action_patterns.len();
        let mut i: usize = 0;
        proof {
            assert(self.action_patterns@.take(0) =~= Seq::<CompiledActionPattern>::empty());
        }
        while i < n
            invariant
                i <= n,
                results@ == spec_action_results(self.action_patterns@.take(i as int), text@),
                ({
                    let ai = spec_action_issue_patterns(self.action_patterns@.take(i as int));
                    &&& issues@.len() == ai.len()
                    &&& (forall|k: int|
                        0 <= k < ai.len() ==> (#[trigger] issues@[k]).scope@ == "action"@
                            && issues@[k].pattern == ai[k])
                }),
            decreases n - i,
        {
            let p = &self.action_patterns[i];
            proof {
                assert(self.action_patterns@.take(i + 1).drop_last() =~= self.action_patterns@.take(
                    i as int,
                ));
                assert(self.action_patterns@.take(i + 1).last() == self.action_patterns@[i as int]);
            }
            if p.is_regex {
                match regex_find(p.pattern.as_str(), text) {
                    Ok(true) => {
                        results.push(
                            DetectionResult::Action {
                                action_id: p.action_id,
                                action_name: p.action_name.clone(),
                                pattern_id: p.id,
                                priority: p.priority,
                                step: p.step,
                            },
                        );
                    },
                    Ok(false) => {},
                    Err(e) => {
                        issues.push(
                            RegexIssue {
                                scope: String::from_str("action"),
                                pattern: p.pattern.clone(),
                                error: e,
                            },
                        );
                    },
                }
            } else {
                if contains_substring(text, p.pattern.as_str()) {
                    results.push(
                        DetectionResult::Action {
                            action_id: p.action_id,
                            action_name: p.action_name.clone(),
                            pattern_id: p.id,
                            priority: p.priority,
                            step: p.step,
                        },
                    );
                }
            }
            i = i + 1;
        }
        proof {
            assert(self.action_patterns@.take(n as int) =~= self.action_patterns@);
        }

        // First matching phase, merged in by priority.
        let pn = self.phase_patterns.len();
        let mut j: usize = 0;
        proof {
            assert(self.phase_patterns@.skip(0) =~= self.phase_patterns@);
        }
        let ghost alen = spec_action_issue_patterns(self.action_patterns@).len() as int;
        while j < pn
            invariant
                j <= pn,
                results@ == spec_action_results(self.action_patterns@, text@),
                spec_first_phase(self.phase_patterns@, text@) == spec_first_phase(
                    self.phase_patterns@.skip(j as int),
                    text@,
                ),
                alen == spec_action_issue_patterns(self.action_patterns@).len(),
                issues@.len() >= alen,
                (forall|k: int|
                    0 <= k < alen ==> (#[trigger] issues@[k]).scope@ == "action"@
                        && issues@[k].pattern == spec_action_issue_patterns(
                        self.action_patterns@,
                    )[k]),
                (forall|k: int|
                    alen <= k < issues@.len() ==> (#[trigger] issues@[k]).scope@ == "phase"@),
                spec_phase_issue_patterns(self.phase_patterns@, text@) =~= spec_issue_patterns_of(
                    issues@.skip(alen),
                ).add(spec_phase_issue_patterns(self.phase_patterns@.skip(j as int), text@)),
            decreases pn - j,
        {
            let p = &self.phase_patterns[j];
            proof {
                assert(self.phase_patterns@.skip(j as int)[0] == self.phase_patterns@[j as int]);
                assert(self.phase_patterns@.skip(j as int).skip(1) =~= self.phase_patterns@.skip(
                    j + 1,
                ));
            }
            let matched: bool;
            if p.is_regex {
                match regex_find(p.pattern.as_str(), text) {
                    Ok(b) => {
                        matched = b;
                    },
                    Err(e) => {
                        matched = false;
                        let issue = RegexIssue {
                            scope: String::from_str("phase"),
                            pattern: p.pattern.clone(),
                            error: e,
                        };
                        let ghost old_issues = issues@;
                        issues.push(issue);
                        proof {
                            assert(issues@.skip(alen) =~= old_issues.skip(alen).push(issue));
                            lemma_issue_patterns_push(old_issues.skip(alen), issue);
                            assert(spec_phase_issue_patterns(
                                self.phase_patterns@.skip(j as int),
                                text@,
                            ) =~= seq![self.phase_patterns@[j as int].pattern].add(
                                spec_phase_issue_patterns(
                                    self.phase_patterns@.skip(j + 1),
                                    text@,
                                ),
                            ));
                            assert(spec_issue_patterns_of(issues@.skip(alen)).add(
                                spec_phase_issue_patterns(
                                    self.phase_patterns@.skip(j + 1),
                                    text@,
                                ),
                            ) =~= spec_issue_patterns_of(old_issues.skip(alen)).add(
                                spec_phase_issue_patterns(
                                    self.phase_patterns@.skip(j as int),
                                    text@,
                                ),
                            ));
                        }
                    },
                }
            } else {
                matched = contains_substring(text, p.pattern.as_str());
            }
            if matched {
                let phase_result = DetectionResult::Phase {
                    phase_name: p.phase_name.clone(),
                    pattern_id: p.id,
                    priority: p.phase_priority * 1000 + p.priority,
                };
                proof {
                    assert(spec_first_phase(self.phase_patterns@, text@) == Some(
                        self.phase_patterns@[j as int],
                    ));
                    assert(phase_result == spec_phase_result(self.phase_patterns@[j as int]));
                    assert(spec_phase_issue_patterns(
                        self.phase_patterns@.skip(j as int),
                        text@,
                    ) =~= Seq::<String>::empty());
                    lemma_issue_patterns_len(issues@.skip(alen));
                    assert(spec_phase_issue_patterns(self.phase_patterns@, text@)
                        =~= spec_issue_patterns_of(issues@.skip(alen)));
                    assert forall|k: int|
                        alen <= k < issues@.len() implies (#[trigger] issues@[k]).pattern
                        == spec_phase_issue_patterns(self.phase_patterns@, text@)[k - alen] by {
                        assert(issues@.skip(alen)[k - alen] == issues@[k]);
                    }
                }
                insert_result_sorted(&mut results, phase_result);
                return (results, issues);
            }
            j = j + 1;
        }
        proof {
            assert(self.phase_patterns@.skip(pn as int) =~= Seq::<CompiledPattern>::empty());
            lemma_issue_patterns_len(issues@.skip(alen));
            assert(spec_phase_issue_patterns(self.phase_patterns@, text@)
                =~= spec_issue_patterns_of(issues@.skip(alen)));
            assert forall|k: int|
                alen <= k < issues@.len() implies (#[trigger] issues@[k]).pattern
                == spec_phase_issue_patterns(self.phase_patterns@, text@)[k - alen] by {
                assert(issues@.skip(alen)[k - alen] == issues@[k]);
            }
        }
        (results, issues)
    }

    /// Classify a message, dropping any regex compilation reports.
    pub fn process(&self, event: &MessageEvent) -> (r: Vec<DetectionResult>)
        requires
            self.wf(),
        ensures
            r@ == spec_process(self.phase_patterns@, self.action_patterns@, event.text@),
    {
        let (results, _issues) = self.process_with_issues(event);
        results
    }

    /// How many phase patterns are loaded.
    pub fn phase_pattern_count(&self) -> (r: usize)
        ensures
            r == self.phase_patterns@.len(),
    {
        self.phase_patterns.len()
    }

    /// How many action patterns are loaded.
    pub fn action_pattern_count(&self) -> (r: usize)
        ensures
            r == self.action_patterns@.len(),
    {
        self.action_patterns.len()
    }
}

impl Default for DetectionPipeline {
    /// An empty pipeline.
    fn default() -> (r: DetectionPipeline)
        ensures
            r.phase_patterns@ == Seq::<CompiledPattern>::empty(),
            r.action_patterns@ == Seq::<CompiledActionPattern>::empty(),
            r.wf(),
    {
        DetectionPipeline::new()
    }
}

/// Index of the action with the given id, scanning in order.
#[verifier::loop_isolation(false)]
fn find_action(actions: &Vec<Action>, action_id: i64) -> (r: Option<usize>)
    ensures
        (match r {
            Some(idx) => idx < actions@.len() && spec_find_action(actions@, action_id) == Some(
                actions@[idx as int],
            ),
            None => spec_find_action(actions@, action_id) is None,
        }),
{
    let n = actions.len();
    let mut i: usize = 0;
    proof {
        assert(actions@.skip(0) =~= actions@);
    }
    while i < n
        invariant
            i <= n,
            spec_find_action(actions@, action_id) == spec_find_action(
                actions@.skip(i as int),
                action_id,
            ),
        decreases n - i,
    {
        proof {
            assert(actions@.skip(i as int)[0] == actions@[i as int]);
            assert(actions@.skip(i as int).skip(1) =~= actions@.skip(i + 1));
        }
        if actions[i].id == action_id {
            return Some(i);
        }
        i = i + 1;
    }
    proof {
        assert(actions@.skip(n as int) =~= Seq::<Action>::empty());
    }
    None
}

/// Insert a compiled phase pattern into a vector at its sort position.
#[verifier::loop_isolation(false)]
fn insert_phase_sorted(v: &mut Vec<CompiledPattern>, x: CompiledPattern)
    ensures
        final(v)@ == spec_insert_by(spec_phase_ge(), x, old(v)@),
{
    let n = v.len();
    let mut j: usize = 0;
    while j < n
        invariant
            j <= n,
            v == old(v),
            forall|k: int| 0 <= k < j ==> spec_phase_ge()(#[trigger] v@[k], x),
        decreases n - j,
    {
        let e = &v[j];
        if !(e.phase_priority > x.phase_priority || (e.phase_priority == x.phase_priority
            && e.priority >= x.priority)) {
            proof {
                lemma_insert_by_at(spec_phase_ge(), x, v@, j as int);
            }
            v.insert(j, x);
            proof {
                assert(final(v)@ =~= old(v)@.take(j as int).add(seq![x]).add(
                    old(v)@.skip(j as int),
                ));
            }
            return ;
        }
        j = j + 1;
    }
    proof {
        lemma_insert_by_at(spec_phase_ge(), x, v@, n as int);
    }
    v.push(x);
    proof {
        assert(final(v)@ =~= old(v)@.take(n as int).add(seq![x]).add(old(v)@.skip(n as int)));
    }
}

/// Insert a compiled action pattern into a vector at its sort position.
#[verifier::loop_isolation(false)]
fn insert_action_sorted(v: &mut Vec<CompiledActionPattern>, x: CompiledActionPattern)
    ensures
        final(v)@ == spec_insert_by(spec_action_ge(), x, old(v)@),
{
    let n = v.len();
    let mut j: usize = 0;
    while j < n
        invariant
            j <= n,
            v == old(v),
            forall|k: int| 0 <= k < j ==> spec_action_ge()(#[trigger] v@[k], x),
        decreases n - j,
    {
        let e = &v[j];
        if !(e.priority >= x.priority) {
            proof {
                lemma_insert_by_at(spec_action_ge(), x, v@, j as int);
            }
            v.insert(j, x);
            proof {
                assert(final(v)@ =~= old(v)@.take(j as int).add(seq![x]).add(
                    old(v)@.skip(j as int),
                ));
            }
            return ;
        }
        j = j + 1;
    }
    proof {
        lemma_insert_by_at(spec_action_ge(), x, v@, n as int);
    }
    v.push(x);
    proof {
        assert(final(v)@ =~= old(v)@.take(n as int).add(seq![x]).add(old(v)@.skip(n as int)));
    }
}

/// Insert a detection result into a vector at its priority position, before
/// any present result of equal or lower priority.
#[verifier::loop_isolation(false)]
fn insert_result_sorted(v: &mut Vec<DetectionResult>, x: DetectionResult)
    ensures
        final(v)@ == spec_insert_by(spec_result_gt(), x, old(v)@),
{
    let xp = result_priority(&x);
    let n = v.len();
    let mut j: usize = 0;
    while j < n
        invariant
            j <= n,
            v == old(v),
            xp == spec_result_priority(x),
            forall|k: int| 0 <= k < j ==> spec_result_gt()(#[trigger] v@[k], x),
        decreases n - j,
    {
        let ep = result_priority(&v[j]);
        if !(ep > xp) {
            proof {
                lemma_insert_by_at(spec_result_gt(), x, v@, j as int);
            }
            v.insert(j, x);
            proof {
                assert(final(v)@ =~= old(v)@.take(j as int).add(seq![x]).add(
                    old(v)@.skip(j as int),
                ));
            }
            return ;
        }
        j = j + 1;
    }
    proof {
        lemma_insert_by_at(spec_result_gt(), x, v@, n as int);
    }
    v.push(x);
    proof {
        assert(final(v)@ =~= old(v)@.take(n as int).add(seq![x]).add(old(v)@.skip(n as int)));
    }
}

/// The priority key of a detection result.
pub fn result_priority(r: &DetectionResult) -> (p: i32)
    ensures
        p as int == spec_result_priority(*r),
{
    match r {
        DetectionResult::Phase { priority, .. } => *priority,
        DetectionResult::Action { priority, .. } => *priority,
    }
}

/// The pattern texts a list of reports carries, in order.
pub open spec fn spec_issue_patterns_of(issues: Seq<RegexIssue>) -> Seq<String>
    decreases issues.len(),
{
    if issues.len() == 0 {
        Seq::empty()
    } else {
        spec_issue_patterns_of(issues.drop_last()).push(issues.last().pattern)
    }
}

/// Appending a report appends its pattern.
proof fn lemma_issue_patterns_push(issues: Seq<RegexIssue>, issue: RegexIssue)
    ensures
        spec_issue_patterns_of(issues.push(issue)) == spec_issue_patterns_of(issues).push(
            issue.pattern,
        ),
{
    assert(issues.push(issue).drop_last() =~= issues);
    assert(issues.push(issue).last() == issue);
}

/// The carried patterns are one per report, in place.
proof fn lemma_issue_patterns_len(issues: Seq<RegexIssue>)
    ensures
        spec_issue_patterns_of(issues).len() == issues.len(),
        forall|k: int|
            0 <= k < issues.len() ==> spec_issue_patterns_of(issues)[k] == (
            #[trigger] issues[k]).pattern,
    decreases issues.len(),
{
    if issues.len() > 0 {
        lemma_issue_patterns_len(issues.drop_last());
        assert forall|k: int|
            0 <= k < issues.len() implies spec_issue_patterns_of(issues)[k] == (
        #[trigger] issues[k]).pattern by {
            if k < issues.len() - 1 {
                assert(issues.drop_last()[k] == issues[k]);
            }
        }
    }
}

/// Compiling keeps phase priorities in the range the rows had.
proof fn lemma_compile_phases_bounded(rows: Seq<(PhasePattern, String, i32)>)
    requires
        forall|i: int|
            0 <= i < rows.len() ==> {
                &&& MIN_PRIORITY <= (#[trigger] rows[i]).0.priority <= MAX_PRIORITY
                &&& MIN_PRIORITY <= rows[i].2 <= MAX_PRIORITY
            },
    ensures
        spec_phases_bounded(spec_compile_phases(rows)),
    decreases rows.len(),
{
    if rows.len() > 0 {
        lemma_compile_phases_bounded(rows.drop_last());
    }
}

/// Sorting keeps phase priorities in range: the output holds the same
/// elements.
proof fn lemma_sort_by_bounded(s: Seq<CompiledPattern>)
    requires
        spec_phases_bounded(s),
    ensures
        spec_phases_bounded(spec_sort_by(spec_phase_ge(), s)),
    decreases s.len(),
{
    if s.len() > 0 {
        assert(spec_phases_bounded(s.drop_last()));
        lemma_sort_by_bounded(s.drop_last());
        lemma_insert_by_bounded(s.last(), spec_sort_by(spec_phase_ge(), s.drop_last()));
    }
}

/// Inserting a bounded pattern into a bounded list keeps the list bounded.
proof fn lemma_insert_by_bounded(x: CompiledPattern, s: Seq<CompiledPattern>)
    requires
        MIN_PRIORITY <= x.priority <= MAX_PRIORITY,
        MIN_PRIORITY <= x.phase_priority <= MAX_PRIORITY,
        spec_phases_bounded(s),
    ensures
        spec_phases_bounded(spec_insert_by(spec_phase_ge(), x, s)),
    decreases s.len(),
{
    if s.len() == 0 {
    } else if spec_phase_ge()(s[0], x) {
        assert(spec_phases_bounded(s.skip(1)));
        lemma_insert_by_bounded(x, s.skip(1));
        let out = seq![s[0]].add(spec_insert_by(spec_phase_ge(), x, s.skip(1)));
        assert(spec_insert_by(spec_phase_ge(), x, s) == out);
        assert forall|i: int| 0 <= i < out.len() implies {
            &&& MIN_PRIORITY <= (#[trigger] out[i]).priority <= MAX_PRIORITY
            &&& MIN_PRIORITY <= out[i].phase_priority <= MAX_PRIORITY
        } by {
            if i > 0 {
                assert(out[i] == spec_insert_by(spec_phase_ge(), x, s.skip(1))[i - 1]);
            }
        }
    } else {
        let out = seq![x].add(s);
        assert forall|i: int| 0 <= i < out.len() implies {
            &&& MIN_PRIORITY <= (#[trigger] out[i]).priority <= MAX_PRIORITY
            &&& MIN_PRIORITY <= out[i].phase_priority <= MAX_PRIORITY
        } by {
            if i > 0 {
                assert(out[i] == s[i - 1]);
            }
        }
    }
}

/// Two runs of the pipeline on the same message, through the same patterns,
/// return the same result sequence.
pub proof fn lemma_process_deterministic(
    phases: Seq<CompiledPattern>,
    actions: Seq<CompiledActionPattern>,
    text: Seq<char>,
    r1: Seq<DetectionResult>,
    r2: Seq<DetectionResult>,
)
    requires
        r1 == spec_process(phases, actions, text),
        r2 == spec_process(phases, actions, text),
    ensures
        r1 == r2,
{
}

/// Loading twice from the same configuration yields pipelines with identical
/// outputs on every message.
pub proof fn lemma_reload_idempotent(p1: DetectionPipeline, p2: DetectionPipeline, text: Seq<char>)
    requires
        p1.phase_patterns@ == p2.phase_patterns@,
        p1.action_patterns@ == p2.action_patterns@,
    ensures
        spec_process(p1.phase_patterns@, p1.action_patterns@, text) == spec_process(
            p2.phase_patterns@,
            p2.action_patterns@,
            text,
        ),
{
}

/// The result is an action classification carrying this pattern id.
pub open spec fn spec_is_action_of(r: DetectionResult, id: i64) -> bool {
    match r {
        DetectionResult::Action { pattern_id, .. } => pattern_id == id,
        _ => false,
    }
}

/// A matching action pattern contributes its result.
proof fn lemma_action_results_member(ps: Seq<CompiledActionPattern>, text: Seq<char>, i: int)
    requires
        0 <= i < ps.len(),
        spec_pattern_matches(text, ps[i].pattern@, ps[i].is_regex),
    ensures
        exists|k: int|
            0 <= k < spec_action_results(ps, text).len() && spec_action_results(ps, text)[k]
                == spec_action_result(ps[i]),
    decreases ps.len(),
{
    let out = spec_action_results(ps, text);
    let rest = spec_action_results(ps.drop_last(), text);
    if i == ps.len() - 1 {
        assert(out[rest.len() as int] == spec_action_result(ps[i]));
    } else {
        assert(ps.drop_last()[i] == ps[i]);
        lemma_action_results_member(ps.drop_last(), text, i);
        let k = choose|k: int| 0 <= k < rest.len() && rest[k] == spec_action_result(ps[i]);
        assert(out[k] == spec_action_result(ps[i]));
    }
}

/// Every entry of the action results comes from a matching pattern.
proof fn lemma_action_results_source(ps: Seq<CompiledActionPattern>, text: Seq<char>, k: int)
    requires
        0 <= k < spec_action_results(ps, text).len(),
    ensures
        exists|j: int|
            0 <= j < ps.len() && spec_pattern_matches(text, (#[trigger] ps[j]).pattern@,
                ps[j].is_regex,
            ) && spec_action_results(ps, text)[k] == spec_action_result(ps[j]),
    decreases ps.len(),
{
    let out = spec_action_results(ps, text);
    let rest = spec_action_results(ps.drop_last(), text);
    if spec_pattern_matches(text, ps.last().pattern@, ps.last().is_regex) && k
        == rest.len() as int {
        assert(out[k] == spec_action_result(ps[ps.len() - 1]));
    } else {
        lemma_action_results_source(ps.drop_last(), text, k);
        let j = choose|j: int|
            0 <= j < ps.drop_last().len() && spec_pattern_matches(
                text,
                (#[trigger] ps.drop_last()[j]).pattern@,
                ps.drop_last()[j].is_regex,
            ) && spec_action_results(ps.drop_last(), text)[k] == spec_action_result(
                ps.drop_last()[j],
            );
        assert(ps[j] == ps.drop_last()[j]);
        assert(out[k] == rest[k]);
    }
}

/// A loaded plain action pattern contributes a result with its id exactly
/// when its text occurs as a substring of the message, provided pattern ids
/// are unique among the loaded action patterns.
pub proof fn lemma_action_membership(
    phases: Seq<CompiledPattern>,
    actions: Seq<CompiledActionPattern>,
    text: Seq<char>,
    i: int,
)
    requires
        0 <= i < actions.len(),
        actions[i].is_regex == false,
        forall|a: int, b: int|
            0 <= a < b < actions.len() ==> (#[trigger] actions[a]).id != (
            #[trigger] actions[b]).id,
    ensures
        (exists|k: int|
            0 <= k < spec_process(phases, actions, text).len() && spec_is_action_of(
                #[trigger] spec_process(phases, actions, text)[k],
                actions[i].id,
            )) <==> spec_contains(text, actions[i].pattern@),
{
    let acts = spec_action_results(actions, text);
    let out = spec_process(phases, actions, text);
    if spec_contains(text, actions[i].pattern@) {
        lemma_action_results_member(actions, text, i);
        let k = choose|k: int| 0 <= k < acts.len() && acts[k] == spec_action_result(actions[i]);
        match spec_first_phase(phases, text) {
            None => {
                assert(spec_is_action_of(out[k], actions[i].id));
            },
            Some(p) => {
                crate::sorting::lemma_insert_by_contains_all(
                    spec_result_gt(),
                    spec_phase_result(p),
                    acts,
                    k,
                );
                let m = choose|m: int| 0 <= m < out.len() && out[m] == acts[k];
                assert(spec_is_action_of(out[m], actions[i].id));
            },
        }
    }
    if exists|k: int|
        0 <= k < out.len() && spec_is_action_of(#[trigger] out[k], actions[i].id) {
        let k = choose|k: int| 0 <= k < out.len() && spec_is_action_of(#[trigger] out[k], actions[i].id);
        let entry = out[k];
        match spec_first_phase(phases, text) {
            None => {
                lemma_action_results_source(actions, text, k);
            },
            Some(p) => {
                crate::sorting::lemma_insert_by_membership(
                    spec_result_gt(),
                    spec_phase_result(p),
                    acts,
                    k,
                );
                assert(entry != spec_phase_result(p));
                let m = choose|m: int| 0 <= m < acts.len() && acts[m] == entry;
                lemma_action_results_source(actions, text, m);
            },
        }
        let j = choose|j: int|
            0 <= j < actions.len() && spec_pattern_matches(
                text,
                (#[trigger] actions[j]).pattern@,
                actions[j].is_regex,
            ) && spec_action_result(actions[j]) == entry;
        assert(actions[j].id == actions[i].id);
        if i < j {
            assert(actions[i].id != actions[j].id);
        }
        if j < i {
            assert(actions[j].id != actions[i].id);
        }
        assert(j == i);
    }
}

/// A plain pattern matches exactly when it occurs as a substring of the
/// text.
pub proof fn lemma_substring_match(text: Seq<char>, pattern: Seq<char>)
    ensures
        spec_pattern_matches(text, pattern, false) == spec_contains(text, pattern),
{
}

} // verus!
