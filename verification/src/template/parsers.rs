//! Reading what `cargo locate-project` and `cargo udeps` print.

use crate::error::TemplateError;
use crate::json::{json_first_member, json_member, json_model, json_parse, parse_json, Json};
use crate::text::{
    ascending, begins_with, chars_of, comes_before, contains, contains_text, lemma_text_order,
    same_text, starts_with, text_before, text_from_utf8, texts,
};
use vstd::utf8::{decode_utf8, valid_utf8};
use vstd::prelude::*;

verus! {

/// The dependencies that a program does not use, by category. Each list
/// stands for a set of names, and holds them in the order of `String`, each
/// once.
#[derive(Debug, Clone, PartialEq, Eq)]
pub struct OutcomeUnusedDeps {
    pub normal: Vec<String>,
    pub development: Vec<String>,
    pub build: Vec<String>,
}

/// The three sets of names that an [`OutcomeUnusedDeps`] stands for.
pub struct UnusedNames {
    pub normal: Set<Seq<char>>,
    pub development: Set<Seq<char>>,
    pub build: Set<Seq<char>>,
}

impl UnusedNames {
    pub open spec fn none() -> UnusedNames {
        UnusedNames { normal: Set::empty(), development: Set::empty(), build: Set::empty() }
    }
}

impl View for OutcomeUnusedDeps {
    type V = UnusedNames;

    open spec fn view(&self) -> UnusedNames {
        UnusedNames {
            normal: texts(self.normal@).to_set(),
            development: texts(self.development@).to_set(),
            build: texts(self.build@).to_set(),
        }
    }
}

impl OutcomeUnusedDeps {
    /// Each list holds its names in ascending order, and so none twice.
    pub open spec fn wf(&self) -> bool {
        &&& ascending(texts(self.normal@))
        &&& ascending(texts(self.development@))
        &&& ascending(texts(self.build@))
    }
}

impl Default for OutcomeUnusedDeps {
    fn default() -> (outcome: OutcomeUnusedDeps)
        ensures
            outcome@ == UnusedNames::none(),
            outcome.wf(),
    {
        let outcome = OutcomeUnusedDeps {
            normal: Vec::new(),
            development: Vec::new(),
            build: Vec::new(),
        };
        assert(texts(outcome.normal@).to_set() =~= Set::empty());
        assert(texts(outcome.development@).to_set() =~= Set::empty());
        assert(texts(outcome.build@).to_set() =~= Set::empty());
        outcome
    }
}

/// The manifest path in a locate-project reply: the text of its member `root`.
pub open spec fn located_root(reply: Json) -> Option<Seq<char>> {
    match reply.member("root"@) {
        Some(Json::Text(path)) => Some(path),
        _ => None,
    }
}

/// Every element is a JSON string.
pub open spec fn all_text(items: Seq<Json>) -> bool {
    forall|i: int| 0 <= i < items.len() ==> (#[trigger] items[i]) is Text
}

/// The names in a JSON array of strings; nothing for any other value.
pub open spec fn names_in(list: Option<Json>) -> Option<Set<Seq<char>>> {
    match list {
        Some(Json::Array(items)) => if all_text(items) {
            Some(Set::new(|name: Seq<char>| items.contains(Json::Text(name))))
        } else {
            None
        },
        _ => None,
    }
}

/// The three sets in one target's report: its members `normal`,
/// `development` and `build`, each an array of strings.
pub open spec fn names_by_category(report: Json) -> Option<UnusedNames> {
    match (
        names_in(report.member("normal"@)),
        names_in(report.member("development"@)),
        names_in(report.member("build"@)),
    ) {
        (Some(normal), Some(development), Some(build)) => Some(
            UnusedNames { normal, development, build },
        ),
        _ => None,
    }
}

/// What an analyzer reply says is unused. A reply whose `success` is true
/// names nothing. Otherwise the first member of its object `unused_deps` is
/// the report. Any other shape is no answer.
pub open spec fn unused_in_reply(reply: Json) -> Option<UnusedNames> {
    match reply.member("success"@) {
        Some(Json::Bool(true)) => Some(UnusedNames::none()),
        Some(Json::Bool(false)) => match reply.member("unused_deps"@) {
            Some(report_by_target) => match report_by_target.first_member() {
                Some(report) => names_by_category(report),
                None => None,
            },
            None => None,
        },
        _ => None,
    }
}

/// What the analyzer's standard error says of its run. Text that is not
/// UTF-8 is malformed. Text that begins with cargo's complaint about an
/// unknown command means the analyzer is missing, text that begins with a
/// failed write means a permission problem, and a mention of the nightly
/// compiler means the wrong toolchain. Anything else is tolerated.
pub open spec fn stderr_verdict(stderr: Seq<u8>) -> Result<(), TemplateError> {
    if !valid_utf8(stderr) {
        Err(TemplateError::AnalyzerStderrMalformed)
    } else if begins_with(decode_utf8(stderr), "error: no such command"@) {
        Err(TemplateError::AnalyzerNotInstalled)
    } else if begins_with(decode_utf8(stderr), "error: failed to write"@) {
        Err(TemplateError::AnalyzerPermissionDenied)
    } else if contains_text(decode_utf8(stderr), "nightly compiler"@) {
        Err(TemplateError::AnalyzerToolchainMismatch)
    } else {
        Ok(())
    }
}

/// Looks in the analyzer's standard error for the failures it is known to
/// report there.
pub fn check_udeps_stderr(stderr: Vec<u8>) -> (verdict: Result<(), TemplateError>)
    ensures
        verdict == stderr_verdict(stderr@),
{
    let text = match text_from_utf8(stderr) {
        Some(text) => text,
        None => { return Err(TemplateError::AnalyzerStderrMalformed); },
    };
    let chars = chars_of(text.as_str());
    if starts_with(&chars, &chars_of("error: no such command")) {
        Err(TemplateError::AnalyzerNotInstalled)
    } else if starts_with(&chars, &chars_of("error: failed to write")) {
        Err(TemplateError::AnalyzerPermissionDenied)
    } else if contains(&chars, &chars_of("nightly compiler")) {
        Err(TemplateError::AnalyzerToolchainMismatch)
    } else {
        Ok(())
    }
}

/// A reply that reports success names nothing as unused, whatever else it
/// holds.
pub proof fn lemma_success_names_nothing(reply: Json)
    requires
        reply.member("success"@) == Some(Json::Bool(true)),
    ensures
        unused_in_reply(reply) == Some(UnusedNames::none()),
{
}

/// A reply that reports failure names what its first report lists under the
/// three categories, and is no answer where that report lacks one of them.
pub proof fn lemma_failure_names_first_report(reply: Json, reports: Json, report: Json)
    requires
        reply.member("success"@) == Some(Json::Bool(false)),
        reply.member("unused_deps"@) == Some(reports),
        reports.first_member() == Some(report),
    ensures
        unused_in_reply(reply) == names_by_category(report),
        unused_in_reply(reply) is Some <==> names_in(report.member("normal"@)) is Some && names_in(
            report.member("development"@),
        ) is Some && names_in(report.member("build"@)) is Some,
        unused_in_reply(reply) matches Some(unused) ==> Some(unused.normal) == names_in(
            report.member("normal"@),
        ) && Some(unused.development) == names_in(report.member("development"@)) && Some(
            unused.build,
        ) == names_in(report.member("build"@)),
{
}

/// The manifest path in a parsed locate-project reply.
pub fn root_from_json(reply: &serde_json::Value) -> (root: Option<String>)
    ensures
        match root {
            Some(path) => located_root(json_model(*reply)) == Some(path@),
            None => located_root(json_model(*reply)) is None,
        },
{
    match json_member(reply, "root") {
        Some(member) => match member.as_str() {
            Some(path) => Some(String::from_str(path)),
            None => None,
        },
        None => None,
    }
}

/// The manifest path that `cargo locate-project` printed, where its output is
/// JSON with a string member `root`.
pub fn parse_locate_project_stdout(stdout: &[u8]) -> (root: Option<String>)
    ensures
        match root {
            Some(path) => json_parse(stdout@) is Some && located_root(json_parse(stdout@)->0)
                == Some(path@),
            None => json_parse(stdout@) is None || located_root(json_parse(stdout@)->0) is None,
        },
{
    match parse_json(stdout) {
        Some(reply) => root_from_json(&reply),
        None => None,
    }
}

/// One of the first `end` elements is the JSON string `name`.
pub open spec fn named_before(items: Seq<Json>, end: int, name: Seq<char>) -> bool {
    exists|j: int| 0 <= j < end && j < items.len() && items[j] == Json::Text(name)
}

/// A list in ascending order holds no text twice.
pub proof fn lemma_ascending_has_no_duplicates(names: Seq<Seq<char>>)
    requires
        ascending(names),
    ensures
        names.no_duplicates(),
{
    assert forall|i: int, j: int| 0 <= i < names.len() && 0 <= j < names.len() && i != j implies
        names[i] != names[j] by {
        lemma_text_order(names[i], names[j], names[j]);
        if i < j {
            assert(text_before(names[i], names[j]));
        } else {
            assert(text_before(names[j], names[i]));
        }
    }
}

/// Two lists in ascending order that hold the same texts are the same list:
/// the order leaves no choice.
pub proof fn lemma_ascending_is_unique(left: Seq<Seq<char>>, right: Seq<Seq<char>>)
    requires
        ascending(left),
        ascending(right),
        left.to_set() == right.to_set(),
    ensures
        left == right,
    decreases left.len(),
{
    if left.len() == 0 {
        if right.len() > 0 {
            assert(right.to_set().contains(right[0]));
            assert(left.contains(right[0]));
        }
        assert(left =~= right);
    } else if right.len() == 0 {
        assert(left.to_set().contains(left[0]));
        assert(right.contains(left[0]));
    } else {
        // the least text of the set stands first in both
        assert(left.to_set().contains(left[0]));
        assert(right.contains(left[0]));
        let k = choose|k: int| 0 <= k < right.len() && right[k] == left[0];
        assert(right.to_set().contains(right[0]));
        assert(left.contains(right[0]));
        let m = choose|m: int| 0 <= m < left.len() && left[m] == right[0];
        lemma_text_order(left[0], right[0], left[0]);
        if k > 0 {
            assert(text_before(right[0], right[k]));
            if m > 0 {
                assert(text_before(left[0], left[m]));
            }
        }
        assert(left[0] == right[0]);
        let left_rest = left.drop_first();
        let right_rest = right.drop_first();
        lemma_ascending_has_no_duplicates(left);
        lemma_ascending_has_no_duplicates(right);
        assert forall|i: int, j: int| 0 <= i < j < left_rest.len() implies text_before(
            left_rest[i],
            left_rest[j],
        ) by {
            assert(text_before(left[i + 1], left[j + 1]));
        }
        assert forall|i: int, j: int| 0 <= i < j < right_rest.len() implies text_before(
            right_rest[i],
            right_rest[j],
        ) by {
            assert(text_before(right[i + 1], right[j + 1]));
        }
        assert forall|name: Seq<char>| left_rest.to_set().contains(name)
            == right_rest.to_set().contains(name) by {
            if left_rest.contains(name) {
                let i = choose|i: int| 0 <= i < left_rest.len() && left_rest[i] == name;
                assert(left[i + 1] == name);
                assert(left.to_set().contains(name));
                assert(right.contains(name));
                let j = choose|j: int| 0 <= j < right.len() && right[j] == name;
                assert(j > 0);
                assert(right_rest[j - 1] == name);
            }
            if right_rest.contains(name) {
                let i = choose|i: int| 0 <= i < right_rest.len() && right_rest[i] == name;
                assert(right[i + 1] == name);
                assert(right.to_set().contains(name));
                assert(left.contains(name));
                let j = choose|j: int| 0 <= j < left.len() && left[j] == name;
                assert(j > 0);
                assert(left_rest[j - 1] == name);
            }
        }
        assert(left_rest.to_set() =~= right_rest.to_set());
        lemma_ascending_is_unique(left_rest, right_rest);
        assert(left =~= seq![left[0]] + left_rest);
        assert(right =~= seq![right[0]] + right_rest);
    }
}

/// Puts `name` in its place in a list in ascending order, unless the list
/// holds it.
fn add_name(names: &mut Vec<String>, name: &str)
    requires
        ascending(texts(old(names)@)),
    ensures
        ascending(texts(final(names)@)),
        texts(final(names)@).to_set() == texts(old(names)@).to_set().insert(name@),
{
    let ghost before = texts(names@);
    let mut place: usize = 0;
    let mut searching = true;
    while searching && place < names.len()
        invariant
            place <= names.len(),
            names@ == old(names)@,
            before == texts(names@),
            forall|j: int| 0 <= j < place ==> text_before(#[trigger] before[j], name@),
            !searching ==> place < names.len() && !text_before(before[place as int], name@),
        decreases names.len() - place + (if searching { 1int } else { 0int }),
    {
        if comes_before(names[place].as_str(), name) {
            place = place + 1;
        } else {
            searching = false;
        }
    }
    if place < names.len() && same_text(names[place].as_str(), name) {
        proof {
            assert(before[place as int] == name@);
            assert(before.to_set().insert(name@) =~= before.to_set());
        }
        return;
    }
    proof {
        // what follows the place comes after the name
        assert forall|j: int| place <= j < before.len() implies text_before(
            name@,
            #[trigger] before[j],
        ) by {
            lemma_text_order(name@, before[place as int], before[j]);
            if j > place {
                assert(text_before(before[place as int], before[j]));
            }
        }
    }
    names.insert(place, String::from_str(name));
    proof {
        let after = texts(names@);
        assert(after =~= before.insert(place as int, name@));
        assert forall|i: int, j: int| 0 <= i < j < after.len() implies text_before(
            after[i],
            after[j],
        ) by {
            if j < place {
                assert(text_before(before[i], before[j]));
            } else if j == place {
                assert(text_before(before[i], name@));
            } else if i < place {
                assert(text_before(before[i], before[j - 1]));
            } else if i == place {
                assert(text_before(name@, before[j - 1]));
            } else {
                assert(text_before(before[i - 1], before[j - 1]));
            }
        }
        assert forall|other: Seq<char>| after.to_set().contains(other) == before.to_set().insert(
            name@,
        ).contains(other) by {
            if after.contains(other) {
                let i = choose|i: int| 0 <= i < after.len() && after[i] == other;
                if i < place {
                    assert(before[i] == other);
                } else if i > place {
                    assert(before[i - 1] == other);
                }
            }
            if before.contains(other) {
                let i = choose|i: int| 0 <= i < before.len() && before[i] == other;
                if i < place {
                    assert(after[i] == other);
                } else {
                    assert(after[i + 1] == other);
                }
            }
            if other == name@ {
                assert(after[place as int] == other);
            }
        }
        assert(after.to_set() =~= before.to_set().insert(name@));
    }
}

/// The names in a JSON array of strings, each once, in the order of
/// `String`.
pub fn names_from_json(list: &serde_json::Value) -> (names: Option<Vec<String>>)
    ensures
        match names {
            Some(found) => names_in(Some(json_model(*list))) == Some(texts(found@).to_set())
                && ascending(texts(found@)),
            None => names_in(Some(json_model(*list))) is None,
        },
{
    let items = match list.as_array() {
        Some(items) => items,
        None => { return None; },
    };
    let ghost model = Seq::new(items@.len(), |i: int| json_model(items@[i]));
    let mut found: Vec<String> = Vec::new();
    let mut i: usize = 0;
    while i < items.len()
        invariant
            i <= items.len(),
            model.len() == items@.len(),
            forall|j: int| 0 <= j < items@.len() ==> model[j] == json_model(#[trigger] items@[j]),
            json_model(*list) == Json::Array(model),
            forall|j: int| 0 <= j < i ==> (#[trigger] model[j]) is Text,
            ascending(texts(found@)),
            forall|name: Seq<char>|
                #[trigger] texts(found@).contains(name) <==> named_before(model, i as int, name),
        decreases items.len() - i,
    {
        match items[i].as_str() {
            Some(name) => {
                let ghost before = texts(found@);
                assert(model[i as int] == Json::Text(name@));
                add_name(&mut found, name);
                assert forall|other: Seq<char>| #[trigger]
                    texts(found@).contains(other) <==> named_before(
                        model,
                        i + 1,
                        other,
                    ) by {
                    assert(texts(found@).to_set().contains(other) == (before.to_set().contains(
                        other,
                    ) || other == name@));
                    if named_before(model, i + 1, other) {
                        let j = choose|j: int|
                            0 <= j < i + 1 && j < model.len() && model[j] == Json::Text(other);
                        if j < i {
                            assert(named_before(model, i as int, other));
                        }
                    }
                    if before.contains(other) {
                        assert(named_before(model, i as int, other));
                        let j = choose|j: int|
                            0 <= j < i && j < model.len() && model[j] == Json::Text(other);
                        assert(0 <= j < i + 1 && j < model.len() && model[j] == Json::Text(
                            other,
                        ));
                    }
                    if other == name@ {
                        assert(0 <= i < i + 1 && (i as int) < model.len() && model[i as int]
                            == Json::Text(other));
                    }
                }
            },
            None => {
                assert(!(model[i as int] is Text));
                assert(!all_text(model));
                return None;
            },
        }
        i = i + 1;
    }
    proof {
        let wanted = Set::new(|name: Seq<char>| model.contains(Json::Text(name)));
        assert forall|name: Seq<char>| texts(found@).to_set().contains(name) == wanted.contains(
            name,
        ) by {
            if wanted.contains(name) {
                let j = choose|j: int| 0 <= j < model.len() && model[j] == Json::Text(name);
                assert(named_before(model, i as int, name));
            }
            if texts(found@).contains(name) {
                assert(named_before(model, i as int, name));
                let j = choose|j: int|
                    0 <= j < i && j < model.len() && model[j] == Json::Text(name);
                assert(model[j] == Json::Text(name));
                assert(model.contains(Json::Text(name)));
            }
        }
        assert(texts(found@).to_set() =~= wanted);
        assert(all_text(model));
    }
    Some(found)
}

/// The names in the member `category` of a report.
fn category_names(report: &serde_json::Value, category: &str) -> (names: Option<Vec<String>>)
    ensures
        match names {
            Some(found) => names_in(json_model(*report).member(category@)) == Some(
                texts(found@).to_set(),
            ) && ascending(texts(found@)),
            None => names_in(json_model(*report).member(category@)) is None,
        },
{
    match json_member(report, category) {
        Some(list) => names_from_json(list),
        None => None,
    }
}

/// The three lists in one target's report.
pub fn outcome_from_json(report: &serde_json::Value) -> (outcome: Option<OutcomeUnusedDeps>)
    ensures
        match outcome {
            Some(unused) => names_by_category(json_model(*report)) == Some(unused@) && unused.wf(),
            None => names_by_category(json_model(*report)) is None,
        },
{
    let normal = match category_names(report, "normal") {
        Some(names) => names,
        None => { return None; },
    };
    let development = match category_names(report, "development") {
        Some(names) => names,
        None => { return None; },
    };
    let build = match category_names(report, "build") {
        Some(names) => names,
        None => { return None; },
    };
    Some(OutcomeUnusedDeps { normal, development, build })
}

/// What a parsed analyzer reply says is unused.
pub fn unused_deps_from_json(reply: &serde_json::Value) -> (outcome: Option<OutcomeUnusedDeps>)
    ensures
        match outcome {
            Some(unused) => unused_in_reply(json_model(*reply)) == Some(unused@) && unused.wf(),
            None => unused_in_reply(json_model(*reply)) is None,
        },
{
    let success = match json_member(reply, "success") {
        Some(flag) => match flag.as_bool() {
            Some(success) => success,
            None => { return None; },
        },
        None => { return None; },
    };
    if success {
        return Some(OutcomeUnusedDeps::default());
    }
    let report_by_target = match json_member(reply, "unused_deps") {
        Some(reports) => reports,
        None => { return None; },
    };
    match json_first_member(report_by_target) {
        Some(report) => outcome_from_json(report),
        None => None,
    }
}

/// What `cargo udeps --output=json` printed, read as the unused dependencies
/// of the one target it reports on.
pub fn parse_udeps_stdout(stdout: &[u8]) -> (outcome: Option<OutcomeUnusedDeps>)
    ensures
        match outcome {
            Some(unused) => json_parse(stdout@) is Some && unused_in_reply(json_parse(stdout@)->0)
                == Some(unused@) && unused.wf(),
            None => json_parse(stdout@) is None || unused_in_reply(json_parse(stdout@)->0) is None,
        },
{
    match parse_json(stdout) {
        Some(reply) => unused_deps_from_json(&reply),
        None => None,
    }
}

} // verus!
