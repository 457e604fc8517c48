//! The audit orchestrator. It decides which rules apply, which request comes
//! next and what each answer adds to the report. The caller makes the
//! requests and hands the answers back, one at a time.

use crate::attacks::{results_of, SecurityReport, SecurityReportView, TestResult, TestResultView};
use crate::error::{CddError, CddErrorView, ErrorCode};
use crate::probe::{plain_request, ProbeRequest, ProbeRequestView};
use crate::rules::{
    catalog, lemma_catalog_is_complete, lemma_rule_names_distinct, spec_catalog, Rule,
};
use crate::text::str_eq;
use crate::{ResponseContext, ResponseView, ScanScope};
use vstd::prelude::*;
use vstd::string::StringExecFns;

verus! {

/// What one run is asked to do.
#[derive(Debug)]
pub struct RatelConfig {
    /// The absolute URL of the target.
    pub target_url: String,
    /// The scopes whose rules are to run.
    pub scopes: Vec<ScanScope>,
    /// The identifiers of the rules to leave out.
    pub ignored_rules: Vec<String>,
    /// Kept for the caller; the engine does not act on it.
    pub failure_policy: String,
}

/// A `RatelConfig` as plain values. Scopes and ignored rules are sets: their
/// order and repetitions in the configuration do not matter.
pub struct ConfigView {
    pub target: Seq<char>,
    pub scopes: Set<ScanScope>,
    pub ignored: Set<Seq<char>>,
    pub failure_policy: Seq<char>,
}

/// The texts of a list of strings.
pub open spec fn texts_of(list: Seq<String>) -> Seq<Seq<char>> {
    Seq::new(list.len(), |i: int| list[i]@)
}

impl View for RatelConfig {
    type V = ConfigView;

    open spec fn view(&self) -> ConfigView {
        ConfigView {
            target: self.target_url@,
            scopes: self.scopes@.to_set(),
            ignored: texts_of(self.ignored_rules@).to_set(),
            failure_policy: self.failure_policy@,
        }
    }
}

/// Whether a rule runs under a configuration: its scope is asked for and its
/// identifier is not ignored.
pub open spec fn applies(config: ConfigView, rule: Rule) -> bool {
    config.scopes.contains(rule.spec_scope()) && !config.ignored.contains(rule.spec_id())
}

/// `applies` as a predicate on rules.
pub open spec fn applies_to(config: ConfigView) -> spec_fn(Rule) -> bool {
    |rule: Rule| applies(config, rule)
}

/// The rules that run under a configuration, in catalog order.
pub open spec fn planned(config: ConfigView) -> Seq<Rule> {
    spec_catalog().filter(applies_to(config))
}

impl RatelConfig {
    /// Whether the configuration asks for the scope.
    pub fn has_scope(&self, scope: ScanScope) -> (b: bool)
        ensures
            b == self@.scopes.contains(scope),
    {
        let mut i: usize = 0;
        while i < self.scopes.len()
            invariant
                i <= self.scopes.len(),
                forall|k: int| 0 <= k < i ==> self.scopes@[k] != scope,
            decreases self.scopes.len() - i,
        {
            if self.scopes[i] == scope {
                return true;
            }
            i += 1;
        }
        false
    }

    /// Whether the configuration ignores the rule of the given identifier.
    pub fn ignores(&self, id: &str) -> (b: bool)
        ensures
            b == self@.ignored.contains(id@),
    {
        let mut i: usize = 0;
        while i < self.ignored_rules.len()
            invariant
                i <= self.ignored_rules.len(),
                forall|k: int| 0 <= k < i ==> texts_of(self.ignored_rules@)[k] != id@,
            decreases self.ignored_rules.len() - i,
        {
            if str_eq(self.ignored_rules[i].as_str(), id) {
                assert(texts_of(self.ignored_rules@)[i as int] == id@);
                return true;
            }
            i += 1;
        }
        false
    }

    /// The rules that run under the configuration, in catalog order.
    pub fn applicable_rules(&self) -> (plan: Vec<Rule>)
        ensures
            plan@ == planned(self@),
    {
        let rules = catalog();
        let mut plan: Vec<Rule> = Vec::new();
        let mut i: usize = 0;
        proof {
            reveal(Seq::filter);
            assert(rules@.take(0) =~= Seq::<Rule>::empty());
        }
        while i < rules.len()
            invariant
                rules@ == spec_catalog(),
                i <= rules.len(),
                plan@ == rules@.take(i as int).filter(applies_to(self@)),
            decreases rules.len() - i,
        {
            let rule = rules[i];
            proof {
                reveal(Seq::filter);
                assert(rules@.take(i + 1).drop_last() =~= rules@.take(i as int));
                assert(rules@.take(i + 1).last() == rule);
            }
            if self.has_scope(rule.scope()) && !self.ignores(rule.id()) {
                plan.push(rule);
            }
            i += 1;
        }
        assert(rules@.take(i as int) =~= rules@);
        plan
    }
}

/// A run as plain values: its configuration, the baseline response once it
/// has come, and the results so far.
pub struct RunView {
    pub config: ConfigView,
    pub baseline: Option<ResponseView>,
    pub results: Seq<TestResultView>,
}

/// `done`, followed by the results on the baseline of the planned rules
/// that come next and judge the baseline, up to the first rule that needs a
/// request of its own.
pub open spec fn settled(plan: Seq<Rule>, baseline: ResponseView, done: Seq<TestResultView>)
    -> Seq<TestResultView>
    decreases plan.len() - done.len(),
{
    if done.len() < plan.len() && !plan[done.len() as int].spec_needs_probe() {
        settled(plan, baseline, done.push(plan[done.len() as int].outcome(baseline)))
    } else {
        done
    }
}

impl RunView {
    /// The rules of the run, in the order of their results.
    pub open spec fn plan(self) -> Seq<Rule> {
        planned(self.config)
    }

    /// The request that the run waits for: first the plain request for the
    /// target, then the request of each planned rule that needs its own.
    /// `None` once every planned rule has its result.
    pub open spec fn next_request(self) -> Option<ProbeRequestView> {
        if self.baseline is None {
            Some(plain_request(self.config.target))
        } else if self.results.len() < self.plan().len() {
            Some(self.plan()[self.results.len() as int].spec_request(self.config.target))
        } else {
            None
        }
    }

    /// The run after the answer to its pending request. The first answer
    /// becomes the baseline; a later one is judged by the rule that asked for
    /// it. Then every rule that follows and judges the baseline gets its
    /// result.
    pub open spec fn advanced(self, response: ResponseView) -> RunView {
        match self.baseline {
            None => RunView {
                config: self.config,
                baseline: Some(response),
                results: settled(self.plan(), response, Seq::empty()),
            },
            Some(baseline) => RunView {
                config: self.config,
                baseline: self.baseline,
                results: settled(
                    self.plan(),
                    baseline,
                    self.results.push(self.plan()[self.results.len() as int].outcome(response)),
                ),
            },
        }
    }

    /// What holds of every run between two requests: the target is not
    /// empty; the results are those of the first planned rules, each under
    /// the name of its rule; a rule that judges the baseline has the result
    /// that the baseline gives it; and the next rule without a result, if
    /// there is one, waits for a request of its own.
    pub open spec fn wf(self) -> bool {
        &&& self.config.target.len() > 0
        &&& self.results.len() <= self.plan().len()
        &&& forall|i: int|
            0 <= i < self.results.len() ==> (#[trigger] self.results[i]).name
                == self.plan()[i].spec_name()
        &&& match self.baseline {
            None => self.results.len() == 0,
            Some(baseline) => {
                &&& forall|i: int|
                    0 <= i < self.results.len() && !self.plan()[i].spec_needs_probe()
                        ==> #[trigger] self.results[i] == self.plan()[i].outcome(baseline)
                &&& self.results.len() == self.plan().len()
                    || self.plan()[self.results.len() as int].spec_needs_probe()
            },
        }
    }
}

/// Every planned rule runs under the configuration: its scope is asked for
/// and its identifier is not ignored.
pub proof fn lemma_planned_rules_apply(config: ConfigView, i: int)
    requires
        0 <= i < planned(config).len(),
    ensures
        applies(config, planned(config)[i]),
{
    spec_catalog().lemma_filter_pred(applies_to(config), i);
}

/// A rule that runs under the configuration is planned.
pub proof fn lemma_applying_rule_is_planned(config: ConfigView, rule: Rule)
    requires
        applies(config, rule),
    ensures
        planned(config).contains(rule),
{
    lemma_catalog_is_complete(rule);
    spec_catalog().lemma_filter_contains(applies_to(config), rule.spec_position());
}

/// A selection from rules in catalog order is in catalog order.
proof fn lemma_selection_keeps_order(
    rules: Seq<Rule>,
    select: spec_fn(Rule) -> bool,
    i: int,
    j: int,
)
    requires
        forall|a: int, b: int|
            0 <= a < b < rules.len() ==> (#[trigger] rules[a]).spec_position() < (
            #[trigger] rules[b]).spec_position(),
        0 <= i < j < rules.filter(select).len(),
    ensures
        rules.filter(select)[i].spec_position() < rules.filter(select)[j].spec_position(),
    decreases rules.len(),
{
    reveal(Seq::filter);
    if rules.len() > 0 {
        let front = rules.drop_last();
        let kept = front.filter(select);
        assert forall|a: int, b: int| 0 <= a < b < front.len() implies (
        #[trigger] front[a]).spec_position() < (#[trigger] front[b]).spec_position() by {
            assert(front[a] == rules[a] && front[b] == rules[b]);
        }
        if j < kept.len() {
            lemma_selection_keeps_order(front, select, i, j);
        } else {
            assert(rules.filter(select)[j] == rules.last());
            assert(rules.filter(select)[i] == kept[i]);
            assert(kept.contains(kept[i]));
            front.lemma_filter_contains_rev(select, kept[i]);
            let k = choose|k: int| 0 <= k < front.len() && front[k] == kept[i];
            assert(rules[k] == kept[i]);
            assert(rules[k].spec_position() < rules[rules.len() - 1].spec_position());
        }
    }
}

/// The planned rules stand in catalog order, and so the kernel rules before
/// the territory rules, whatever the order of the scopes in the
/// configuration. No rule is planned twice.
pub proof fn lemma_plan_in_catalog_order(config: ConfigView, i: int, j: int)
    requires
        0 <= i < j < planned(config).len(),
    ensures
        planned(config)[i].spec_position() < planned(config)[j].spec_position(),
        planned(config)[i] != planned(config)[j],
        planned(config)[j].spec_scope() == ScanScope::Kernel ==> planned(config)[i].spec_scope()
            == ScanScope::Kernel,
{
    lemma_selection_keeps_order(spec_catalog(), applies_to(config), i, j);
    lemma_catalog_is_complete(planned(config)[i]);
    lemma_catalog_is_complete(planned(config)[j]);
}

/// No planned rule bears the name of a rule that the configuration ignores.
pub proof fn lemma_ignored_rule_not_planned(config: ConfigView, rule: Rule, i: int)
    requires
        config.ignored.contains(rule.spec_id()),
        0 <= i < planned(config).len(),
    ensures
        planned(config)[i].spec_name() != rule.spec_name(),
{
    lemma_planned_rules_apply(config, i);
    if planned(config)[i].spec_name() == rule.spec_name() {
        lemma_rule_names_distinct(planned(config)[i], rule);
    }
}

/// A configuration without scopes plans no rule.
pub proof fn lemma_no_scope_no_rule(config: ConfigView)
    requires
        config.scopes == Set::<ScanScope>::empty(),
    ensures
        planned(config).len() == 0,
{
    if planned(config).len() > 0 {
        lemma_planned_rules_apply(config, 0);
    }
}

/// What `settled` adds to results that are in order: it keeps them as they
/// are, gives each further rule its result on the baseline, and stops at the
/// end of the plan or before a rule that needs a request of its own.
proof fn lemma_settled(plan: Seq<Rule>, baseline: ResponseView, done: Seq<TestResultView>)
    requires
        done.len() <= plan.len(),
    ensures
        done.len() <= settled(plan, baseline, done).len() <= plan.len(),
        forall|i: int|
            0 <= i < done.len() ==> #[trigger] settled(plan, baseline, done)[i] == done[i],
        forall|i: int|
            done.len() <= i < settled(plan, baseline, done).len() ==> !plan[i].spec_needs_probe()
                && #[trigger] settled(plan, baseline, done)[i] == plan[i].outcome(baseline),
        settled(plan, baseline, done).len() == plan.len() || plan[settled(
            plan,
            baseline,
            done,
        ).len() as int].spec_needs_probe(),
    decreases plan.len() - done.len(),
{
    if done.len() < plan.len() && !plan[done.len() as int].spec_needs_probe() {
        let next = done.push(plan[done.len() as int].outcome(baseline));
        let all = settled(plan, baseline, done);
        lemma_settled(plan, baseline, next);
        assert(all == settled(plan, baseline, next));
        assert forall|i: int| 0 <= i < done.len() implies #[trigger] all[i] == done[i] by {
            assert(next[i] == done[i]);
        }
        assert forall|i: int| done.len() <= i < all.len() implies !plan[i].spec_needs_probe()
            && #[trigger] all[i] == plan[i].outcome(baseline) by {
            if i == done.len() {
                assert(all[i] == next[i]);
            }
        }
    }
}

/// A run that has just begun is in order.
pub proof fn lemma_begun_run_is_wf(config: ConfigView)
    requires
        config.target.len() > 0,
    ensures
        (RunView { config, baseline: None, results: Seq::empty() }).wf(),
{
}

/// An answer keeps a run in order. It leaves the configuration as it is and
/// the results so far in their places, and only adds results after them: at
/// least one, unless the answer is the baseline.
pub proof fn lemma_advanced_run_is_wf(run: RunView, response: ResponseView)
    requires
        run.wf(),
        run.next_request() is Some,
    ensures
        run.advanced(response).wf(),
        run.advanced(response).config == run.config,
        run.advanced(response).baseline is Some,
        run.results.len() <= run.advanced(response).results.len(),
        run.baseline is Some ==> run.results.len() < run.advanced(response).results.len(),
        forall|i: int|
            0 <= i < run.results.len() ==> #[trigger] run.advanced(response).results[i]
                == run.results[i],
{
    let plan = run.plan();
    match run.baseline {
        None => {
            lemma_settled(plan, response, Seq::empty());
        },
        Some(baseline) => {
            let k = run.results.len() as int;
            let done = run.results.push(plan[k].outcome(response));
            lemma_settled(plan, baseline, done);
            let after = settled(plan, baseline, done);
            assert forall|i: int| 0 <= i < after.len() implies (#[trigger] after[i]).name
                == plan[i].spec_name() by {
                if i < done.len() {
                    assert(after[i] == done[i]);
                    if i < k {
                        assert(done[i] == run.results[i]);
                    }
                }
            }
            assert forall|i: int|
                0 <= i < after.len() && !plan[i].spec_needs_probe() implies #[trigger] after[i]
                == plan[i].outcome(baseline) by {
                if i < done.len() {
                    assert(after[i] == done[i]);
                    assert(i < k);
                    assert(done[i] == run.results[i]);
                }
            }
            assert forall|i: int| 0 <= i < run.results.len() implies #[trigger] after[i]
                == run.results[i] by {
                assert(after[i] == done[i]);
                assert(done[i] == run.results[i]);
            }
        },
    }
}

/// In every state of a run, no result bears the name of a rule that the
/// configuration ignores.
pub proof fn lemma_ignored_rule_has_no_result(run: RunView, rule: Rule, i: int)
    requires
        run.wf(),
        run.config.ignored.contains(rule.spec_id()),
        0 <= i < run.results.len(),
    ensures
        run.results[i].name != rule.spec_name(),
{
    lemma_ignored_rule_not_planned(run.config, rule, i);
}

/// In every state of a run whose configuration asks for no scope, there is
/// no result.
pub proof fn lemma_no_scope_no_result(run: RunView)
    requires
        run.wf(),
        run.config.scopes == Set::<ScanScope>::empty(),
    ensures
        run.results.len() == 0,
        run.baseline is Some ==> run.next_request() is None,
{
    lemma_no_scope_no_rule(run.config);
}

/// One run of the suite against one target, between two requests.
pub struct AuditRun {
    config: RatelConfig,
    plan: Vec<Rule>,
    baseline: Option<ResponseContext>,
    tests: Vec<TestResult>,
}

impl View for AuditRun {
    type V = RunView;

    closed spec fn view(&self) -> RunView {
        RunView {
            config: self.config@,
            baseline: match self.baseline {
                Some(response) => Some(response@),
                None => None,
            },
            results: results_of(self.tests@),
        }
    }
}

impl AuditRun {
    /// The plan is that of the configuration, and the run is in order.
    #[verifier::type_invariant]
    closed spec fn inv(&self) -> bool {
        self.plan@ == planned(self.config@) && self@.wf()
    }

    /// Starts a run. An empty target is refused before any request is
    /// planned; every other configuration starts a run that waits for the
    /// baseline response.
    pub fn begin(config: RatelConfig) -> (r: Result<AuditRun, CddError>)
        ensures
            match r {
                Ok(run) => config@.target.len() > 0 && run@.wf() && run@ == (RunView {
                    config: config@,
                    baseline: None,
                    results: Seq::empty(),
                }),
                Err(e) => config@.target.len() == 0 && e@ == (CddErrorView {
                    code: ErrorCode::InternalError,
                    details: "Target is empty"@,
                }),
            },
    {
        if config.target_url.as_str().is_empty() {
            return Err(CddError::InternalError(String::from_str("Target is empty")));
        }
        let plan = config.applicable_rules();
        proof {
            lemma_begun_run_is_wf(config@);
        }
        let run = AuditRun { config, plan, baseline: None, tests: Vec::new() };
        assert(run@.results =~= Seq::empty());
        Ok(run)
    }

    /// The request to make next, or `None` when the run is complete.
    pub fn pending(&self) -> (r: Option<ProbeRequest>)
        ensures
            self@.wf(),
            r is Some == self@.next_request() is Some,
            r matches Some(request) ==> Some(request@) == self@.next_request(),
    {
        proof {
            use_type_invariant(self);
        }
        let target = self.config.target_url.as_str();
        if self.baseline.is_none() {
            Some(ProbeRequest::plain(target))
        } else if self.tests.len() < self.plan.len() {
            Some(self.plan[self.tests.len()].request(target))
        } else {
            None
        }
    }

    /// Takes the outcome of the pending request. A failed request ends the
    /// run with the failure as it came. An answer advances the run.
    pub fn deliver(self, outcome: Result<ResponseContext, CddError>) -> (r: Result<
        AuditRun,
        CddError,
    >)
        requires
            self@.next_request() is Some,
        ensures
            match outcome {
                Ok(response) => r matches Ok(run) && run@.wf() && run@ == self@.advanced(
                    response@,
                ),
                Err(fault) => r matches Err(e) && e@ == fault@,
            },
    {
        proof {
            use_type_invariant(&self);
        }
        let response = match outcome {
            Ok(response) => response,
            Err(fault) => {
                return Err(fault);
            },
        };
        let ghost before = self@;
        let ghost after = before.advanced(response@);
        proof {
            lemma_advanced_run_is_wf(before, response@);
        }
        let AuditRun { config, plan, baseline, tests } = self;
        let mut tests = tests;
        let baseline = match baseline {
            None => {
                assert(results_of(tests@) =~= Seq::empty());
                response
            },
            Some(baseline) => {
                let result = plan[tests.len()].evaluate(&response);
                tests.push(result);
                assert(results_of(tests@) =~= before.results.push(
                    plan@[before.results.len() as int].outcome(response@),
                ));
                baseline
            },
        };
        while tests.len() < plan.len() && !plan[tests.len()].needs_probe()
            invariant
                tests.len() <= plan.len(),
                settled(plan@, baseline@, results_of(tests@)) == after.results,
            decreases plan.len() - tests.len(),
        {
            let ghost done = results_of(tests@);
            let result = plan[tests.len()].evaluate(&baseline);
            tests.push(result);
            assert(results_of(tests@) =~= done.push(plan@[done.len() as int].outcome(baseline@)));
        }
        let run = AuditRun { config, plan, baseline: Some(baseline), tests };
        assert(run@ == after);
        Ok(run)
    }

    /// The report of a complete run: the target as the configuration gave it,
    /// and one result for each planned rule, in plan order. No result bears
    /// the name of an ignored rule, and a configuration without scopes gives
    /// a report without results.
    pub fn into_report(self) -> (report: SecurityReport)
        requires
            self@.next_request() is None,
        ensures
            self@.wf(),
            report@ == (SecurityReportView { target: self@.config.target, tests: self@.results }),
            report@.tests.len() == self@.plan().len(),
            forall|i: int, rule: Rule|
                0 <= i < report@.tests.len() && self@.config.ignored.contains(rule.spec_id())
                    ==> (#[trigger] report@.tests[i]).name != #[trigger] rule.spec_name(),
            self@.config.scopes == Set::<ScanScope>::empty() ==> report@.tests.len() == 0,
    {
        proof {
            use_type_invariant(&self);
            assert forall|i: int, rule: Rule|
                0 <= i < self@.results.len() && self@.config.ignored.contains(
                    rule.spec_id(),
                ) implies (#[trigger] self@.results[i]).name != #[trigger] rule.spec_name() by {
                lemma_ignored_rule_has_no_result(self@, rule, i);
            }
            if self@.config.scopes == Set::<ScanScope>::empty() {
                lemma_no_scope_no_result(self@);
            }
        }
        SecurityReport { target: self.config.target_url, tests: self.tests }
    }
}

} // verus!
