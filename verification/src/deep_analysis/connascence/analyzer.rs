//! Connascence analyzer: runs every detector and keeps the findings that
//! reach the configured minimum strength.
use vstd::prelude::*;
use super::algorithms::{
    detect_algorithm_connascence, detect_meaning_connascence, detect_name_connascence,
    detect_position_connascence, detect_type_connascence, findings_view, meaning_finding,
    position_finding,
};
use super::findings::{CouplingFinding, CouplingFindingView};
use super::types::{level, Strength};
use crate::deep_analysis::semantic_model::builder::SemanticModel;
use crate::deep_analysis::DeepAnalysisError;

verus! {

/// Configuration of the connascence analysis.
#[derive(Debug, Clone, Copy)]
pub struct AnalysisConfig {
    /// Minimum strength threshold for reporting findings
    pub min_strength: Strength,
}

impl Default for AnalysisConfig {
    fn default() -> (c: Self)
        ensures
            c.min_strength == Strength::Low,
    {
        AnalysisConfig { min_strength: Strength::Low }
    }
}

/// Connascence analyzer.
#[derive(Debug)]
pub struct ConnascenceAnalyzer {
    /// Configuration for detection thresholds
    config: AnalysisConfig,
}

/// Whether a finding reaches the minimum strength.
pub open spec fn reaches(min: Strength) -> spec_fn(CouplingFindingView) -> bool {
    |f: CouplingFindingView| level(f.strength) >= level(min)
}

/// Every finding that the detectors report on a model, in the order in
/// which the analyzer runs them (name, type, position, algorithm, meaning).
pub open spec fn detected_findings() -> Seq<CouplingFindingView> {
    seq![position_finding(), meaning_finding()]
}

impl ConnascenceAnalyzer {
    /// Create an analyzer with the default configuration (minimum strength low).
    pub fn new() -> (a: Self)
        ensures
            a.min_strength() == Strength::Low,
    {
        ConnascenceAnalyzer { config: AnalysisConfig::default() }
    }

    /// Minimum strength that a finding must reach to be reported.
    pub closed spec fn min_strength(&self) -> Strength {
        self.config.min_strength
    }

    /// Run the connascence analysis on a semantic model: every detector's
    /// findings, in detector order, that reach the minimum strength.
    pub fn analyze(&self, model: &SemanticModel) -> (r: Result<Vec<CouplingFinding>, DeepAnalysisError>)
        ensures
            r is Ok,
            r matches Ok(fs) ==> findings_view(fs@) == detected_findings().filter(
                reaches(self.min_strength()),
            ),
    {
        let mut all: Vec<CouplingFinding> = Vec::new();
        let mut f1 = detect_name_connascence(model);
        let mut f2 = detect_type_connascence(model);
        let mut f3 = detect_position_connascence(model);
        let mut f4 = detect_algorithm_connascence(model);
        let mut f5 = detect_meaning_connascence(model);
        let ghost s3 = f3@;
        let ghost s5 = f5@;
        all.append(&mut f1);
        all.append(&mut f2);
        all.append(&mut f3);
        all.append(&mut f4);
        all.append(&mut f5);
        proof {
            let v3 = findings_view(s3);
            let v5 = findings_view(s5);
            assert(v3.len() == 1);
            assert(v5.len() == 1);
            assert(v3[0] == s3[0]@);
            assert(v5[0] == s5[0]@);
            assert(all@ =~= s3 + s5);
        }
        assert(findings_view(all@) =~= detected_findings());
        let ghost all_v = findings_view(all@);
        let min = self.config.min_strength.level();
        let mut out: Vec<CouplingFinding> = Vec::new();
        let ghost pred = reaches(self.min_strength());
        for f in it: all.into_iter()
            invariant
                it.seq() == all@,
                all_v == findings_view(all@),
                min == level(self.config.min_strength),
                pred == reaches(self.min_strength()),
                findings_view(out@) == all_v.take(it.index() as int).filter(pred),
        {
            proof {
                let i = it.index() as int;
                assert(all_v.take(i + 1) =~= all_v.take(i).push(all_v[i]));
                all_v.take(i).lemma_filter_push(all_v[i], pred);
            }
            if f.strength.level() >= min {
                out.push(f);
                assert(findings_view(out@) =~= findings_view(out@.drop_last()).push(f@));
            }
        }
        assert(all_v.take(all_v.len() as int) =~= all_v);
        Ok(out)
    }
}

impl Default for ConnascenceAnalyzer {
    fn default() -> (a: Self)
        ensures
            a.min_strength() == Strength::Low,
    {
        ConnascenceAnalyzer::new()
    }
}

} // verus!
