//! The pipeline driver: sequences the four compilation stages and turns
//! their reports into one artifact-or-failure verdict.
//!
//! The stages themselves (preprocess, parse, check, generate) are external
//! collaborators. Whoever runs them holds their outputs and hands the driver
//! one [`StageReport`] per stage, in order; the driver decides, identically
//! for every stage, whether the run goes on, and aggregates every diagnostic
//! in emission order. The artifact the generation stage produced is released
//! only for a spotless run: any fatal report, and any diagnostic at all,
//! withholds it, so that one invocation surfaces the maximum diagnostic
//! information without ever handing back an unclean binary.

use vstd::prelude::*;

use crate::artifact::Artifact;
use crate::diag::{Diagnostic, Stage, StageReport, report_diags, report_fatal};

verus! {

/// Where one compilation run stands: the stage the driver expects a report
/// from next, or the end of the run.
#[derive(Clone, Copy, PartialEq, Eq, Structural, Debug)]
pub enum Phase {
    Running(Stage),
    Done,
}

/// The stage that follows `s` once `s` handed back usable output. The run is
/// over after generation.
pub open spec fn next_phase(s: Stage) -> Phase {
    match s {
        Stage::Preprocess => Phase::Running(Stage::Parse),
        Stage::Parse => Phase::Running(Stage::Check),
        Stage::Check => Phase::Running(Stage::Generate),
        Stage::Generate => Phase::Done,
    }
}

/// One driver transition: a fatal report ends the run at once — nothing is
/// left for a later stage to consume — while any other report, diagnostics
/// or not, moves the run to the following stage.
pub open spec fn step_phase(p: Phase, r: StageReport) -> Phase {
    match p {
        Phase::Running(_) => if report_fatal(r) {
            Phase::Done
        } else {
            next_phase(p->Running_0)
        },
        Phase::Done => Phase::Done,
    }
}

/// The stage a run that has absorbed `n` non-fatal reports expects next.
pub open spec fn stage_at(n: int) -> Stage {
    if n == 0 {
        Stage::Preprocess
    } else if n == 1 {
        Stage::Parse
    } else if n == 2 {
        Stage::Check
    } else {
        Stage::Generate
    }
}

/// The phase a run reaches after absorbing the reports of `rs`, in order.
pub open spec fn phase_after(rs: Seq<StageReport>) -> Phase
    decreases rs.len(),
{
    if rs.len() == 0 {
        Phase::Running(Stage::Preprocess)
    } else {
        step_phase(phase_after(rs.drop_last()), rs.last())
    }
}

/// Every diagnostic the reports of `rs` carry, concatenated in emission
/// order: stage order first, within-stage order kept, nothing deduplicated.
pub open spec fn transcript_diags(rs: Seq<StageReport>) -> Seq<Diagnostic>
    decreases rs.len(),
{
    if rs.len() == 0 {
        Seq::empty()
    } else {
        transcript_diags(rs.drop_last()) + report_diags(rs.last())
    }
}

/// Whether some report of `rs` was fatal.
pub open spec fn any_fatal(rs: Seq<StageReport>) -> bool {
    exists|i: int| 0 <= i < rs.len() && report_fatal(rs[i])
}

/// A transcript the driver can replay: at most one report per stage, and a
/// fatal report — which ends the run — only as the last one.
pub open spec fn valid_transcript(rs: Seq<StageReport>) -> bool {
    rs.len() <= 4 && forall|i: int| 0 <= i < rs.len() - 1 ==> !report_fatal(rs[i])
}

/// A run was clean: no stage failed and no diagnostic at all was emitted.
pub open spec fn transcript_clean(rs: Seq<StageReport>) -> bool {
    !any_fatal(rs) && transcript_diags(rs).len() == 0
}

/// The pipeline's verdict on a finished run. The artifact exists for the
/// caller exactly when every one of the four stages ran, none was fatal, no
/// diagnostic was emitted, and generation handed an artifact back; otherwise
/// the verdict is failure carrying the aggregated diagnostics in emission
/// order.
pub open spec fn compile_verdict(rs: Seq<StageReport>, artifact: Option<Artifact>) -> Result<
    Artifact,
    Seq<Diagnostic>,
> {
    if artifact is Some && rs.len() == 4 && transcript_clean(rs) {
        Ok(artifact->Some_0)
    } else {
        Err(transcript_diags(rs))
    }
}

/// One compilation run in progress: the phase it stands at, whether a fatal
/// report ended it, and every diagnostic absorbed so far, in emission order.
pub struct PipelineRun {
    pub phase: Phase,
    pub halted: bool,
    pub diags: Vec<Diagnostic>,
}

impl PipelineRun {
    /// A fresh run, expecting the preprocessing stage's report first.
    pub fn new() -> (r: PipelineRun)
        ensures
            r.phase == Phase::Running(Stage::Preprocess),
            !r.halted,
            r.diags@ == Seq::<Diagnostic>::empty(),
    {
        PipelineRun { phase: Phase::Running(Stage::Preprocess), halted: false, diags: Vec::new() }
    }

    /// Absorb one stage's report. The report's diagnostics are appended in
    /// order; a fatal report halts the run, any other moves it to the next
    /// stage — so a checking stage that merely emitted diagnostics still
    /// hands the run on to generation.
    pub fn advance(&mut self, report: StageReport)
        requires
            old(self).phase matches Phase::Running(_),
        ensures
            final(self).diags@ == old(self).diags@ + report_diags(report),
            final(self).phase == step_phase(old(self).phase, report),
            final(self).halted == (old(self).halted || report_fatal(report)),
    {
        let stage = match self.phase {
            Phase::Running(s) => s,
            Phase::Done => {
                proof {
                    assert(false);
                }
                Stage::Preprocess
            },
        };
        match report {
            StageReport::Success => {
                self.phase = Self::successor(stage);
                proof {
                    assert(self.diags@ =~= old(self).diags@ + report_diags(report));
                }
            },
            StageReport::Recoverable(mut d) => {
                self.diags.append(&mut d);
                self.phase = Self::successor(stage);
            },
            StageReport::Fatal(mut d) => {
                self.diags.append(&mut d);
                self.phase = Phase::Done;
                self.halted = true;
            },
        }
    }

    /// The phase that follows a non-fatal report of `stage`.
    fn successor(stage: Stage) -> (r: Phase)
        ensures
            r == next_phase(stage),
    {
        match stage {
            Stage::Preprocess => Phase::Running(Stage::Parse),
            Stage::Parse => Phase::Running(Stage::Check),
            Stage::Check => Phase::Running(Stage::Generate),
            Stage::Generate => Phase::Done,
        }
    }

    /// Settle the run: the artifact generation handed back (if any) is
    /// released only when the whole run finished, nothing halted it, and not
    /// one diagnostic was absorbed; otherwise every collected diagnostic
    /// comes back, in emission order, and the artifact is withheld.
    pub fn conclude(self, artifact: Option<Artifact>) -> (r: Result<Artifact, Vec<Diagnostic>>)
        ensures
            (r is Ok) <==> (artifact is Some && self.phase is Done && !self.halted
                && self.diags@.len() == 0),
            r is Ok ==> r->Ok_0 == artifact->Some_0,
            r is Err ==> r->Err_0@ == self.diags@,
    {
        if self.halted || self.diags.len() > 0 {
            return Err(self.diags);
        }
        match self.phase {
            Phase::Done => match artifact {
                Some(a) => Ok(a),
                None => Err(self.diags),
            },
            Phase::Running(_) => Err(self.diags),
        }
    }
}

/// Drive one full run from a transcript of stage reports, then settle the
/// verdict. Folds every report through [`PipelineRun::advance`] in order;
/// the result agrees with [`compile_verdict`] on the transcript.
pub fn compile(reports: Vec<StageReport>, artifact: Option<Artifact>) -> (r: Result<
    Artifact,
    Vec<Diagnostic>,
>)
    requires
        valid_transcript(reports@),
    ensures
        (r is Ok) <==> (compile_verdict(reports@, artifact) is Ok),
        r is Ok ==> r->Ok_0 == artifact->Some_0,
        r is Err ==> r->Err_0@ == transcript_diags(reports@),
{
    let ghost all = reports@;
    let mut run = PipelineRun::new();
    let mut rest = reports;
    let ghost mut processed: int = 0;
    proof {
        assert(all.take(0) =~= Seq::<StageReport>::empty());
    }
    while rest.len() > 0
        invariant
            0 <= processed <= all.len(),
            rest@ == all.skip(processed),
            valid_transcript(all),
            run.diags@ == transcript_diags(all.take(processed)),
            run.phase == phase_after(all.take(processed)),
            run.halted == any_fatal(all.take(processed)),
        decreases rest.len(),
    {
        proof {
            lemma_prefix_running(all, processed);
        }
        let report = rest.remove(0);
        proof {
            assert(all.take(processed + 1) =~= all.take(processed).push(all[processed]));
            lemma_fold_step(all.take(processed), all[processed]);
            assert(rest@ =~= all.skip(processed + 1));
        }
        run.advance(report);
        proof {
            processed = processed + 1;
        }
    }
    proof {
        assert(all.take(processed) =~= all);
        lemma_verdict_matches_machine(all, artifact);
    }
    run.conclude(artifact)
}

/// Folding one more report onto a transcript prefix steps the phase once,
/// appends that report's diagnostics, and keeps track of fatality.
proof fn lemma_fold_step(rs: Seq<StageReport>, r: StageReport)
    ensures
        phase_after(rs.push(r)) == step_phase(phase_after(rs), r),
        transcript_diags(rs.push(r)) == transcript_diags(rs) + report_diags(r),
        any_fatal(rs.push(r)) == (any_fatal(rs) || report_fatal(r)),
{
    let p = rs.push(r);
    assert(p.drop_last() =~= rs);
    assert(p.last() == r);
    if any_fatal(rs) {
        let i = choose|i: int| 0 <= i < rs.len() && report_fatal(rs[i]);
        assert(report_fatal(p[i]));
    }
    if report_fatal(r) {
        assert(report_fatal(p[rs.len() as int]));
    }
    if any_fatal(p) && !report_fatal(r) {
        let i = choose|i: int| 0 <= i < p.len() && report_fatal(p[i]);
        assert(report_fatal(rs[i]));
    }
}

/// While a valid transcript still has reports left, the run is in progress.
proof fn lemma_prefix_running(all: Seq<StageReport>, n: int)
    requires
        valid_transcript(all),
        0 <= n < all.len(),
    ensures
        phase_after(all.take(n)) matches Phase::Running(_),
{
    let front = all.take(n);
    assert(!any_fatal(front)) by {
        if any_fatal(front) {
            let i = choose|i: int| 0 <= i < front.len() && report_fatal(front[i]);
            assert(report_fatal(all[i]));
            assert(i < all.len() - 1);
        }
    }
    lemma_no_fatal_phase(front);
}

/// After a whole valid transcript is absorbed, the machine's settling
/// condition coincides with [`compile_verdict`]'s success condition.
proof fn lemma_verdict_matches_machine(all: Seq<StageReport>, artifact: Option<Artifact>)
    requires
        valid_transcript(all),
    ensures
        (artifact is Some && phase_after(all) is Done && !any_fatal(all) && transcript_diags(
            all,
        ).len() == 0) <==> (compile_verdict(all, artifact) is Ok),
{
    if any_fatal(all) {
    } else {
        lemma_no_fatal_phase(all);
        if all.len() == 4 {
            assert(phase_after(all) is Done);
        } else {
            assert(phase_after(all) matches Phase::Running(_));
        }
    }
}

/// Without a fatal report, the phase after `rs` is determined by how many
/// reports were absorbed: still running below four, done at four.
proof fn lemma_no_fatal_phase(rs: Seq<StageReport>)
    requires
        rs.len() <= 4,
        !any_fatal(rs),
    ensures
        rs.len() < 4 ==> phase_after(rs) == Phase::Running(stage_at(rs.len() as int)),
        rs.len() == 4 ==> phase_after(rs) == Phase::Done,
    decreases rs.len(),
{
    if rs.len() > 0 {
        let front = rs.drop_last();
        assert(!any_fatal(front)) by {
            if any_fatal(front) {
                let i = choose|i: int| 0 <= i < front.len() && report_fatal(front[i]);
                assert(report_fatal(rs[i]));
            }
        }
        lemma_no_fatal_phase(front);
        assert(!report_fatal(rs.last()));
    }
}

/// A run that a fatal stage report cut short — preprocessing or parsing with
/// nothing to hand on, or any other stage that failed outright — yields
/// failure for every possible artifact, and the diagnostics come back
/// exactly as emitted, in stage order.
pub proof fn lemma_fatal_report_rejects(rs: Seq<StageReport>, artifact: Option<Artifact>, i: int)
    requires
        0 <= i < rs.len(),
        report_fatal(rs[i]),
    ensures
        compile_verdict(rs, artifact) is Err,
        compile_verdict(rs, artifact)->Err_0 == transcript_diags(rs),
{
    assert(any_fatal(rs));
}

/// A checking stage that reported even one diagnostic poisons the run: the
/// driver still hands the run on to generation (see
/// [`lemma_check_diags_still_generate`]), but the verdict is failure — never
/// a successful artifact.
pub proof fn lemma_check_diags_reject(rs: Seq<StageReport>, artifact: Option<Artifact>, i: int)
    requires
        0 <= i < rs.len(),
        report_diags(rs[i]).len() > 0,
    ensures
        compile_verdict(rs, artifact) is Err,
{
    lemma_report_diags_included(rs, i);
}

/// Each report's diagnostics all stand in the transcript's aggregate.
proof fn lemma_report_diags_included(rs: Seq<StageReport>, i: int)
    requires
        0 <= i < rs.len(),
    ensures
        transcript_diags(rs).len() >= report_diags(rs[i]).len(),
    decreases rs.len(),
{
    if i + 1 < rs.len() {
        lemma_report_diags_included(rs.drop_last(), i);
        assert(rs.drop_last()[i] == rs[i]);
    }
}

/// A report from the checking stage that carries diagnostics without being
/// fatal still moves the run to generation, so that codegen diagnostics too
/// are visible in the same pass.
pub proof fn lemma_check_diags_still_generate(d: Seq<Diagnostic>, v: Vec<Diagnostic>)
    requires
        v@ == d,
    ensures
        step_phase(Phase::Running(Stage::Check), StageReport::Recoverable(v)) == Phase::Running(
            Stage::Generate,
        ),
{
}

/// Emission order is kept across every stage boundary: the aggregate list is
/// the diagnostics of any leading stages followed by those of the rest.
pub proof fn lemma_transcript_diags_split(rs: Seq<StageReport>, k: int)
    requires
        0 <= k <= rs.len(),
    ensures
        transcript_diags(rs) == transcript_diags(rs.take(k)) + transcript_diags(rs.skip(k)),
    decreases rs.len() - k,
{
    if k == rs.len() {
        assert(rs.take(k) =~= rs);
        assert(transcript_diags(rs.skip(k)) =~= Seq::<Diagnostic>::empty());
        assert(transcript_diags(rs) =~= transcript_diags(rs.take(k)) + transcript_diags(
            rs.skip(k),
        ));
    } else {
        lemma_transcript_diags_split(rs.drop_last(), k);
        assert(rs.drop_last().take(k) =~= rs.take(k));
        assert(rs.drop_last().skip(k) =~= rs.skip(k).drop_last());
        assert(rs.skip(k).last() == rs.last());
        assert(transcript_diags(rs) =~= transcript_diags(rs.take(k)) + transcript_diags(
            rs.skip(k),
        ));
    }
}

} // verus!
