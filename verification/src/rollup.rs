//! Usage rollups: batches of per-key amounts that are applied exactly once.

use vstd::prelude::*;
use sha2::Digest;
use crate::order::{group_texts, is_grouping, text_keys};
use crate::text::{opt_str, opt_text, same_text, texts};

verus! {

// ---------------------------------------------------------------------------
// Digests
// ---------------------------------------------------------------------------

/// The SHA-256 digest of some bytes, in lower case hexadecimal.
pub uninterp spec fn sha256_hex_of(bytes: Seq<u8>) -> Seq<char>;

/// `sha2::Sha256::digest`, written with `{:x}`. The text is the named function of the
/// bytes alone.
#[verifier::external_body]
fn sha256_hex(bytes: &[u8]) -> (text: String)
    ensures
        text@ == sha256_hex_of(bytes@),
{
    format!("{:x}", sha2::Sha256::digest(bytes))
}

/// The digest of a batch, taken of its wire form.
pub fn usage_rollup_batch_digest(wire: &[u8]) -> (digest: String)
    ensures
        digest@ == sha256_hex_of(wire@),
{
    sha256_hex(wire)
}

/// The digest that older nodes stored for a batch, taken of its JSON form.
pub fn legacy_json_usage_rollup_batch_digest(json: &[u8]) -> (digest: String)
    ensures
        digest@ == sha256_hex_of(json@),
{
    sha256_hex(json)
}

// ---------------------------------------------------------------------------
// Markers
// ---------------------------------------------------------------------------

/// What a batch marker says about a batch.
#[derive(Debug, Clone, Copy, PartialEq, Eq, Structural)]
pub enum MarkerDecision {
    /// The marker is new: the batch is applied.
    Apply,
    /// The batch was applied before.
    AlreadyApplied,
    /// The batch was applied before; its marker holds the digest that older nodes stored
    /// and gets the present one.
    UpgradeMarker,
    /// The marker belongs to another batch of the same id.
    Mismatch,
}

/// `existing` is the digest of a marker that was there before.
pub open spec fn marker_says(
    digest: Seq<char>,
    legacy: Seq<char>,
    existing: Option<Seq<char>>,
) -> MarkerDecision {
    match existing {
        None => MarkerDecision::Apply,
        Some(stored) => if stored == digest {
            MarkerDecision::AlreadyApplied
        } else if stored == legacy {
            MarkerDecision::UpgradeMarker
        } else {
            MarkerDecision::Mismatch
        },
    }
}

pub fn marker_decision(digest: &str, legacy: &str, existing: Option<&str>) -> (decision:
    MarkerDecision)
    ensures
        decision == marker_says(digest@, legacy@, opt_str(existing)),
{
    match existing {
        None => MarkerDecision::Apply,
        Some(stored) => if same_text(stored, digest) {
            MarkerDecision::AlreadyApplied
        } else if same_text(stored, legacy) {
            MarkerDecision::UpgradeMarker
        } else {
            MarkerDecision::Mismatch
        },
    }
}

/// What the marker of a batch says, given the two forms of the batch.
pub fn batch_decision(wire: &[u8], json: &[u8], existing: Option<&str>) -> (decision:
    MarkerDecision)
    ensures
        decision == marker_says(
            sha256_hex_of(wire@),
            sha256_hex_of(json@),
            opt_str(existing),
        ),
{
    let digest = usage_rollup_batch_digest(wire);
    let legacy = legacy_json_usage_rollup_batch_digest(json);
    marker_decision(digest.as_str(), legacy.as_str(), existing)
}

// ---------------------------------------------------------------------------
// Batches
// ---------------------------------------------------------------------------

/// A batch of per-key amounts. The amounts themselves are kept elsewhere: here stands the
/// key of each.
pub struct UsageRollupBatch {
    pub batch_id: String,
    pub source_event_count: u64,
    pub delta_keys: Vec<String>,
}

/// What came of applying batches.
#[derive(Debug, Clone, Copy, PartialEq, Eq, Structural)]
pub struct UsageRollupApplyReport {
    pub applied_batch_count: usize,
    pub already_applied_batch_count: usize,
    pub delta_count: usize,
    pub missing_key_delta_count: usize,
}

/// Why batches cannot be applied.
pub enum RollupError {
    SourceEventCount,
    DeltaCount,
    DigestMismatch { batch_id: String },
}

#[verifier::ext_equal]
pub enum RollupErrorView {
    SourceEventCount,
    DeltaCount,
    DigestMismatch { batch_id: Seq<char> },
}

impl View for RollupError {
    type V = RollupErrorView;

    open spec fn view(&self) -> RollupErrorView {
        match *self {
            RollupError::SourceEventCount => RollupErrorView::SourceEventCount,
            RollupError::DeltaCount => RollupErrorView::DeltaCount,
            RollupError::DigestMismatch { batch_id } => RollupErrorView::DigestMismatch {
                batch_id: batch_id@,
            },
        }
    }
}

impl RollupError {
    /// The text of an error on the counts of a batch.
    pub fn count_message(&self) -> (message: Option<&'static str>)
        ensures
            match *self {
                RollupError::SourceEventCount => opt_str(message) == Some(
                    "usage rollup batch source_event_count exceeds i64"@,
                ),
                RollupError::DeltaCount => opt_str(message) == Some(
                    "usage rollup batch delta count exceeds i64"@,
                ),
                RollupError::DigestMismatch { .. } => message is None,
            },
    {
        match self {
            RollupError::SourceEventCount => Some(
                "usage rollup batch source_event_count exceeds i64",
            ),
            RollupError::DeltaCount => Some("usage rollup batch delta count exceeds i64"),
            RollupError::DigestMismatch { .. } => None,
        }
    }
}

/// What is wrong with the counts of a batch, if anything.
pub open spec fn counts_error(batch: UsageRollupBatch) -> Option<RollupErrorView> {
    if batch.source_event_count > i64::MAX {
        Some(RollupErrorView::SourceEventCount)
    } else if batch.delta_keys.len() > i64::MAX {
        Some(RollupErrorView::DeltaCount)
    } else {
        None
    }
}

/// The counts that a marker stores: the source events and the amounts of a batch.
pub fn marker_counts(batch: &UsageRollupBatch) -> (result: Result<(i64, i64), RollupError>)
    ensures
        match result {
            Ok(counts) => counts.0 == batch.source_event_count && counts.1
                == batch.delta_keys.len(),
            Err(error) => counts_error(*batch) == Some(error@),
        },
        result is Ok == (counts_error(*batch) is None),
{
    if batch.source_event_count > 9223372036854775807 {
        return Err(RollupError::SourceEventCount);
    }
    if batch.delta_keys.len() as u64 > 9223372036854775807 {
        return Err(RollupError::DeltaCount);
    }
    Ok((batch.source_event_count as i64, batch.delta_keys.len() as i64))
}

pub open spec fn plus(a: usize, b: usize) -> usize {
    if a + b > usize::MAX {
        usize::MAX
    } else {
        (a + b) as usize
    }
}

/// The positions of the amounts of one batch.
pub open spec fn batch_refs(batch: usize, count: nat) -> Seq<(usize, usize)> {
    Seq::new(count, |i: int| (batch, i as usize))
}

/// A run over batches inside one transaction.
pub struct RollupRun {
    pub report: UsageRollupApplyReport,
    /// The keys of the amounts of the batches that are applied, in their order.
    pub delta_keys: Vec<String>,
    /// Where each of them stands: the batch and the place in it.
    pub delta_refs: Vec<(usize, usize)>,
    pub applied_batch_ids: Vec<String>,
    /// The batches whose marker gets the present digest.
    pub upgraded_batch_ids: Vec<String>,
    /// The number of batches seen.
    pub seen: usize,
}

/// A run over batches.
#[verifier::ext_equal]
pub struct RunView {
    pub report: UsageRollupApplyReport,
    pub delta_keys: Seq<Seq<char>>,
    pub delta_refs: Seq<(usize, usize)>,
    pub applied_batch_ids: Seq<Seq<char>>,
    pub upgraded_batch_ids: Seq<Seq<char>>,
    pub seen: usize,
}

impl View for RollupRun {
    type V = RunView;

    open spec fn view(&self) -> RunView {
        RunView {
            report: self.report,
            delta_keys: texts(self.delta_keys@),
            delta_refs: self.delta_refs@,
            applied_batch_ids: texts(self.applied_batch_ids@),
            upgraded_batch_ids: texts(self.upgraded_batch_ids@),
            seen: self.seen,
        }
    }
}

pub open spec fn fresh_run() -> RunView {
    RunView {
        report: UsageRollupApplyReport {
            applied_batch_count: 0,
            already_applied_batch_count: 0,
            delta_count: 0,
            missing_key_delta_count: 0,
        },
        delta_keys: Seq::empty(),
        delta_refs: Seq::empty(),
        applied_batch_ids: Seq::empty(),
        upgraded_batch_ids: Seq::empty(),
        seen: 0,
    }
}

/// The run after a batch; a mismatch ends the run.
pub open spec fn after_batch(run: RunView, batch: UsageRollupBatch, decision: MarkerDecision) -> Result<
    RunView,
    RollupErrorView,
> {
    match counts_error(batch) {
        Some(error) => Err(error),
        None => match decision {
            MarkerDecision::Apply => Ok(
                RunView {
                    report: UsageRollupApplyReport {
                        applied_batch_count: plus(run.report.applied_batch_count, 1),
                        delta_count: plus(run.report.delta_count, batch.delta_keys.len()),
                        ..run.report
                    },
                    delta_keys: run.delta_keys + texts(batch.delta_keys@),
                    delta_refs: run.delta_refs + batch_refs(run.seen, batch.delta_keys@.len()),
                    applied_batch_ids: run.applied_batch_ids.push(batch.batch_id@),
                    seen: (run.seen + 1) as usize,
                    ..run
                },
            ),
            MarkerDecision::Mismatch => Err(
                RollupErrorView::DigestMismatch { batch_id: batch.batch_id@ },
            ),
            _ => Ok(
                RunView {
                    report: UsageRollupApplyReport {
                        already_applied_batch_count: plus(
                            run.report.already_applied_batch_count,
                            1,
                        ),
                        ..run.report
                    },
                    upgraded_batch_ids: if decision == MarkerDecision::UpgradeMarker {
                        run.upgraded_batch_ids.push(batch.batch_id@)
                    } else {
                        run.upgraded_batch_ids
                    },
                    seen: (run.seen + 1) as usize,
                    ..run
                },
            ),
        },
    }
}

impl RollupRun {
    pub fn start() -> (run: Self)
        ensures
            run@ == fresh_run(),
    {
        let run = RollupRun {
            report: UsageRollupApplyReport {
                applied_batch_count: 0,
                already_applied_batch_count: 0,
                delta_count: 0,
                missing_key_delta_count: 0,
            },
            delta_keys: Vec::new(),
            delta_refs: Vec::new(),
            applied_batch_ids: Vec::new(),
            upgraded_batch_ids: Vec::new(),
            seen: 0,
        };
        assert(run@ =~= fresh_run());
        run
    }

    /// Takes the next batch.
    pub fn apply_usage_rollup_batch(&mut self, batch: &UsageRollupBatch, decision: MarkerDecision) -> (result:
        Result<(), RollupError>)
        requires
            old(self).seen < usize::MAX,
        ensures
            match result {
                Ok(_) => after_batch(old(self)@, *batch, decision) == Ok::<
                    RunView,
                    RollupErrorView,
                >(final(self)@),
                Err(error) => *final(self) == *old(self) && after_batch(
                    old(self)@,
                    *batch,
                    decision,
                ) == Err::<RunView, RollupErrorView>(error@),
            },
    {
        if let Err(error) = marker_counts(batch) {
            return Err(error);
        }
        match decision {
            MarkerDecision::Mismatch => {
                return Err(RollupError::DigestMismatch { batch_id: batch.batch_id.clone() });
            },
            MarkerDecision::AlreadyApplied | MarkerDecision::UpgradeMarker => {
                let upgrades = match decision {
                    MarkerDecision::UpgradeMarker => true,
                    _ => false,
                };
                if upgrades {
                    let ghost ids = texts(self.upgraded_batch_ids@);
                    self.upgraded_batch_ids.push(batch.batch_id.clone());
                    assert(texts(self.upgraded_batch_ids@) =~= ids.push(batch.batch_id@));
                }
                self.report.already_applied_batch_count =
                self.report.already_applied_batch_count.saturating_add(1);
                self.seen = self.seen + 1;
                return Ok(());
            },
            MarkerDecision::Apply => {},
        }
        self.report.applied_batch_count = self.report.applied_batch_count.saturating_add(1);
        self.report.delta_count = self.report.delta_count.saturating_add(batch.delta_keys.len());
        let ghost ids = texts(self.applied_batch_ids@);
        self.applied_batch_ids.push(batch.batch_id.clone());
        assert(texts(self.applied_batch_ids@) =~= ids.push(batch.batch_id@));
        let mut i: usize = 0;
        assert(texts(self.delta_keys@) =~= texts(old(self).delta_keys@) + texts(
            batch.delta_keys@,
        ).take(0));
        assert(self.delta_refs@ =~= old(self).delta_refs@ + batch_refs(self.seen, 0));
        while i < batch.delta_keys.len()
            invariant
                i <= batch.delta_keys.len(),
                self.seen == old(self).seen,
                self.upgraded_batch_ids == old(self).upgraded_batch_ids,
                self.report == (UsageRollupApplyReport {
                    applied_batch_count: plus(old(self).report.applied_batch_count, 1),
                    delta_count: plus(old(self).report.delta_count, batch.delta_keys.len()),
                    ..old(self).report
                }),
                texts(self.applied_batch_ids@) == texts(old(self).applied_batch_ids@).push(
                    batch.batch_id@,
                ),
                texts(self.delta_keys@) == texts(old(self).delta_keys@) + texts(
                    batch.delta_keys@,
                ).take(i as int),
                self.delta_refs@ == old(self).delta_refs@ + batch_refs(self.seen, i as nat),
            decreases batch.delta_keys.len() - i,
        {
            let ghost keys = texts(self.delta_keys@);
            self.delta_keys.push(batch.delta_keys[i].clone());
            self.delta_refs.push((self.seen, i));
            assert(texts(self.delta_keys@) =~= keys.push(batch.delta_keys@[i as int]@));
            assert(texts(batch.delta_keys@).take(i + 1) =~= texts(batch.delta_keys@).take(
                i as int,
            ).push(batch.delta_keys@[i as int]@));
            assert(texts(self.delta_keys@) =~= texts(old(self).delta_keys@) + texts(
                batch.delta_keys@,
            ).take(i + 1));
            assert(self.delta_refs@ =~= old(self).delta_refs@ + batch_refs(
                self.seen,
                (i + 1) as nat,
            ));
            i += 1;
        }
        assert(texts(batch.delta_keys@).take(i as int) =~= texts(batch.delta_keys@));
        self.seen = self.seen + 1;
        Ok(())
    }

    /// The amounts to be written: a row for each key, in alphabetical order, that lists
    /// where the key stands among the applied amounts.
    pub fn rows(&self) -> (rows: Vec<Vec<usize>>)
        ensures
            is_grouping(rows@, text_keys(texts(self.delta_keys@))),
    {
        group_texts(&self.delta_keys)
    }

    /// The report at the end: `rows` rows were to be written, `affected` were. The rest
    /// belonged to keys that are gone.
    pub fn finish(&self, rows: usize, affected: usize) -> (report: UsageRollupApplyReport)
        ensures
            report == (UsageRollupApplyReport {
                missing_key_delta_count: if rows > affected {
                    (rows - affected) as usize
                } else {
                    0
                },
                ..self.report
            }),
    {
        let missing: usize = if rows > affected {
            rows - affected
        } else {
            0
        };
        UsageRollupApplyReport {
            applied_batch_count: self.report.applied_batch_count,
            already_applied_batch_count: self.report.already_applied_batch_count,
            delta_count: self.report.delta_count,
            missing_key_delta_count: missing,
        }
    }
}

/// A batch with its two forms, and the digest of the marker that was there before the run.
pub struct MarkedBatch {
    pub batch: UsageRollupBatch,
    pub wire: Vec<u8>,
    pub json: Vec<u8>,
    pub existing: Option<String>,
}

/// The marker that batches of one run leave for an id: the digest of the last batch of that
/// id. A batch that was applied before leaves its present digest too.
pub open spec fn marker_left(inputs: Seq<MarkedBatch>, id: Seq<char>) -> Option<Seq<char>>
    decreases inputs.len(),
{
    if inputs.len() == 0 {
        None
    } else if inputs.last().batch.batch_id@ == id {
        Some(sha256_hex_of(inputs.last().wire@))
    } else {
        marker_left(inputs.drop_last(), id)
    }
}

/// The marker that the last batch of a list meets: what the batches before it left, else
/// what was there before the run.
pub open spec fn marker_met(inputs: Seq<MarkedBatch>) -> Option<Seq<char>> {
    match marker_left(inputs.drop_last(), inputs.last().batch.batch_id@) {
        Some(digest) => Some(digest),
        None => opt_text(inputs.last().existing),
    }
}

/// The decision on the last batch of a list.
pub open spec fn decision_on(inputs: Seq<MarkedBatch>) -> MarkerDecision {
    marker_says(
        sha256_hex_of(inputs.last().wire@),
        sha256_hex_of(inputs.last().json@),
        marker_met(inputs),
    )
}

/// The run after a list of batches, up to the first one that ends it.
pub open spec fn after_batches(inputs: Seq<MarkedBatch>) -> Result<RunView, RollupErrorView>
    decreases inputs.len(),
{
    if inputs.len() == 0 {
        Ok(fresh_run())
    } else {
        match after_batches(inputs.drop_last()) {
            Err(error) => Err(error),
            Ok(run) => after_batch(run, inputs.last().batch, decision_on(inputs)),
        }
    }
}

proof fn lemma_error_stays(inputs: Seq<MarkedBatch>, n: int)
    requires
        0 <= n <= inputs.len(),
        after_batches(inputs.take(n)) is Err,
    ensures
        after_batches(inputs) == after_batches(inputs.take(n)),
    decreases inputs.len(),
{
    if n == inputs.len() {
        assert(inputs.take(n) =~= inputs);
    } else {
        assert(inputs.drop_last().take(n) =~= inputs.take(n));
        lemma_error_stays(inputs.drop_last(), n);
    }
}

/// The position of the last batch of an id among the first `count`.
fn last_of_id(inputs: &Vec<MarkedBatch>, count: usize, id: &str) -> (position: Option<usize>)
    requires
        count <= inputs.len(),
    ensures
        match position {
            Some(at) => at < count && marker_left(inputs@.take(count as int), id@) == Some(
                sha256_hex_of(inputs@[at as int].wire@),
            ),
            None => marker_left(inputs@.take(count as int), id@) is None,
        },
{
    let mut i: usize = count;
    while i > 0
        invariant
            i <= count <= inputs.len(),
            marker_left(inputs@.take(count as int), id@) == marker_left(
                inputs@.take(i as int),
                id@,
            ),
        decreases i,
    {
        let ghost head = inputs@.take(i as int);
        assert(head.drop_last() =~= inputs@.take(i - 1));
        assert(head.last() == inputs@[i - 1]);
        i -= 1;
        if same_text(inputs[i].batch.batch_id.as_str(), id) {
            return Some(i);
        }
    }
    assert(inputs@.take(0) =~= Seq::<MarkedBatch>::empty());
    None
}

/// Applies a list of batches, all or none of them: with an error nothing is kept. A batch
/// whose id stands twice in the list meets the marker that the first one left.
pub fn apply_usage_rollup_batches_impl(inputs: &Vec<MarkedBatch>) -> (result: Result<
    RollupRun,
    RollupError,
>)
    ensures
        match result {
            Ok(run) => after_batches(inputs@) == Ok::<RunView, RollupErrorView>(run@),
            Err(error) => after_batches(inputs@) == Err::<RunView, RollupErrorView>(error@),
        },
{
    let mut run = RollupRun::start();
    let mut i: usize = 0;
    assert(inputs@.take(0) =~= Seq::<MarkedBatch>::empty());
    while i < inputs.len()
        invariant
            i <= inputs.len(),
            run.seen == i,
            after_batches(inputs@.take(i as int)) == Ok::<RunView, RollupErrorView>(run@),
        decreases inputs.len() - i,
    {
        let input = &inputs[i];
        let ghost head = inputs@.take(i + 1);
        assert(head.drop_last() =~= inputs@.take(i as int));
        assert(head.last() == *input);
        let decision = match last_of_id(inputs, i, input.batch.batch_id.as_str()) {
            Some(at) => {
                let left = usage_rollup_batch_digest(inputs[at].wire.as_slice());
                batch_decision(
                    input.wire.as_slice(),
                    input.json.as_slice(),
                    Some(left.as_str()),
                )
            },
            None => {
                let existing = match &input.existing {
                    Some(digest) => Some(digest.as_str()),
                    None => None,
                };
                batch_decision(input.wire.as_slice(), input.json.as_slice(), existing)
            },
        };
        assert(decision == decision_on(head));
        if let Err(error) = run.apply_usage_rollup_batch(&input.batch, decision) {
            proof {
                lemma_error_stays(inputs@, i + 1);
            }
            return Err(error);
        }
        i += 1;
    }
    assert(inputs@.take(i as int) =~= inputs@);
    Ok(run)
}

// ---------------------------------------------------------------------------
// Rows
// ---------------------------------------------------------------------------

/// The end of the chunk that starts at `start`.
pub open spec fn chunk_end(start: nat, len: nat, limit: nat) -> nat {
    if start + limit < len {
        start + limit
    } else {
        len
    }
}

/// The bounds of chunks of `limit` rows each; the last one may be shorter.
pub open spec fn chunks_from(start: nat, len: nat, limit: nat) -> Seq<(nat, nat)>
    decreases len - start,
{
    if start >= len || limit == 0 {
        Seq::empty()
    } else {
        seq![(start, chunk_end(start, len, limit))] + chunks_from(
            chunk_end(start, len, limit),
            len,
            limit,
        )
    }
}

pub open spec fn bounds_view(bounds: Seq<(usize, usize)>) -> Seq<(nat, nat)> {
    Seq::new(bounds.len(), |i: int| (bounds[i].0 as nat, bounds[i].1 as nat))
}

/// The chunks in which rows are written. A limit of nothing counts as one.
pub fn row_chunks(rows: usize, limit: usize) -> (bounds: Vec<(usize, usize)>)
    ensures
        bounds_view(bounds@) == chunks_from(
            0,
            rows as nat,
            if limit == 0 {
                1
            } else {
                limit as nat
            },
        ),
{
    let step: usize = if limit == 0 {
        1
    } else {
        limit
    };
    let mut bounds: Vec<(usize, usize)> = Vec::new();
    let mut start: usize = 0;
    let ghost all = chunks_from(0, rows as nat, step as nat);
    assert(bounds_view(bounds@) + all =~= all);
    while start < rows
        invariant
            start <= rows,
            step > 0,
            all == bounds_view(bounds@) + chunks_from(start as nat, rows as nat, step as nat),
        decreases rows - start,
    {
        let end: usize = if rows - start > step {
            start + step
        } else {
            rows
        };
        let ghost before = bounds_view(bounds@);
        let ghost rest = chunks_from(end as nat, rows as nat, step as nat);
        bounds.push((start, end));
        assert(bounds_view(bounds@) =~= before.push((start as nat, end as nat)));
        assert(before + (seq![(start as nat, end as nat)] + rest) =~= bounds_view(bounds@) + rest);
        start = end;
    }
    assert(bounds_view(bounds@) + Seq::<(nat, nat)>::empty() =~= bounds_view(bounds@));
    bounds
}

/// When a row counts as updated: when its key was last used, or now.
pub fn row_updated_at(last_used_at_ms: Option<i64>, applied_at_ms: i64) -> (at: i64)
    ensures
        at == match last_used_at_ms {
            Some(at) => at,
            None => applied_at_ms,
        },
{
    match last_used_at_ms {
        Some(at) => at,
        None => applied_at_ms,
    }
}

// ---------------------------------------------------------------------------
// Laws
// ---------------------------------------------------------------------------

/// A batch is applied once: with its own digest in the marker, new or old, it adds no
/// amounts.
pub proof fn law_batch_applies_once(
    run: RunView,
    batch: UsageRollupBatch,
    wire: Seq<u8>,
    json: Seq<u8>,
    stored: Seq<char>,
)
    requires
        counts_error(batch) is None,
        stored == sha256_hex_of(wire) || stored == sha256_hex_of(json),
    ensures
        after_batch(
            run,
            batch,
            marker_says(sha256_hex_of(wire), sha256_hex_of(json), Some(stored)),
        ) matches Ok(after) && after.delta_keys == run.delta_keys && after.delta_refs
            == run.delta_refs && after.applied_batch_ids == run.applied_batch_ids
            && after.report.applied_batch_count == run.report.applied_batch_count
            && after.report.delta_count == run.report.delta_count,
{
}

/// Every batch of a list is either applied or was applied before.
pub proof fn law_every_batch_is_counted(inputs: Seq<MarkedBatch>)
    requires
        inputs.len() <= usize::MAX,
        after_batches(inputs) is Ok,
    ensures
        ({
            let run = after_batches(inputs)->Ok_0;
            &&& run.report.applied_batch_count + run.report.already_applied_batch_count
                == inputs.len()
            &&& run.applied_batch_ids.len() == run.report.applied_batch_count
            &&& run.seen == inputs.len()
        }),
    decreases inputs.len(),
{
    if inputs.len() > 0 {
        law_every_batch_is_counted(inputs.drop_last());
    }
}

/// Where every batch of a list has its marker already, the list adds nothing.
pub proof fn law_marked_batches_add_nothing(inputs: Seq<MarkedBatch>)
    requires
        inputs.len() <= usize::MAX,
        after_batches(inputs) is Ok,
        forall|i: int| 0 <= i < inputs.len() ==> (#[trigger] inputs[i]).existing is Some,
    ensures
        ({
            let run = after_batches(inputs)->Ok_0;
            &&& run.delta_keys.len() == 0
            &&& run.delta_refs.len() == 0
            &&& run.applied_batch_ids.len() == 0
            &&& run.report.applied_batch_count == 0
            &&& run.report.delta_count == 0
            &&& run.report.already_applied_batch_count == inputs.len()
        }),
    decreases inputs.len(),
{
    if inputs.len() > 0 {
        let head = inputs.drop_last();
        assert forall|i: int| 0 <= i < head.len() implies (#[trigger] head[i]).existing is Some by {
            assert(head[i] == inputs[i]);
        }
        law_marked_batches_add_nothing(head);
        assert(inputs[inputs.len() - 1].existing is Some);
        law_every_batch_is_counted(inputs);
    }
}

/// An id that was applied has left its marker.
proof fn lemma_applied_leaves_marker(inputs: Seq<MarkedBatch>, id: Seq<char>)
    requires
        after_batches(inputs) is Ok,
        (after_batches(inputs)->Ok_0).applied_batch_ids.contains(id),
    ensures
        marker_left(inputs, id) is Some,
    decreases inputs.len(),
{
    if inputs.len() > 0 {
        let before = (after_batches(inputs.drop_last())->Ok_0).applied_batch_ids;
        let after = (after_batches(inputs)->Ok_0).applied_batch_ids;
        if inputs.last().batch.batch_id@ != id {
            let k = after.index_of(id);
            assert(after[k] == id);
            assert(before[k] == id);
            assert(before.contains(id));
            lemma_applied_leaves_marker(inputs.drop_last(), id);
        }
    }
}

/// No id is applied twice in a run.
pub proof fn law_each_id_applies_once(inputs: Seq<MarkedBatch>)
    requires
        after_batches(inputs) is Ok,
    ensures
        (after_batches(inputs)->Ok_0).applied_batch_ids.no_duplicates(),
    decreases inputs.len(),
{
    if inputs.len() > 0 {
        law_each_id_applies_once(inputs.drop_last());
        let before = (after_batches(inputs.drop_last())->Ok_0).applied_batch_ids;
        let id = inputs.last().batch.batch_id@;
        if before.contains(id) {
            lemma_applied_leaves_marker(inputs.drop_last(), id);
        }
        let after = (after_batches(inputs)->Ok_0).applied_batch_ids;
        assert forall|i: int, j: int| 0 <= i < after.len() && 0 <= j < after.len() && i
            != j implies after[i] != after[j] by {
            if i < before.len() && j < before.len() {
                assert(after[i] == before[i] && after[j] == before[j]);
            } else if i < before.len() {
                assert(before.contains(before[i]));
            } else if j < before.len() {
                assert(before.contains(before[j]));
            }
        }
    }
}

/// A marker with another digest stops the run.
pub proof fn law_foreign_marker_stops(digest: Seq<char>, legacy: Seq<char>, stored: Seq<char>)
    requires
        stored != digest,
        stored != legacy,
    ensures
        marker_says(digest, legacy, Some(stored)) == MarkerDecision::Mismatch,
{
}

/// Every chunk is followed by the next, none is empty, and together they cover all rows.
pub proof fn law_chunks_cover_everything(start: nat, len: nat, limit: nat)
    requires
        limit > 0,
        start <= len,
    ensures
        ({
            let chunks = chunks_from(start, len, limit);
            &&& start < len ==> chunks.len() > 0 && chunks[0].0 == start && chunks.last().1 == len
            &&& forall|i: int|
                0 <= i < chunks.len() ==> (#[trigger] chunks[i]).0 < chunks[i].1 && chunks[i].1
                    - chunks[i].0 <= limit
            &&& forall|i: int|
                0 < i < chunks.len() ==> (#[trigger] chunks[i]).0 == chunks[i - 1].1
        }),
    decreases len - start,
{
    if start < len {
        let end = chunk_end(start, len, limit);
        law_chunks_cover_everything(end, len, limit);
        let rest = chunks_from(end, len, limit);
        let chunks = chunks_from(start, len, limit);
        assert(chunks =~= seq![(start, end)] + rest);
        assert forall|i: int| 0 <= i < chunks.len() implies (#[trigger] chunks[i]).0 < chunks[i].1
            && chunks[i].1 - chunks[i].0 <= limit by {
            if i > 0 {
                assert(chunks[i] == rest[i - 1]);
            }
        }
        assert forall|i: int| 0 < i < chunks.len() implies (#[trigger] chunks[i]).0 == chunks[i
            - 1].1 by {
            assert(chunks[i] == rest[i - 1]);
            if i > 1 {
                assert(chunks[i - 1] == rest[i - 2]);
            }
        }
        if rest.len() > 0 {
            assert(chunks.last() == rest.last());
        }
    }
}

/// A batch without a marker is applied: all its amounts come behind those of the earlier
/// batches, in their order, and it is counted with them.
pub proof fn law_an_unmarked_batch_is_applied(
    run: RunView,
    batch: UsageRollupBatch,
    digest: Seq<char>,
    legacy: Seq<char>,
)
    requires
        batch.source_event_count <= i64::MAX,
        batch.delta_keys@.len() <= i64::MAX,
        run.report.applied_batch_count < usize::MAX,
        run.report.delta_count + batch.delta_keys@.len() <= usize::MAX,
    ensures
        after_batch(run, batch, marker_says(digest, legacy, None)) matches Ok(after) && {
            &&& after.delta_keys == run.delta_keys + texts(batch.delta_keys@)
            &&& after.delta_refs.len() == run.delta_refs.len() + batch.delta_keys@.len()
            &&& after.applied_batch_ids == run.applied_batch_ids.push(batch.batch_id@)
            &&& after.upgraded_batch_ids == run.upgraded_batch_ids
            &&& after.report.applied_batch_count == run.report.applied_batch_count + 1
            &&& after.report.already_applied_batch_count == run.report.already_applied_batch_count
            &&& after.report.delta_count == run.report.delta_count + batch.delta_keys@.len()
        },
{
}

/// A batch whose marker holds the old digest has it replaced, and one whose marker holds the
/// present one does not; a count that does not fit stops the run, whatever the marker.
pub proof fn law_what_a_marker_leads_to(
    run: RunView,
    batch: UsageRollupBatch,
    digest: Seq<char>,
    legacy: Seq<char>,
)
    ensures
        batch.source_event_count > i64::MAX ==> after_batch(
            run,
            batch,
            marker_says(digest, legacy, None),
        ) is Err,
        counts_error(batch) is None ==> (after_batch(
            run,
            batch,
            marker_says(digest, legacy, Some(digest)),
        ) matches Ok(after) && after.upgraded_batch_ids == run.upgraded_batch_ids),
        counts_error(batch) is None && legacy != digest ==> (after_batch(
            run,
            batch,
            marker_says(digest, legacy, Some(legacy)),
        ) matches Ok(after) && after.upgraded_batch_ids == run.upgraded_batch_ids.push(
            batch.batch_id@,
        )),
{
}

/// Each amount is found again: its place names the batch that brought it and where it stands
/// there.
pub proof fn law_every_amount_is_found_again(inputs: Seq<MarkedBatch>)
    requires
        inputs.len() <= usize::MAX,
        after_batches(inputs) is Ok,
    ensures
        ({
            let run = after_batches(inputs)->Ok_0;
            &&& run.delta_refs.len() == run.delta_keys.len()
            &&& forall|k: int|
                0 <= k < run.delta_refs.len() ==> {
                    let place = #[trigger] run.delta_refs[k];
                    &&& place.0 < inputs.len()
                    &&& place.1 < inputs[place.0 as int].batch.delta_keys@.len()
                    &&& inputs[place.0 as int].batch.delta_keys@[place.1 as int]@
                        == run.delta_keys[k]
                }
        }),
    decreases inputs.len(),
{
    if inputs.len() > 0 {
        let head = inputs.drop_last();
        law_every_amount_is_found_again(head);
        law_every_batch_is_counted(head);
        let before = after_batches(head)->Ok_0;
        let run = after_batches(inputs)->Ok_0;
        let batch = inputs.last().batch;
        assert(before.seen == head.len());
        assert(run.delta_refs.len() == run.delta_keys.len());
        assert forall|k: int| 0 <= k < run.delta_refs.len() implies {
            let place = #[trigger] run.delta_refs[k];
            &&& place.0 < inputs.len()
            &&& place.1 < inputs[place.0 as int].batch.delta_keys@.len()
            &&& inputs[place.0 as int].batch.delta_keys@[place.1 as int]@ == run.delta_keys[k]
        } by {
            if k < before.delta_refs.len() {
                assert(run.delta_refs[k] == before.delta_refs[k]);
                assert(run.delta_keys[k] == before.delta_keys[k]);
                let place = before.delta_refs[k];
                assert(head[place.0 as int] == inputs[place.0 as int]);
            } else {
                let i = k - before.delta_refs.len();
                assert(batch.delta_keys@.len() == batch.delta_keys.len());
                assert(run.delta_refs[k] == (before.seen, i as usize));
                assert(run.delta_keys[k] == texts(batch.delta_keys@)[i]);
            }
        }
    }
}

/// A batch that another of the same list brought before it is not applied again, and one
/// with another content under the same id stops the run.
pub proof fn law_a_repeated_batch_is_known(inputs: Seq<MarkedBatch>, i: int)
    requires
        0 <= i < inputs.len() - 1,
        inputs[i].batch.batch_id@ == inputs.last().batch.batch_id@,
        forall|k: int|
            i < k < inputs.len() - 1 ==> (#[trigger] inputs[k]).batch.batch_id@
                != inputs.last().batch.batch_id@,
    ensures
        decision_on(inputs) != MarkerDecision::Apply,
        sha256_hex_of(inputs[i].wire@) == sha256_hex_of(inputs.last().wire@) ==> decision_on(inputs)
            == MarkerDecision::AlreadyApplied,
        sha256_hex_of(inputs[i].wire@) != sha256_hex_of(inputs.last().wire@) && sha256_hex_of(
            inputs[i].wire@,
        ) != sha256_hex_of(inputs.last().json@) ==> decision_on(inputs) == MarkerDecision::Mismatch,
{
    let head = inputs.drop_last();
    assert forall|k: int| i < k < head.len() implies (#[trigger] head[k]).batch.batch_id@
        != inputs.last().batch.batch_id@ by {
        assert(head[k] == inputs[k]);
    }
    assert(head[i] == inputs[i]);
    lemma_marker_of_the_last(head, i, inputs.last().batch.batch_id@);
}

proof fn lemma_marker_of_the_last(inputs: Seq<MarkedBatch>, i: int, id: Seq<char>)
    requires
        0 <= i < inputs.len(),
        inputs[i].batch.batch_id@ == id,
        forall|k: int| i < k < inputs.len() ==> (#[trigger] inputs[k]).batch.batch_id@ != id,
    ensures
        marker_left(inputs, id) == Some(sha256_hex_of(inputs[i].wire@)),
    decreases inputs.len(),
{
    if i < inputs.len() - 1 {
        let head = inputs.drop_last();
        assert(inputs[inputs.len() - 1].batch.batch_id@ != id);
        assert forall|k: int| i < k < head.len() implies (#[trigger] head[k]).batch.batch_id@
            != id by {
            assert(head[k] == inputs[k]);
        }
        lemma_marker_of_the_last(head, i, id);
    }
}

/// Without an earlier batch of its id in the list, the stored marker decides.
pub proof fn law_the_stored_marker_decides(inputs: Seq<MarkedBatch>)
    requires
        inputs.len() > 0,
        forall|k: int|
            0 <= k < inputs.len() - 1 ==> (#[trigger] inputs[k]).batch.batch_id@
                != inputs.last().batch.batch_id@,
    ensures
        inputs.last().existing is None ==> decision_on(inputs) == MarkerDecision::Apply,
        inputs.last().existing is Some ==> decision_on(inputs) != MarkerDecision::Apply,
        inputs.last().existing matches Some(stored) ==> (stored@ == sha256_hex_of(
            inputs.last().wire@,
        ) ==> decision_on(inputs) == MarkerDecision::AlreadyApplied),
{
    let head = inputs.drop_last();
    assert forall|k: int| 0 <= k < head.len() implies (#[trigger] head[k]).batch.batch_id@
        != inputs.last().batch.batch_id@ by {
        assert(head[k] == inputs[k]);
    }
    lemma_no_marker_left(head, inputs.last().batch.batch_id@);
}

proof fn lemma_no_marker_left(inputs: Seq<MarkedBatch>, id: Seq<char>)
    requires
        forall|k: int| 0 <= k < inputs.len() ==> (#[trigger] inputs[k]).batch.batch_id@ != id,
    ensures
        marker_left(inputs, id) is None,
    decreases inputs.len(),
{
    if inputs.len() > 0 {
        let head = inputs.drop_last();
        assert(inputs[inputs.len() - 1].batch.batch_id@ != id);
        assert forall|k: int| 0 <= k < head.len() implies (#[trigger] head[k]).batch.batch_id@
            != id by {
            assert(head[k] == inputs[k]);
        }
        lemma_no_marker_left(head, id);
    }
}

} // verus!
