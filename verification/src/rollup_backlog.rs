//! Rollups that wait on disk for the database to take them.

use vstd::prelude::*;
use crate::order::{key_views, sort_positions, sorted_positions};
use crate::paths::{inside, join_path};
use crate::text::{concat3, decimal, decimal_of, lemma_texts_push, list_has, texts};

verus! {

/// The directory of the backlog inside that of the journal.
pub fn backlog_root(usage_journal_dir: &str) -> (root: String)
    ensures
        root@ == inside(usage_journal_dir@, "control-rollups"@),
{
    join_path(usage_journal_dir, "control-rollups")
}

/// The directories of a backlog.
pub open spec fn backlog_dirs(root: Seq<char>) -> Seq<Seq<char>> {
    seq![
        inside(root, "active"@),
        inside(root, "sealed"@),
        inside(root, "consuming"@),
        inside(root, "bad"@),
    ]
}

pub fn create_dirs(root: &str) -> (dirs: Vec<String>)
    ensures
        texts(dirs@) == backlog_dirs(root@),
{
    let mut dirs: Vec<String> = Vec::new();
    dirs.push(join_path(root, "active"));
    dirs.push(join_path(root, "sealed"));
    dirs.push(join_path(root, "consuming"));
    dirs.push(join_path(root, "bad"));
    assert(texts(dirs@) =~= backlog_dirs(root@));
    dirs
}

/// A file of the backlog that is being applied.
pub struct ClaimedRollupBacklogFile {
    pub path: String,
    pub sealed_path: String,
}

impl ClaimedRollupBacklogFile {
    /// Where the file lies while it is applied.
    pub fn path(&self) -> (path: &str)
        ensures
            path@ == self.path@,
    {
        self.path.as_str()
    }
}

/// What a scan of the backlog found.
pub struct UsageRollupBacklogLoadReport {
    pub sealed_file_count: usize,
    pub loaded_file_count: usize,
    pub loaded_batch_count: usize,
    pub quarantined_file_count: usize,
    pub bad_file_samples: Vec<String>,
}

/// How many bad files a report names.
pub const MAX_SAMPLES: usize = 8;

/// The samples after one more: only a new one is kept, and only while there is room.
pub open spec fn with_sample(samples: Seq<Seq<char>>, value: Seq<char>) -> Seq<Seq<char>> {
    if samples.len() >= MAX_SAMPLES || samples.contains(value) {
        samples
    } else {
        samples.push(value)
    }
}

pub fn push_sample(samples: &mut Vec<String>, value: String)
    ensures
        texts(final(samples)@) == with_sample(texts(old(samples)@), value@),
{
    broadcast use lemma_texts_push;

    if samples.len() >= MAX_SAMPLES || list_has(samples, value.as_str()) {
        return;
    }
    samples.push(value);
}

/// A sum that stops at the largest number.
pub open spec fn capped(a: usize, b: usize) -> usize {
    if a + b > usize::MAX {
        usize::MAX
    } else {
        (a + b) as usize
    }
}

impl UsageRollupBacklogLoadReport {
    /// The report before any of `sealed` files was read.
    pub fn start(sealed: usize) -> (report: Self)
        ensures
            report.sealed_file_count == sealed,
            report.loaded_file_count == 0,
            report.loaded_batch_count == 0,
            report.quarantined_file_count == 0,
            report.bad_file_samples@ == Seq::<String>::empty(),
    {
        UsageRollupBacklogLoadReport {
            sealed_file_count: sealed,
            loaded_file_count: 0,
            loaded_batch_count: 0,
            quarantined_file_count: 0,
            bad_file_samples: Vec::new(),
        }
    }

    /// One file was read.
    pub fn loaded(&mut self, batches: usize)
        ensures
            *final(self) == (UsageRollupBacklogLoadReport {
                loaded_file_count: capped(old(self).loaded_file_count, 1),
                loaded_batch_count: capped(old(self).loaded_batch_count, batches),
                ..*old(self)
            }),
    {
        self.loaded_file_count = self.loaded_file_count.saturating_add(1);
        self.loaded_batch_count = self.loaded_batch_count.saturating_add(batches);
    }

    /// One file could not be read and was put aside.
    pub fn quarantined(&mut self, bad_path: String)
        ensures
            final(self).sealed_file_count == old(self).sealed_file_count,
            final(self).loaded_file_count == old(self).loaded_file_count,
            final(self).loaded_batch_count == old(self).loaded_batch_count,
            final(self).quarantined_file_count == capped(old(self).quarantined_file_count, 1),
            texts(final(self).bad_file_samples@) == with_sample(
                texts(old(self).bad_file_samples@),
                bad_path@,
            ),
    {
        self.quarantined_file_count = self.quarantined_file_count.saturating_add(1);
        push_sample(&mut self.bad_file_samples, bad_path);
    }
}

/// A file of the backlog's directory, and its number where its name has one.
pub struct BacklogFile {
    pub name: String,
    pub sequence: Option<u64>,
}

pub open spec fn is_numbered(file: BacklogFile) -> bool {
    file.sequence is Some
}

/// The files of the backlog with a number.
pub open spec fn numbered(files: Seq<BacklogFile>) -> Seq<BacklogFile> {
    files.filter(|file: BacklogFile| is_numbered(file))
}

pub open spec fn sequence_keys(files: Seq<BacklogFile>) -> Seq<Seq<i128>> {
    files.map_values(|file: BacklogFile| seq![file.sequence->0 as i128])
}

/// `names` are the names of `files`, the lowest number first; equal numbers keep their order.
pub open spec fn in_sequence(names: Seq<Seq<char>>, files: Seq<BacklogFile>) -> bool {
    exists|order: Seq<usize>| #[trigger]
        sorted_positions(sequence_keys(files), order) && names == order.map_values(
            |i: usize| files[i as int].name@,
        )
}

proof fn lemma_numbered_push(files: Seq<BacklogFile>, file: BacklogFile)
    ensures
        numbered(files.push(file)) == (if is_numbered(file) {
            numbered(files).push(file)
        } else {
            numbered(files)
        }),
{
    reveal(Seq::filter);
    assert(files.push(file).drop_last() =~= files);
}

/// The files that wait, in the order in which they are applied.
pub fn pending_sealed_paths(files: &Vec<BacklogFile>) -> (names: Vec<String>)
    ensures
        in_sequence(texts(names@), numbered(files@)),
{
    let mut keys: Vec<Vec<i128>> = Vec::new();
    let mut places: Vec<usize> = Vec::new();
    let mut i: usize = 0;
    assert(files@.take(0) =~= Seq::<BacklogFile>::empty());
    assert(numbered(files@.take(0)) =~= Seq::<BacklogFile>::empty()) by {
        reveal(Seq::filter);
    }
    while i < files.len()
        invariant
            i <= files.len(),
            key_views(keys@) == sequence_keys(numbered(files@.take(i as int))),
            places@.len() == numbered(files@.take(i as int)).len(),
            forall|j: int|
                0 <= j < places@.len() ==> (#[trigger] places@[j]) < files.len()
                    && files@[places@[j] as int] == numbered(files@.take(i as int))[j],
        decreases files.len() - i,
    {
        let ghost head = files@.take(i as int);
        assert(files@.take(i + 1) =~= head.push(files@[i as int]));
        proof {
            lemma_numbered_push(head, files@[i as int]);
        }
        if let Some(sequence) = files[i].sequence {
            let mut key: Vec<i128> = Vec::new();
            key.push(sequence as i128);
            assert(key@ =~= seq![sequence as i128]);
            let ghost before = keys@;
            keys.push(key);
            assert(key_views(keys@) =~= key_views(before).push(key@));
            assert(sequence_keys(numbered(head).push(files@[i as int])) =~= sequence_keys(
                numbered(head),
            ).push(seq![sequence as i128]));
            places.push(i);
        }
        i += 1;
    }
    assert(files@.take(i as int) =~= files@);
    let order = sort_positions(&keys);
    let ghost waiting = numbered(files@);
    let ghost told = order@.map_values(|p: usize| waiting[p as int].name@);
    let mut names: Vec<String> = Vec::new();
    let mut k: usize = 0;
    while k < order.len()
        invariant
            k <= order.len(),
            sorted_positions(sequence_keys(waiting), order@),
            waiting == numbered(files@),
            sequence_keys(waiting).len() == waiting.len(),
            places@.len() == waiting.len(),
            told == order@.map_values(|p: usize| waiting[p as int].name@),
            forall|j: int|
                0 <= j < places@.len() ==> (#[trigger] places@[j]) < files.len()
                    && files@[places@[j] as int] == waiting[j],
            texts(names@) == told.take(k as int),
        decreases order.len() - k,
    {
        let ghost before = texts(names@);
        let place: usize = places[order[k]];
        names.push(files[place].name.clone());
        assert(texts(names@) =~= before.push(files@[place as int].name@));
        assert(told.take(k + 1) =~= told.take(k as int).push(told[k as int]));
        k += 1;
    }
    assert(told.take(k as int) =~= told);
    names
}

/// The claim on a file that waits.
pub fn claim_next(root: &str, names: &Vec<String>) -> (claim: Option<ClaimedRollupBacklogFile>)
    ensures
        match claim {
            Some(claim) => names@.len() > 0 && claim.path@ == inside(
                inside(root@, "consuming"@),
                names@[0]@,
            ) && claim.sealed_path@ == inside(inside(root@, "sealed"@), names@[0]@),
            None => names@.len() == 0,
        },
{
    if names.len() == 0 {
        return None;
    }
    let consuming = join_path(root, "consuming");
    let sealed = join_path(root, "sealed");
    Some(
        ClaimedRollupBacklogFile {
            path: join_path(consuming.as_str(), names[0].as_str()),
            sealed_path: join_path(sealed.as_str(), names[0].as_str()),
        },
    )
}

pub open spec fn restore_error(claim: ClaimedRollupBacklogFile) -> Seq<char> {
    "cannot restore rollup backlog claim `"@ + claim.path@ + "` because sealed target `"@
        + claim.sealed_path@ + "` exists"@
}

/// Whether a claim may go back: not where a file stands in its place.
pub fn restore_claim(claim: &ClaimedRollupBacklogFile, sealed_exists: bool) -> (result: Result<
    (),
    String,
>)
    ensures
        match result {
            Ok(_) => !sealed_exists,
            Err(message) => sealed_exists && message@ == restore_error(*claim),
        },
{
    if !sealed_exists {
        return Ok(());
    }
    let head = concat3(
        "cannot restore rollup backlog claim `",
        claim.path.as_str(),
        "` because sealed target `",
    );
    Err(concat3(head.as_str(), claim.sealed_path.as_str(), "` exists"))
}

/// What is done about a claim that was abandoned.
#[derive(Debug, Clone, Copy, PartialEq, Eq, Structural)]
pub enum AbandonedClaim {
    /// It is none.
    Ignore,
    /// Its place is taken: put it aside.
    Quarantine,
    /// Put it back.
    Restore,
}

pub fn restore_consuming_file(file: &BacklogFile, sealed_exists: bool) -> (step: AbandonedClaim)
    ensures
        step == (if !is_numbered(*file) {
            AbandonedClaim::Ignore
        } else if sealed_exists {
            AbandonedClaim::Quarantine
        } else {
            AbandonedClaim::Restore
        }),
{
    if file.sequence.is_none() {
        AbandonedClaim::Ignore
    } else if sealed_exists {
        AbandonedClaim::Quarantine
    } else {
        AbandonedClaim::Restore
    }
}

/// How many other names are tried for a bad file.
pub const MAX_SUFFIX: u64 = 1024;

/// Another name for a bad file.
pub open spec fn bad_name(name: Seq<char>, now_ms: nat, suffix: nat) -> Seq<char> {
    name + ".bad-"@ + decimal(now_ms) + "-"@ + decimal(suffix)
}

/// The first name from `suffix` on that is free.
pub open spec fn free_bad_name(
    name: Seq<char>,
    now_ms: nat,
    taken: Seq<Seq<char>>,
    suffix: nat,
) -> Option<Seq<char>>
    decreases MAX_SUFFIX + 1 - suffix,
{
    if suffix > MAX_SUFFIX {
        None
    } else if !taken.contains(bad_name(name, now_ms, suffix)) {
        Some(bad_name(name, now_ms, suffix))
    } else {
        free_bad_name(name, now_ms, taken, suffix + 1)
    }
}

/// A name for a bad file: its own, else one that is free.
pub open spec fn quarantine_name(name: Seq<char>, now_ms: nat, taken: Seq<Seq<char>>) -> Option<
    Seq<char>,
> {
    if !taken.contains(name) {
        Some(name)
    } else {
        free_bad_name(name, now_ms, taken, 1)
    }
}

pub open spec fn no_place_message(path: Seq<char>) -> Seq<char> {
    "failed to find unique quarantine path for rollup backlog `"@ + path + "`"@
}

/// Where a bad file is put. `taken` are the names of the files that lie there.
pub fn unique_bad_path(
    root: &str,
    source_path: &str,
    file_name: &str,
    taken: &Vec<String>,
    now_ms: u64,
) -> (result: Result<String, String>)
    ensures
        match result {
            Ok(path) => quarantine_name(file_name@, now_ms as nat, texts(taken@)) matches Some(
                name,
            ) && path@ == inside(inside(root@, "bad"@), name),
            Err(message) => quarantine_name(file_name@, now_ms as nat, texts(taken@)) is None
                && message@ == no_place_message(source_path@),
        },
{
    let bad_dir = join_path(root, "bad");
    if !list_has(taken, file_name) {
        return Ok(join_path(bad_dir.as_str(), file_name));
    }
    let stem = concat3(file_name, ".bad-", decimal_of(now_ms).as_str());
    let mut suffix: u64 = 1;
    while suffix <= MAX_SUFFIX
        invariant
            1 <= suffix <= MAX_SUFFIX + 1,
            texts(taken@).contains(file_name@),
            stem@ == file_name@ + ".bad-"@ + decimal(now_ms as nat),
            bad_dir@ == inside(root@, "bad"@),
            quarantine_name(file_name@, now_ms as nat, texts(taken@)) == free_bad_name(
                file_name@,
                now_ms as nat,
                texts(taken@),
                suffix as nat,
            ),
        decreases MAX_SUFFIX + 1 - suffix,
    {
        let candidate = concat3(stem.as_str(), "-", decimal_of(suffix).as_str());
        assert(candidate@ == bad_name(file_name@, now_ms as nat, suffix as nat));
        if !list_has(taken, candidate.as_str()) {
            return Ok(join_path(bad_dir.as_str(), candidate.as_str()));
        }
        suffix += 1;
    }
    Err(
        concat3(
            "failed to find unique quarantine path for rollup backlog `",
            source_path,
            "`",
        ),
    )
}

// ---------------------------------------------------------------------------
// Laws
// ---------------------------------------------------------------------------

/// A report names each bad file once, and no more of them than there is room for.
pub proof fn law_samples_stay_few_and_distinct(samples: Seq<Seq<char>>, value: Seq<char>)
    requires
        samples.len() <= MAX_SAMPLES,
        samples.no_duplicates(),
    ensures
        with_sample(samples, value).len() <= MAX_SAMPLES,
        with_sample(samples, value).no_duplicates(),
        samples.is_prefix_of(with_sample(samples, value)),
{
}

/// A bad file takes the place of no other.
pub proof fn law_quarantine_overwrites_nothing(name: Seq<char>, now_ms: nat, taken: Seq<Seq<char>>)
    ensures
        quarantine_name(name, now_ms, taken) matches Some(chosen) ==> !taken.contains(chosen),
{
    if taken.contains(name) {
        lemma_free_name_is_free(name, now_ms, taken, 1);
    }
}

proof fn lemma_free_name_is_free(
    name: Seq<char>,
    now_ms: nat,
    taken: Seq<Seq<char>>,
    suffix: nat,
)
    ensures
        free_bad_name(name, now_ms, taken, suffix) matches Some(chosen) ==> !taken.contains(chosen),
    decreases MAX_SUFFIX + 1 - suffix,
{
    if suffix <= MAX_SUFFIX {
        lemma_free_name_is_free(name, now_ms, taken, suffix + 1);
    }
}

/// The file with the lowest number is applied first.
pub proof fn law_oldest_file_comes_first(
    names: Seq<Seq<char>>,
    files: Seq<BacklogFile>,
    at: usize,
)
    requires
        in_sequence(names, numbered(files)),
        at < numbered(files).len(),
    ensures
        names.len() == numbered(files).len(),
        exists|i: int|
            0 <= i < numbered(files).len() && names[0] == (#[trigger] numbered(files)[i]).name@
                && numbered(files)[i].sequence->0 <= numbered(files)[at as int].sequence->0,
{
    let waiting = numbered(files);
    let keys = sequence_keys(waiting);
    let order = choose|order: Seq<usize>| #[trigger]
        sorted_positions(keys, order) && names == order.map_values(
            |i: usize| waiting[i as int].name@,
        );
    let first = order[0];
    assert(order.contains(at));
    let k = choose|k: int| 0 <= k < order.len() && order[k] == at;
    if k > 0 {
        reveal_with_fuel(crate::order::lex_less, 2);
        assert(crate::order::in_order(keys, order[0], order[k]));
        assert(keys[first as int] == seq![waiting[first as int].sequence->0 as i128]);
        assert(keys[at as int] == seq![waiting[at as int].sequence->0 as i128]);
        assert(keys[first as int][0] == waiting[first as int].sequence->0 as i128);
        assert(keys[at as int][0] == waiting[at as int].sequence->0 as i128);
    }
    assert(waiting[first as int].name@ == names[0]);
}

/// A sample that is new is kept while there are fewer than eight; the earlier ones stay.
pub proof fn law_new_samples_are_kept(samples: Seq<Seq<char>>, value: Seq<char>)
    ensures
        samples.len() < 8 ==> with_sample(samples, value).contains(value),
        samples.len() < 8 && !samples.contains(value) ==> with_sample(samples, value).len()
            == samples.len() + 1,
        samples.len() >= 8 ==> with_sample(samples, value) == samples,
        forall|i: int| 0 <= i < samples.len() ==> with_sample(samples, value)[i] == #[trigger] samples[i],
{
    if samples.len() < 8 && !samples.contains(value) {
        assert(samples.push(value)[samples.len() as int] == value);
    }
}

/// A file that is put aside keeps its name where that is free; else its name is followed by
/// the time and a number, and it finds a place where any of the first thousand or so is
/// free.
pub proof fn law_a_bad_file_keeps_its_name_if_it_can(
    name: Seq<char>,
    now_ms: nat,
    taken: Seq<Seq<char>>,
    suffix: nat,
)
    ensures
        !taken.contains(name) ==> quarantine_name(name, now_ms, taken) == Some(name),
        taken.contains(name) && 1 <= suffix <= 1024 && !taken.contains(
            name + ".bad-"@ + decimal(now_ms) + "-"@ + decimal(suffix),
        ) ==> quarantine_name(name, now_ms, taken) is Some,
{
    if taken.contains(name) && 1 <= suffix <= 1024 && !taken.contains(
        name + ".bad-"@ + decimal(now_ms) + "-"@ + decimal(suffix),
    ) {
        lemma_some_suffix_is_free(name, now_ms, taken, 1, suffix);
    }
}

proof fn lemma_some_suffix_is_free(
    name: Seq<char>,
    now_ms: nat,
    taken: Seq<Seq<char>>,
    from: nat,
    suffix: nat,
)
    requires
        from <= suffix <= MAX_SUFFIX,
        !taken.contains(bad_name(name, now_ms, suffix)),
    ensures
        free_bad_name(name, now_ms, taken, from) is Some,
    decreases suffix - from,
{
    if from < suffix {
        lemma_some_suffix_is_free(name, now_ms, taken, from + 1, suffix);
    }
}

} // verus!
