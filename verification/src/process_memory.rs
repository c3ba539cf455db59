//! How much memory the process uses.

use vstd::prelude::*;
use crate::paths::{inside, join_path};
use crate::text::{chars_of, decimal, has_at, is_digit, law_a_number_reads_back, lines, lines_of,
    parse_number, parse_unsigned, same_text, starts_with, string_of, strip_prefix, subrange_chars,
    texts, trim, trimmed, words, words_of};

verus! {

/// What is known of the memory of a process.
#[derive(Debug, Clone, Copy, PartialEq, Eq)]
pub struct ProcessMemoryStats {
    pub rss_bytes: Option<u64>,
    pub virtual_bytes: Option<u64>,
    pub cgroup_current_bytes: Option<u64>,
    pub cgroup_peak_bytes: Option<u64>,
    pub cgroup_high_bytes: Option<u64>,
    pub cgroup_max_bytes: Option<u64>,
    pub cgroup_swap_current_bytes: Option<u64>,
    pub cgroup_swap_max_bytes: Option<u64>,
}

pub open spec fn same_number(result: Option<u64>, value: Option<nat>) -> bool {
    match (result, value) {
        (Some(a), Some(b)) => a == b,
        (None, None) => true,
        _ => false,
    }
}

/// The bytes that a line gives in units of 1024, behind a prefix.
pub open spec fn kib_line(line: Seq<char>, prefix: Seq<char>) -> Option<nat> {
    if !starts_with(line, prefix) {
        None
    } else {
        let found = words(trim(line.skip(prefix.len() as int)));
        if found.len() == 0 {
            None
        } else {
            match parse_unsigned(found[0], u64::MAX as nat) {
                Some(kib) => if kib * 1024 <= u64::MAX {
                    Some(kib * 1024)
                } else {
                    None
                },
                None => None,
            }
        }
    }
}

pub fn parse_proc_status_kib_line(line: &str, prefix: &str) -> (result: Option<u64>)
    ensures
        same_number(result, kib_line(line@, prefix@)),
{
    let rest = match strip_prefix(line, prefix) {
        Some(rest) => rest,
        None => return None,
    };
    let found = words_of(trimmed(rest.as_str()).as_str());
    if found.len() == 0 {
        return None;
    }
    assert(texts(found@)[0] == found@[0]@);
    match parse_number(found[0].as_str(), u64::MAX) {
        Some(kib) => kib.checked_mul(1024),
        None => None,
    }
}

/// The amount of the last line with a prefix.
pub open spec fn last_kib(list: Seq<Seq<char>>, prefix: Seq<char>) -> Option<nat>
    decreases list.len(),
{
    if list.len() == 0 {
        None
    } else {
        match kib_line(list.last(), prefix) {
            Some(bytes) => Some(bytes),
            None => last_kib(list.drop_last(), prefix),
        }
    }
}

/// The amounts of a process status: what is resident, and what is reserved.
pub fn read_proc_status_memory(status: &str) -> (result: (Option<u64>, Option<u64>))
    ensures
        same_number(result.0, last_kib(lines(status@), "VmRSS:"@)),
        same_number(result.1, last_kib(lines(status@), "VmSize:"@)),
{
    let list = lines_of(status);
    let ghost all = texts(list@);
    let mut rss: Option<u64> = None;
    let mut size: Option<u64> = None;
    let mut i: usize = 0;
    proof {
        reveal_strlit("VmRSS:");
        reveal_strlit("VmSize:");
    }
    assert(all.take(0) =~= Seq::<Seq<char>>::empty());
    while i < list.len()
        invariant
            i <= list.len(),
            all == texts(list@),
            "VmRSS:"@.len() == 6,
            "VmSize:"@.len() == 7,
            "VmRSS:"@[2] == 'R',
            "VmSize:"@[2] == 'S',
            same_number(rss, last_kib(all.take(i as int), "VmRSS:"@)),
            same_number(size, last_kib(all.take(i as int), "VmSize:"@)),
        decreases list.len() - i,
    {
        let ghost head = all.take(i + 1);
        assert(head.drop_last() =~= all.take(i as int));
        assert(head.last() == list@[i as int]@);
        let line = list[i].as_str();
        assert(starts_with(line@, "VmRSS:"@) ==> !starts_with(line@, "VmSize:"@)) by {
            if starts_with(line@, "VmRSS:"@) && starts_with(line@, "VmSize:"@) {
                assert(has_at(line@, "VmRSS:"@, 0));
                assert(has_at(line@, "VmSize:"@, 0));
                assert(line@.subrange(0, 6)[2] == line@[2]);
                assert(line@.subrange(0, 7)[2] == line@[2]);
            }
        }
        if let Some(bytes) = parse_proc_status_kib_line(line, "VmRSS:") {
            rss = Some(bytes);
        } else if let Some(bytes) = parse_proc_status_kib_line(line, "VmSize:") {
            size = Some(bytes);
        }
        i += 1;
    }
    assert(all.take(i as int) =~= all);
    (rss, size)
}

/// The path of the first line that belongs to the unified hierarchy.
pub open spec fn unified_path(list: Seq<Seq<char>>) -> Option<Seq<char>>
    decreases list.len(),
{
    if list.len() == 0 {
        None
    } else if starts_with(list[0], "0::"@) {
        Some(list[0].skip(3))
    } else {
        unified_path(list.drop_first())
    }
}

pub fn parse_cgroup_v2_relative_path(raw: &str) -> (path: Option<String>)
    ensures
        crate::text::opt_text(path) == unified_path(lines(raw@)),
{
    let list = lines_of(raw);
    let ghost all = texts(list@);
    let mut i: usize = 0;
    proof {
        reveal_strlit("0::");
    }
    assert(all.skip(0) =~= all);
    while i < list.len()
        invariant
            i <= list.len(),
            all == texts(list@),
            all == lines(raw@),
            "0::"@.len() == 3,
            unified_path(all) == unified_path(all.skip(i as int)),
        decreases list.len() - i,
    {
        assert(all.skip(i as int).drop_first() =~= all.skip(i + 1));
        assert(all.skip(i as int)[0] == list@[i as int]@);
        if let Some(path) = strip_prefix(list[i].as_str(), "0::") {
            return Some(path);
        }
        i += 1;
    }
    None
}

/// The number of a control file; no limit is no number.
pub open spec fn control_value(raw: Seq<char>) -> Option<nat> {
    if trim(raw) == "max"@ {
        None
    } else {
        parse_unsigned(trim(raw), u64::MAX as nat)
    }
}

pub fn parse_cgroup_bytes_value(raw: &str) -> (result: Option<u64>)
    ensures
        same_number(result, control_value(raw@)),
{
    let value = trimmed(raw);
    if same_text(value.as_str(), "max") {
        return None;
    }
    parse_number(value.as_str(), u64::MAX)
}

/// The directory of a control group: its path inside the root. A path that is still
/// absolute without its first slash stands for itself.
pub open spec fn group_dir(root: Seq<char>, relative: Seq<char>) -> Seq<char> {
    let rest = if relative.len() > 0 && relative[0] == '/' {
        relative.skip(1)
    } else {
        relative
    };
    if rest.len() > 0 && rest[0] == '/' {
        rest
    } else {
        inside(root, rest)
    }
}

pub fn read_cgroup_v2_dir(cgroup: &str, root: &str) -> (dir: Option<String>)
    ensures
        crate::text::opt_text(dir) == match unified_path(lines(cgroup@)) {
            Some(relative) => Some(group_dir(root@, relative)),
            None => None,
        },
{
    let relative = match parse_cgroup_v2_relative_path(cgroup) {
        Some(relative) => relative,
        None => return None,
    };
    let chars = chars_of(relative.as_str());
    let rest = if chars.len() > 0 && chars[0] == '/' {
        let rest = subrange_chars(&chars, 1, chars.len());
        assert(rest@ =~= relative@.skip(1));
        rest
    } else {
        chars
    };
    if rest.len() > 0 && rest[0] == '/' {
        Some(string_of(&rest))
    } else {
        Some(join_path(root, string_of(&rest).as_str()))
    }
}

/// The files of a control group, as far as they could be read.
pub struct CgroupFiles<'a> {
    pub current: Option<&'a str>,
    pub peak: Option<&'a str>,
    pub high: Option<&'a str>,
    pub max: Option<&'a str>,
    pub swap_current: Option<&'a str>,
    pub swap_max: Option<&'a str>,
}

pub open spec fn file_value(file: Option<&str>) -> Option<nat> {
    match file {
        Some(raw) => control_value(raw@),
        None => None,
    }
}

fn read_cgroup_bytes(file: Option<&str>) -> (result: Option<u64>)
    ensures
        same_number(result, file_value(file)),
{
    match file {
        Some(raw) => parse_cgroup_bytes_value(raw),
        None => None,
    }
}

pub open spec fn status_value(status: Option<&str>, prefix: Seq<char>) -> Option<nat> {
    match status {
        Some(status) => last_kib(lines(status@), prefix),
        None => None,
    }
}

/// What the files of the kernel say about a process. `status` is its status file, as far
/// as it could be read.
pub fn read_process_memory_stats_from_paths(status: Option<&str>, files: &CgroupFiles) -> (stats:
    ProcessMemoryStats)
    ensures
        same_number(stats.rss_bytes, status_value(status, "VmRSS:"@)),
        same_number(stats.virtual_bytes, status_value(status, "VmSize:"@)),
        same_number(stats.cgroup_current_bytes, file_value(files.current)),
        same_number(stats.cgroup_peak_bytes, file_value(files.peak)),
        same_number(stats.cgroup_high_bytes, file_value(files.high)),
        same_number(stats.cgroup_max_bytes, file_value(files.max)),
        same_number(stats.cgroup_swap_current_bytes, file_value(files.swap_current)),
        same_number(stats.cgroup_swap_max_bytes, file_value(files.swap_max)),
{
    let (rss_bytes, virtual_bytes) = match status {
        Some(status) => read_proc_status_memory(status),
        None => (None, None),
    };
    ProcessMemoryStats {
        rss_bytes,
        virtual_bytes,
        cgroup_current_bytes: read_cgroup_bytes(files.current),
        cgroup_peak_bytes: read_cgroup_bytes(files.peak),
        cgroup_high_bytes: read_cgroup_bytes(files.high),
        cgroup_max_bytes: read_cgroup_bytes(files.max),
        cgroup_swap_current_bytes: read_cgroup_bytes(files.swap_current),
        cgroup_swap_max_bytes: read_cgroup_bytes(files.swap_max),
    }
}

// ---------------------------------------------------------------------------
// Laws
// ---------------------------------------------------------------------------

/// A line tells whole kibibytes under its own name, and another line tells nothing.
pub proof fn law_lines_tell_kibibytes(line: Seq<char>, prefix: Seq<char>, kib: nat)
    ensures
        !starts_with(line, prefix) ==> kib_line(line, prefix) is None,
        kib_line(line, prefix) matches Some(bytes) ==> starts_with(line, prefix) && bytes % 1024
            == 0 && bytes <= u64::MAX,
        starts_with(line, prefix) && words(trim(line.skip(prefix.len() as int))).len() > 0
            && parse_unsigned(words(trim(line.skip(prefix.len() as int)))[0], u64::MAX as nat)
            == Some(kib) && kib * 1024 <= u64::MAX ==> kib_line(line, prefix) == Some(kib * 1024),
{
}

/// The last line that tells a number counts.
pub proof fn law_the_last_line_counts(list: Seq<Seq<char>>, prefix: Seq<char>, i: int)
    requires
        0 <= i < list.len(),
        kib_line(list[i], prefix) is Some,
        forall|k: int| i < k < list.len() ==> kib_line(#[trigger] list[k], prefix) is None,
    ensures
        last_kib(list, prefix) == kib_line(list[i], prefix),
    decreases list.len(),
{
    if i < list.len() - 1 {
        let head = list.drop_last();
        assert(kib_line(list[list.len() - 1], prefix) is None);
        assert forall|k: int| i < k < head.len() implies kib_line(
            #[trigger] head[k],
            prefix,
        ) is None by {
            assert(head[k] == list[k]);
        }
        law_the_last_line_counts(head, prefix, i);
    }
}

/// The unified group is named by the first line of its kind.
pub proof fn law_the_first_unified_line_counts(list: Seq<Seq<char>>, i: int)
    requires
        0 <= i < list.len(),
        starts_with(list[i], "0::"@),
        forall|k: int| 0 <= k < i ==> !starts_with(#[trigger] list[k], "0::"@),
    ensures
        unified_path(list) == Some(list[i].skip(3)),
    decreases list.len(),
{
    if i > 0 {
        let rest = list.drop_first();
        assert(!starts_with(list[0], "0::"@));
        assert forall|k: int| 0 <= k < i - 1 implies !starts_with(#[trigger] rest[k], "0::"@) by {
            assert(rest[k] == list[k + 1]);
        }
        law_the_first_unified_line_counts(rest, i - 1);
    }
}

/// A limit that is a number is told, and one that is none is not.
pub proof fn law_limits_that_are_numbers_are_told(raw: Seq<char>, n: nat)
    requires
        n <= u64::MAX,
    ensures
        trim(raw) == decimal(n) ==> control_value(raw) == Some(n),
        trim(raw) == "max"@ ==> control_value(raw) is None,
        trim(raw).len() == 0 ==> control_value(raw) is None,
{
    reveal_strlit("max");
    law_a_number_reads_back(n, u64::MAX as nat);
    assert(is_digit(decimal(n)[0]));
    assert("max"@[0] == 'm' && "max"@.len() == 3);
}

/// A group lies under the root of its kind.
pub proof fn law_groups_lie_under_their_root(root: Seq<char>, relative: Seq<char>)
    requires
        relative.len() > 0,
        relative[0] != '/',
    ensures
        group_dir(root, seq!['/'] + relative) == inside(root, relative),
        group_dir(root, relative) == inside(root, relative),
{
    assert((seq!['/'] + relative).skip(1) =~= relative);
}

/// Each figure comes from its own file, or its own line of the status.
pub proof fn law_each_figure_has_its_source(
    status: Option<&str>,
    files: &CgroupFiles,
    stats: ProcessMemoryStats,
)
    requires
        call_ensures(read_process_memory_stats_from_paths, (status, files), stats),
    ensures
        files.current is None ==> stats.cgroup_current_bytes is None,
        files.current matches Some(raw) ==> same_number(
            stats.cgroup_current_bytes,
            control_value(raw@),
        ),
        files.peak matches Some(raw) ==> same_number(stats.cgroup_peak_bytes, control_value(raw@)),
        files.high matches Some(raw) ==> same_number(stats.cgroup_high_bytes, control_value(raw@)),
        files.max matches Some(raw) ==> same_number(stats.cgroup_max_bytes, control_value(raw@)),
        files.swap_current matches Some(raw) ==> same_number(
            stats.cgroup_swap_current_bytes,
            control_value(raw@),
        ),
        files.swap_max matches Some(raw) ==> same_number(
            stats.cgroup_swap_max_bytes,
            control_value(raw@),
        ),
        status matches Some(text) ==> same_number(
            stats.rss_bytes,
            last_kib(lines(text@), "VmRSS:"@),
        ),
        status matches Some(text) ==> same_number(
            stats.virtual_bytes,
            last_kib(lines(text@), "VmSize:"@),
        ),
        status is None ==> stats.rss_bytes is None && stats.virtual_bytes is None,
{
}

} // verus!
