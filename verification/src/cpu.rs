//! CPU usage from the kernel's `/proc/stat` counters.
use vstd::prelude::*;
use vstd::utf8::{decode_utf8, valid_utf8};
use crate::types::CpuLoad;
use crate::text::{
    byte_lines, byte_views, chars_of, decode_utf8_chars, parse_u64, parse_u64_spec,
    seq_starts_with, split_lines, split_whitespace, starts_with, tokens, views,
};

verus! {

/// The aggregate CPU time counters of one `/proc/stat` reading, in clock
/// ticks.
#[derive(Debug, Clone, Copy, PartialEq, Eq, Structural)]
pub struct CpuSnapshot {
    pub user: u64,
    pub nice: u64,
    pub system: u64,
    pub idle: u64,
    pub iowait: u64,
    pub irq: u64,
    pub softirq: u64,
    pub steal: u64,
}

impl CpuSnapshot {
    /// All the time the counters record.
    pub open spec fn total_spec(self) -> int {
        self.user + self.nice + self.system + self.idle + self.iowait + self.irq + self.softirq
            + self.steal
    }

    /// The time spent idle or waiting for I/O.
    pub open spec fn idle_total_spec(self) -> int {
        self.idle + self.iowait
    }

    /// The counters' sum fits in a `u64`.
    pub open spec fn total_fits(self) -> bool {
        self.total_spec() <= u64::MAX
    }

    /// All the time the counters record.
    pub fn total(&self) -> (r: u64)
        requires
            self.total_fits(),
        ensures
            r == self.total_spec(),
    {
        self.user + self.nice + self.system + self.idle + self.iowait + self.irq + self.softirq
            + self.steal
    }

    /// All the time the counters record, when it fits in a `u64`.
    pub fn checked_total(&self) -> (r: Option<u64>)
        ensures
            r is Some <==> self.total_fits(),
            r matches Some(t) ==> t == self.total_spec(),
    {
        let t = self.user as u128 + self.nice as u128 + self.system as u128 + self.idle as u128
            + self.iowait as u128 + self.irq as u128 + self.softirq as u128 + self.steal as u128;
        if t <= u64::MAX as u128 {
            Some(t as u64)
        } else {
            None
        }
    }

    /// The time spent idle or waiting for I/O.
    pub fn idle_total(&self) -> (r: u64)
        requires
            self.idle_total_spec() <= u64::MAX,
        ensures
            r == self.idle_total_spec(),
    {
        self.idle + self.iowait
    }
}

/// The aggregate line of `/proc/stat`: it starts with `cpu ` and has at
/// least nine whitespace-separated fields.
pub open spec fn is_cpu_line(line: Seq<char>) -> bool {
    seq_starts_with(line, "cpu "@) && tokens(line).len() >= 9
}

/// Field `i` of a line as a number, or zero when it is not one.
pub open spec fn field_or_zero(fields: Seq<Seq<char>>, i: int) -> u64 {
    match parse_u64_spec(fields[i]) {
        Some(v) => v,
        None => 0,
    }
}

/// The snapshot that the fields of the aggregate line give: the user, nice,
/// system and idle counters must be numbers; iowait, irq, softirq and steal
/// count as zero when they are not.
pub open spec fn snapshot_from_fields(fields: Seq<Seq<char>>) -> Option<CpuSnapshot> {
    if parse_u64_spec(fields[1]) is Some && parse_u64_spec(fields[2]) is Some && parse_u64_spec(
        fields[3],
    ) is Some && parse_u64_spec(fields[4]) is Some {
        Some(
            CpuSnapshot {
                user: parse_u64_spec(fields[1]).unwrap(),
                nice: parse_u64_spec(fields[2]).unwrap(),
                system: parse_u64_spec(fields[3]).unwrap(),
                idle: parse_u64_spec(fields[4]).unwrap(),
                iowait: field_or_zero(fields, 5),
                irq: field_or_zero(fields, 6),
                softirq: field_or_zero(fields, 7),
                steal: field_or_zero(fields, 8),
            },
        )
    } else {
        None
    }
}

/// Reading `lines` in order: a line that is not UTF-8 ends the reading
/// with nothing; the first aggregate line gives the snapshot.
pub open spec fn snapshot_from_lines(lines: Seq<Seq<u8>>) -> Option<CpuSnapshot>
    decreases lines.len(),
{
    if lines.len() == 0 {
        None
    } else if !valid_utf8(lines[0]) {
        None
    } else if is_cpu_line(decode_utf8(lines[0])) {
        snapshot_from_fields(tokens(decode_utf8(lines[0])))
    } else {
        snapshot_from_lines(lines.drop_first())
    }
}

/// The snapshot that the text of `/proc/stat` gives.
pub open spec fn proc_stat_snapshot(data: Seq<u8>) -> Option<CpuSnapshot> {
    snapshot_from_lines(byte_lines(data))
}

fn snapshot_from_fields_exec(fields: &Vec<Vec<char>>) -> (r: Option<CpuSnapshot>)
    requires
        fields.len() >= 9,
    ensures
        r == snapshot_from_fields(views(fields@)),
{
    let ghost f = views(fields@);
    assert(forall|i: int| 0 <= i < fields.len() ==> #[trigger] f[i] == fields@[i]@);
    let user = match parse_u64(&fields[1]) {
        Some(v) => v,
        None => return None,
    };
    let nice = match parse_u64(&fields[2]) {
        Some(v) => v,
        None => return None,
    };
    let system = match parse_u64(&fields[3]) {
        Some(v) => v,
        None => return None,
    };
    let idle = match parse_u64(&fields[4]) {
        Some(v) => v,
        None => return None,
    };
    let iowait = match parse_u64(&fields[5]) {
        Some(v) => v,
        None => 0,
    };
    let irq = match parse_u64(&fields[6]) {
        Some(v) => v,
        None => 0,
    };
    let softirq = match parse_u64(&fields[7]) {
        Some(v) => v,
        None => 0,
    };
    let steal = match parse_u64(&fields[8]) {
        Some(v) => v,
        None => 0,
    };
    Some(CpuSnapshot { user, nice, system, idle, iowait, irq, softirq, steal })
}

/// Reads the aggregate CPU counters from the text of `/proc/stat`: the
/// first line that starts with `cpu ` and has at least nine fields. Gives
/// nothing when no such line comes before a line that is not UTF-8, or when
/// its first four counters are not numbers.
pub fn parse_proc_stat(data: &[u8]) -> (r: Option<CpuSnapshot>)
    ensures
        r == proc_stat_snapshot(data@),
{
    let lines = split_lines(data);
    let prefix = chars_of("cpu ");
    let mut i: usize = 0;
    let ghost all = byte_views(lines@);
    assert(all.skip(0) =~= all);
    while i < lines.len()
        invariant
            i <= lines.len(),
            all == byte_views(lines@),
            all == byte_lines(data@),
            prefix@ == "cpu "@,
            snapshot_from_lines(all.skip(i as int)) == proc_stat_snapshot(data@),
        decreases lines.len() - i,
    {
        assert(all.skip(i as int)[0] == lines@[i as int]@);
        assert(all.skip(i as int).drop_first() =~= all.skip(i + 1));
        let line = match decode_utf8_chars(lines[i].as_slice()) {
            Some(chars) => chars,
            None => return None,
        };
        if starts_with(&line, &prefix) {
            let fields = split_whitespace(&line);
            if fields.len() >= 9 {
                return snapshot_from_fields_exec(&fields);
            }
        }
        i = i + 1;
    }
    None
}

/// `a - b`, or zero when `b` is larger.
pub open spec fn saturating_diff(a: int, b: int) -> int {
    if a > b {
        a - b
    } else {
        0
    }
}

/// The CPU load between two readings: the time that passed between them
/// and the part of it not spent idle, each zero where its counters went
/// backwards.
pub open spec fn cpu_load_between(prev: CpuSnapshot, curr: CpuSnapshot) -> CpuLoad {
    let total = saturating_diff(curr.total_spec(), prev.total_spec());
    let idle = saturating_diff(curr.idle_total_spec(), prev.idle_total_spec());
    CpuLoad { busy: saturating_diff(total, idle) as u64, total: total as u64 }
}

/// The CPU usage between two readings, as the exact share of the time that
/// passed which was not spent idle (`busy / total`; no time passed reads as
/// 0 %). The share is never above one.
pub fn calculate_cpu_usage(prev: &CpuSnapshot, curr: &CpuSnapshot) -> (r: CpuLoad)
    requires
        prev.total_fits(),
        curr.total_fits(),
    ensures
        r == cpu_load_between(*prev, *curr),
        r.busy <= r.total,
{
    let prev_total = prev.total();
    let curr_total = curr.total();
    let prev_idle = prev.idle_total();
    let curr_idle = curr.idle_total();

    let total_delta = curr_total.saturating_sub(prev_total);
    let idle_delta = curr_idle.saturating_sub(prev_idle);

    let active_delta = total_delta.saturating_sub(idle_delta);
    CpuLoad { busy: active_delta, total: total_delta }
}

/// The CPU load between two readings, over the counters themselves: the
/// time passed is the growth of the sum of all eight counters, and the busy
/// part is what is left of it after the growth of the idle and iowait
/// counters together (time waiting for I/O counts as idle); each growth
/// counts as zero where it is negative.
pub proof fn law_cpu_load_from_counters(prev: CpuSnapshot, curr: CpuSnapshot)
    requires
        prev.total_fits(),
        curr.total_fits(),
    ensures
        ({
            let sum_prev = prev.user + prev.nice + prev.system + prev.idle + prev.iowait + prev.irq
                + prev.softirq + prev.steal;
            let sum_curr = curr.user + curr.nice + curr.system + curr.idle + curr.iowait + curr.irq
                + curr.softirq + curr.steal;
            let passed = if sum_curr > sum_prev {
                sum_curr - sum_prev
            } else {
                0
            };
            let waited = if curr.idle + curr.iowait > prev.idle + prev.iowait {
                (curr.idle + curr.iowait) - (prev.idle + prev.iowait)
            } else {
                0
            };
            &&& cpu_load_between(prev, curr).total == passed
            &&& cpu_load_between(prev, curr).busy == (if passed > waited {
                passed - waited
            } else {
                0
            })
        }),
{
}

/// Samples CPU usage from successive readings of `/proc/stat`.
pub struct CpuCollector {
    proc_stat_path: String,
    last_snapshot: Option<CpuSnapshot>,
}

impl View for CpuCollector {
    /// The path it reads and the last snapshot it took.
    type V = (Seq<char>, Option<CpuSnapshot>);

    closed spec fn view(&self) -> (Seq<char>, Option<CpuSnapshot>) {
        (self.proc_stat_path@, self.last_snapshot)
    }
}

impl CpuCollector {
    /// A collector that reads the kernel's `/proc/stat`.
    pub fn new() -> (c: Self)
        ensures
            c@ == ("/proc/stat"@, None::<CpuSnapshot>),
    {
        CpuCollector { proc_stat_path: String::from_str("/proc/stat"), last_snapshot: None }
    }

    /// A collector that reads the file at `path`.
    pub fn with_path(path: &str) -> (c: Self)
        ensures
            c@ == (path@, None::<CpuSnapshot>),
    {
        CpuCollector { proc_stat_path: String::from_str(path), last_snapshot: None }
    }

    /// The file this collector reads.
    pub fn proc_stat_path(&self) -> (p: &str)
        ensures
            p@ == self@.0,
    {
        self.proc_stat_path.as_str()
    }

    /// A reading of `proc_stat` (the file's bytes, if it could be read) can
    /// be sampled: the counters whose sums a sample takes fit in a `u64`.
    pub open spec fn sample_fits(self, proc_stat: Option<Seq<u8>>) -> bool {
        match (self@.1, proc_stat) {
            (Some(prev), Some(data)) => match proc_stat_snapshot(data) {
                Some(curr) => prev.total_fits() && curr.total_fits(),
                None => true,
            },
            _ => true,
        }
    }

    /// Takes a sample from `proc_stat`, the bytes of the file (nothing when
    /// it could not be read). Gives nothing, and keeps the last snapshot,
    /// when they hold no snapshot; otherwise gives the CPU usage since the
    /// last snapshot (0 % for the first) and keeps the new one.
    pub fn sample(&mut self, proc_stat: Option<&[u8]>) -> (r: Option<CpuLoad>)
        requires
            old(self).sample_fits(
                match proc_stat {
                    Some(d) => Some(d@),
                    None => None,
                },
            ),
        ensures
            final(self)@.0 == old(self)@.0,
            match proc_stat {
                None => r is None && final(self)@ == old(self)@,
                Some(d) => match proc_stat_snapshot(d@) {
                    None => r is None && final(self)@ == old(self)@,
                    Some(curr) => final(self)@.1 == Some(curr) && r == Some(
                        match old(self)@.1 {
                            Some(prev) => cpu_load_between(prev, curr),
                            None => CpuLoad { busy: 0, total: 0 },
                        },
                    ),
                },
            },
    {
        let data = match proc_stat {
            Some(d) => d,
            None => return None,
        };
        let curr = match parse_proc_stat(data) {
            Some(c) => c,
            None => return None,
        };
        let usage = match &self.last_snapshot {
            Some(prev) => calculate_cpu_usage(prev, &curr),
            None => CpuLoad { busy: 0, total: 0 },
        };
        self.last_snapshot = Some(curr);
        Some(usage)
    }
}

} // verus!
