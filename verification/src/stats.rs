//! Device statistics, read from the reports of the device's own tools.

use crate::number::{parse_u64, parse_u8, unsigned_value};
use crate::text::{
    contains, found, join, lines, lines_of, pieces, split, split_whitespace, starts_with, texts,
    trim, trimmed, words,
};
use vstd::prelude::*;
use vstd::string::*;

verus! {

/// From this gap on, in nanoseconds, between the last frame and now, an
/// application counts as idle.
pub const IDLE_GAP_NS: u64 = 500_000_000;

/// The line after which a combined report holds the uptime.
pub open spec fn uptime_marker() -> Seq<char> {
    "UPTIME_MARKER"@
}

pub open spec fn number_of(value: Option<u64>) -> Option<nat> {
    match value {
        Some(n) => Some(n as nat),
        None => None,
    }
}

/// Whether a line of the battery report gives the level.
pub open spec fn is_level_line(line: Seq<char>) -> bool {
    "level:"@.is_prefix_of(trimmed(line))
}

/// The level that a level line gives: the number after its first colon.
pub open spec fn level_in(line: Seq<char>) -> Option<nat> {
    if pieces(line, ':').len() > 1 {
        unsigned_value(trimmed(pieces(line, ':')[1]), u8::MAX as nat)
    } else {
        None
    }
}

/// What the first level line among `report_lines` gives.
pub open spec fn level_of_lines(report_lines: Seq<Seq<char>>) -> Option<nat>
    decreases report_lines.len(),
{
    if report_lines.len() == 0 {
        None
    } else if is_level_line(report_lines[0]) {
        level_in(report_lines[0])
    } else {
        level_of_lines(report_lines.drop_first())
    }
}

/// The battery level in a battery report: what its first level line
/// gives.
pub open spec fn battery_level(report: Seq<char>) -> Option<nat> {
    level_of_lines(lines_of(report))
}

pub fn parse_battery_level(output: &str) -> (level: Option<u8>)
    ensures
        match level {
            Some(n) => battery_level(output@) == Some(n as nat),
            None => battery_level(output@) is None,
        },
{
    let all = lines(output);
    let mut i: usize = 0;
    assert(texts(all@).skip(0) =~= texts(all@));
    while i < all.len()
        invariant
            i <= all@.len(),
            texts(all@) == lines_of(output@),
            battery_level(output@) == level_of_lines(texts(all@).skip(i as int)),
        decreases all@.len() - i,
    {
        let line = all[i].as_str();
        assert(texts(all@).skip(i as int).drop_first() =~= texts(all@).skip(i + 1));
        let cut = trim(line);
        if starts_with(cut.as_str(), "level:") {
            let parts = split(line, ':');
            if parts.len() > 1 {
                let value = trim(parts[1].as_str());
                return parse_u8(value.as_str());
            } else {
                return None;
            }
        }
        i = i + 1;
    }
    None
}

/// The number in a line of the memory report: its second word.
pub open spec fn kb_in(line: Seq<char>) -> Option<nat> {
    if words(line).len() > 1 {
        unsigned_value(words(line)[1], u64::MAX as nat)
    } else {
        None
    }
}

pub fn extract_kb(line: &str) -> (kb: Option<u64>)
    ensures
        number_of(kb) == kb_in(line@),
{
    let parts = split_whitespace(line);
    if parts.len() > 1 {
        parse_u64(parts[1].as_str())
    } else {
        None
    }
}

/// The number of the last line that begins with `label` and carries a
/// number; 0 if there is none.
pub open spec fn last_kb(report_lines: Seq<Seq<char>>, label: Seq<char>) -> nat
    decreases report_lines.len(),
{
    if report_lines.len() == 0 {
        0
    } else if label.is_prefix_of(report_lines.last()) && kb_in(report_lines.last()) is Some {
        kb_in(report_lines.last())->0
    } else {
        last_kb(report_lines.drop_last(), label)
    }
}

/// Total and used memory in a memory report: the total, and the total
/// less what is available. A report without a total, or with more
/// available than there is, gives nothing.
pub open spec fn mem_info(report: Seq<char>) -> Option<(nat, nat)> {
    let total = last_kb(lines_of(report), "MemTotal:"@);
    let available = last_kb(lines_of(report), "MemAvailable:"@);
    if total > 0 && available <= total {
        Some((total, (total - available) as nat))
    } else {
        None
    }
}

proof fn lemma_labels_differ(line: Seq<char>)
    ensures
        !("MemTotal:"@.is_prefix_of(line) && "MemAvailable:"@.is_prefix_of(line)),
{
    reveal_strlit("MemTotal:");
    reveal_strlit("MemAvailable:");
    if "MemTotal:"@.is_prefix_of(line) && "MemAvailable:"@.is_prefix_of(line) {
        assert(line.subrange(0, 13)[3] == 'A');
    }
}

pub fn parse_mem_info(output: &str) -> (info: Option<(u64, u64)>)
    ensures
        match info {
            Some((total, used)) => mem_info(output@) == Some((total as nat, used as nat)),
            None => mem_info(output@) is None,
        },
{
    let all = lines(output);
    let mut total: u64 = 0;
    let mut available: u64 = 0;
    let mut i: usize = 0;
    while i < all.len()
        invariant
            i <= all@.len(),
            total == last_kb(texts(all@).take(i as int), "MemTotal:"@),
            available == last_kb(texts(all@).take(i as int), "MemAvailable:"@),
        decreases all@.len() - i,
    {
        let line = all[i].as_str();
        let ghost upto = texts(all@).take(i + 1);
        assert(upto.drop_last() =~= texts(all@).take(i as int));
        proof {
            lemma_labels_differ(line@);
        }
        if starts_with(line, "MemTotal:") {
            match extract_kb(line) {
                Some(value) => {
                    total = value;
                },
                None => {},
            }
        } else if starts_with(line, "MemAvailable:") {
            match extract_kb(line) {
                Some(value) => {
                    available = value;
                },
                None => {},
            }
        }
        i = i + 1;
    }
    assert(texts(all@).take(i as int) =~= texts(all@));
    if total > 0 && available <= total {
        Some((total, total - available))
    } else {
        None
    }
}

/// The command that reports the memory of a package.
pub fn app_ram_command(package: &str) -> (command: String)
    ensures
        command@ == "dumpsys meminfo "@ + package@,
{
    join("dumpsys meminfo ", package)
}

/// The number that a line of a package's memory report gives as the
/// total: the second word of a line that begins, after white space, with
/// the total's label.
pub open spec fn ram_in(line: Seq<char>) -> Option<nat> {
    let cut = trimmed(line);
    if ("TOTAL"@.is_prefix_of(cut) || "Total PSS:"@.is_prefix_of(cut)) && words(cut).len() > 1 {
        unsigned_value(words(cut)[1], u64::MAX as nat)
    } else {
        None
    }
}

/// What the first line among `report_lines` that gives a total gives.
pub open spec fn ram_of_lines(report_lines: Seq<Seq<char>>) -> Option<nat>
    decreases report_lines.len(),
{
    if report_lines.len() == 0 {
        None
    } else if ram_in(report_lines[0]) is Some {
        ram_in(report_lines[0])
    } else {
        ram_of_lines(report_lines.drop_first())
    }
}

/// The memory of a package in its memory report: what the first line
/// that gives a total gives.
pub open spec fn app_ram(report: Seq<char>) -> Option<nat> {
    ram_of_lines(lines_of(report))
}

pub fn get_app_ram(output: &str) -> (ram: Option<u64>)
    ensures
        number_of(ram) == app_ram(output@),
{
    let all = lines(output);
    let mut i: usize = 0;
    assert(texts(all@).skip(0) =~= texts(all@));
    while i < all.len()
        invariant
            i <= all@.len(),
            texts(all@) == lines_of(output@),
            app_ram(output@) == ram_of_lines(texts(all@).skip(i as int)),
        decreases all@.len() - i,
    {
        let line = all[i].as_str();
        assert(texts(all@).skip(i as int).drop_first() =~= texts(all@).skip(i + 1));
        let cut = trim(line);
        if starts_with(cut.as_str(), "TOTAL") || starts_with(cut.as_str(), "Total PSS:") {
            let parts = split_whitespace(cut.as_str());
            if parts.len() > 1 {
                match parse_u64(parts[1].as_str()) {
                    Some(value) => {
                        return Some(value);
                    },
                    None => {},
                }
            }
        }
        i = i + 1;
    }
    None
}

/// The command that reports the frames of a package, and after a marker
/// line the uptime of the device.
pub fn app_fps_command(package: &str) -> (command: String)
    ensures
        command@ == "dumpsys gfxinfo "@ + package@
            + " framestats; echo UPTIME_MARKER; cat /proc/uptime"@,
{
    let mut command = join("dumpsys gfxinfo ", package);
    command.append(" framestats; echo UPTIME_MARKER; cat /proc/uptime");
    command
}

/// The time for which a line of the frame report says a frame was due,
/// if it is the record of a frame that was completed: the second of at
/// least fourteen fields, where the fourteenth is a number above 0.
pub open spec fn frame_in(line: Seq<char>) -> Option<nat> {
    let fields = pieces(line, ',');
    if fields.len() >= 14 && unsigned_value(fields[1], u64::MAX as nat) is Some && unsigned_value(
        fields[13],
        u64::MAX as nat,
    ) is Some && unsigned_value(fields[13], u64::MAX as nat)->0 > 0 {
        unsigned_value(fields[1], u64::MAX as nat)
    } else {
        None
    }
}

/// What was read of a combined frame and uptime report.
pub struct FrameScan {
    /// Whether the marker line was passed.
    pub after_marker: bool,
    /// The due times of the completed frames, in the order of the report.
    pub vsyncs: Seq<nat>,
    /// The first word of each line after the marker that has one.
    pub uptime_words: Seq<Seq<char>>,
}

pub open spec fn scan_line(scan: FrameScan, line: Seq<char>) -> FrameScan {
    if found(line, uptime_marker()) is Some {
        FrameScan { after_marker: true, ..scan }
    } else if scan.after_marker {
        if words(line).len() > 0 {
            FrameScan { uptime_words: scan.uptime_words.push(words(line)[0]), ..scan }
        } else {
            scan
        }
    } else {
        match frame_in(line) {
            Some(due) => FrameScan { vsyncs: scan.vsyncs.push(due), ..scan },
            None => scan,
        }
    }
}

pub open spec fn scan_lines(report_lines: Seq<Seq<char>>) -> FrameScan
    decreases report_lines.len(),
{
    if report_lines.len() == 0 {
        FrameScan { after_marker: false, vsyncs: Seq::empty(), uptime_words: Seq::empty() }
    } else {
        scan_line(scan_lines(report_lines.drop_last()), report_lines.last())
    }
}

/// The frames and the uptime words of a combined report.
#[derive(Clone, Debug, PartialEq, Eq)]
pub struct FrameStats {
    pub vsyncs: Vec<u64>,
    pub uptime_words: Vec<String>,
}

pub open spec fn naturals(values: Seq<u64>) -> Seq<nat> {
    Seq::new(values.len(), |i: int| values[i] as nat)
}

fn parse_frame(line: &str) -> (due: Option<u64>)
    ensures
        number_of(due) == frame_in(line@),
{
    let fields = split(line, ',');
    if fields.len() >= 14 {
        match (parse_u64(fields[1].as_str()), parse_u64(fields[13].as_str())) {
            (Some(due), Some(completed)) => if completed > 0 {
                Some(due)
            } else {
                None
            },
            _ => None,
        }
    } else {
        None
    }
}

/// Reads a combined frame and uptime report.
pub fn frame_stats(output: &str) -> (stats: FrameStats)
    ensures
        naturals(stats.vsyncs@) == scan_lines(lines_of(output@)).vsyncs,
        texts(stats.uptime_words@) == scan_lines(lines_of(output@)).uptime_words,
{
    let all = lines(output);
    let mut vsyncs: Vec<u64> = Vec::new();
    let mut uptime_words: Vec<String> = Vec::new();
    let mut after_marker = false;
    let mut i: usize = 0;
    while i < all.len()
        invariant
            i <= all@.len(),
            after_marker == scan_lines(texts(all@).take(i as int)).after_marker,
            naturals(vsyncs@) == scan_lines(texts(all@).take(i as int)).vsyncs,
            texts(uptime_words@) == scan_lines(texts(all@).take(i as int)).uptime_words,
        decreases all@.len() - i,
    {
        let line = all[i].as_str();
        let ghost upto = texts(all@).take(i + 1);
        assert(upto.drop_last() =~= texts(all@).take(i as int));
        if contains(line, "UPTIME_MARKER") {
            after_marker = true;
        } else if after_marker {
            let mut parts = split_whitespace(line);
            if parts.len() > 0 {
                let word = parts.swap_remove(0);
                uptime_words.push(word);
            }
        } else {
            match parse_frame(line) {
                Some(due) => {
                    vsyncs.push(due);
                },
                None => {},
            }
        }
        i = i + 1;
    }
    assert(texts(all@).take(i as int) =~= texts(all@));
    FrameStats { vsyncs, uptime_words }
}

/// What the frames of an application say of its frame rate.
#[derive(Clone, Copy, Debug, PartialEq, Eq, Structural)]
pub enum Fps {
    /// Nothing can be said.
    Unknown,
    /// The last frame is too long ago: the application draws nothing.
    Idle,
    /// So many frames followed the first one within so many nanoseconds.
    Rate { frames: u64, nanos: u64 },
}

/// The frame rate that the due times `vsyncs` show at the uptime
/// `uptime_ns`, in nanoseconds; an uptime of 0 stands for an unknown one.
pub open spec fn fps_of(vsyncs: Seq<u64>, uptime_ns: u64) -> Fps {
    if vsyncs.len() == 0 {
        Fps::Unknown
    } else if uptime_ns > vsyncs.last() && uptime_ns - vsyncs.last() > IDLE_GAP_NS {
        Fps::Idle
    } else if vsyncs.len() > 1 && vsyncs.last() > vsyncs[0] {
        Fps::Rate { frames: (vsyncs.len() - 1) as u64, nanos: (vsyncs.last() - vsyncs[0]) as u64 }
    } else {
        Fps::Unknown
    }
}

pub fn get_app_fps(vsyncs: &Vec<u64>, uptime_ns: u64) -> (fps: Fps)
    ensures
        fps == fps_of(vsyncs@, uptime_ns),
{
    if vsyncs.len() == 0 {
        return Fps::Unknown;
    }
    let first = vsyncs[0];
    let last = vsyncs[vsyncs.len() - 1];
    if uptime_ns > last && uptime_ns - last > IDLE_GAP_NS {
        Fps::Idle
    } else if vsyncs.len() > 1 && last > first {
        Fps::Rate { frames: (vsyncs.len() - 1) as u64, nanos: last - first }
    } else {
        Fps::Unknown
    }
}

/// An idle verdict needs a known uptime, and a rate needs two frames at
/// least that lie apart: so a rate never divides by zero.
pub proof fn lemma_rate_is_positive(vsyncs: Seq<u64>, uptime_ns: u64)
    requires
        vsyncs.len() <= usize::MAX,
    ensures
        fps_of(vsyncs, uptime_ns) matches Fps::Rate { frames, nanos } ==> frames > 0 && nanos > 0,
        fps_of(vsyncs, uptime_ns) == Fps::Idle ==> uptime_ns > IDLE_GAP_NS,
        fps_of(vsyncs, 0) != Fps::Idle,
{
}

/// The column of the process table that holds the processor share when
/// the table has no header.
pub const DEFAULT_CPU_COLUMN: usize = 8;

/// Whether a line is the header of the process table.
pub open spec fn is_table_header(line: Seq<char>) -> bool {
    found(line, "PID"@) is Some && found(line, "%CPU"@) is Some
}

/// The first of `columns`, from index `from` on, that names the
/// processor share; `fallback` if none does.
pub open spec fn cpu_column(columns: Seq<Seq<char>>, from: int, fallback: nat) -> nat
    decreases columns.len() - from,
{
    if from < 0 || from >= columns.len() {
        fallback
    } else if found(columns[from], "CPU"@) is Some {
        from as nat
    } else {
        cpu_column(columns, from + 1, fallback)
    }
}

/// What was read of a process table.
pub struct CpuScan {
    /// The column that holds the processor share.
    pub column: nat,
    /// The text in that column of each line that names the package.
    pub fields: Seq<Seq<char>>,
}

pub open spec fn cpu_scan_line(scan: CpuScan, line: Seq<char>, package: Seq<char>) -> CpuScan {
    if is_table_header(line) {
        CpuScan { column: cpu_column(words(line), 0, scan.column), ..scan }
    } else if found(line, package) is Some && words(line).len() > scan.column {
        CpuScan { fields: scan.fields.push(words(line)[scan.column as int]), ..scan }
    } else {
        scan
    }
}

pub open spec fn cpu_scan(table_lines: Seq<Seq<char>>, package: Seq<char>) -> CpuScan
    decreases table_lines.len(),
{
    if table_lines.len() == 0 {
        CpuScan { column: DEFAULT_CPU_COLUMN as nat, fields: Seq::empty() }
    } else {
        cpu_scan_line(cpu_scan(table_lines.drop_last(), package), table_lines.last(), package)
    }
}

/// The texts that a process table holds as the processor share of
/// `package`, in the order of the table. The share itself is the first
/// of them that is a number.
pub fn app_cpu_fields(top_output: &str, package: &str) -> (fields: Vec<String>)
    ensures
        texts(fields@) == cpu_scan(lines_of(top_output@), package@).fields,
{
    let all = lines(top_output);
    let mut fields: Vec<String> = Vec::new();
    let mut column: usize = DEFAULT_CPU_COLUMN;
    let mut i: usize = 0;
    while i < all.len()
        invariant
            i <= all@.len(),
            column == cpu_scan(texts(all@).take(i as int), package@).column,
            texts(fields@) == cpu_scan(texts(all@).take(i as int), package@).fields,
        decreases all@.len() - i,
    {
        let line = all[i].as_str();
        let ghost upto = texts(all@).take(i + 1);
        assert(upto.drop_last() =~= texts(all@).take(i as int));
        if contains(line, "PID") && contains(line, "%CPU") {
            let columns = split_whitespace(line);
            let mut k: usize = 0;
            let mut hit = false;
            while k < columns.len() && !hit
                invariant
                    k <= columns@.len(),
                    texts(columns@) == words(line@),
                    cpu_column(words(line@), 0, column as nat) == cpu_column(
                        words(line@),
                        k as int,
                        column as nat,
                    ),
                    hit ==> k < columns@.len() && found(words(line@)[k as int], "CPU"@) is Some,
                decreases
                        columns@.len() - k,
                        if hit {
                            0int
                        } else {
                            1int
                        },
            {
                if contains(columns[k].as_str(), "CPU") {
                    hit = true;
                } else {
                    k = k + 1;
                }
            }
            if hit {
                column = k;
            }
        } else if contains(line, package) {
            let mut parts = split_whitespace(line);
            if parts.len() > column {
                let field = parts.swap_remove(column);
                fields.push(field);
            }
        }
        i = i + 1;
    }
    assert(texts(all@).take(i as int) =~= texts(all@));
    fields
}

} // verus!
