use vstd::prelude::*;
use vstd::utf8::encode_utf8;
use crate::data::DockerStats;
use crate::text::{split_once_only, split_pair};
use crate::utils::{
    balanced_split, dashed_seq, fill_on_even, filler, free_cells, full_block_seq, repeat_seq,
    max_of, min_of, scale_between, scale_fits, scale_spec, severity_spec, usize_to_status, Severity,
};

verus! {

/// How a piece of a frame is to be shown; the terminal's palette is chosen
/// by whoever writes the frame out.
#[derive(Debug, Clone, Copy, PartialEq, Eq, Structural)]
pub enum Style {
    /// Ordinary text.
    Plain,
    /// Faint text: the unused part of a bar, and dividers.
    Dimmed,
    /// A usage bar, by how full it reads.
    Status(Severity),
    /// Bytes received.
    Received,
    /// Bytes sent.
    Sent,
    /// Bytes read from block devices.
    Read,
    /// Bytes written to block devices.
    Written,
}

/// A run of text in one style.
#[derive(Debug)]
pub struct Segment {
    pub text: String,
    pub style: Style,
}

/// One line of a frame as characters and styles.
pub open spec fn line_view(l: Seq<Segment>) -> Seq<(Seq<char>, Style)> {
    l.map_values(|s: Segment| (s.text@, s.style))
}

/// The length in bytes of the text, as `str::len` gives it.
pub open spec fn byte_len(s: Seq<char>) -> usize {
    encode_utf8(s).len() as usize
}

/// The columns a CPU row spends on everything but its bar.
pub const CPU_OVERHEAD: usize = 18;

/// The header of a container's panel: a solid top border when panels are
/// drawn apart or this one comes first, else a dashed junction.
pub open spec fn header_spec(width: usize, joined: bool, name: Seq<char>) -> Seq<(Seq<char>, Style)> {
    let used = byte_len(name) + 5;
    if !joined {
        seq![("┌─ "@ + name + " "@ + repeat_seq("─"@, free_cells(width as int, used)) + "┐"@, Style::Plain)]
    } else {
        seq![("├─ "@ + name + " "@ + dashed_seq("─"@, free_cells(width as int, used)) + "┤"@, Style::Plain)]
    }
}

/// The CPU row: the reading right-aligned in seven columns, a bar of `bar`
/// cells read against the row's room, and the rest of the row faint.
pub open spec fn cpu_row_spec(width: usize, perc: Seq<char>, bar: usize) -> Seq<(Seq<char>, Style)> {
    seq![
        ("│ CPU | "@ + repeat_seq(" "@, free_cells(7, byte_len(perc) as int)) + perc + " "@, Style::Plain),
        (repeat_seq(full_block_seq(), bar as nat), Style::Status(severity_spec(bar, (width - CPU_OVERHEAD) as usize))),
        (repeat_seq("░"@, free_cells(width as int, bar + CPU_OVERHEAD)), Style::Dimmed),
        (" │"@, Style::Plain),
    ]
}

/// The columns a memory row spends on everything but its bar.
pub open spec fn mem_overhead(usage: Seq<char>) -> int {
    CPU_OVERHEAD + byte_len(usage) + 1
}

/// The memory row: as the CPU row, with the "used / limit" text at its end.
pub open spec fn mem_row_spec(width: usize, perc: Seq<char>, usage: Seq<char>, bar: usize) -> Seq<(Seq<char>, Style)> {
    seq![
        ("│ RAM | "@ + repeat_seq(" "@, free_cells(7, byte_len(perc) as int)) + perc + " "@, Style::Plain),
        (repeat_seq(full_block_seq(), bar as nat), Style::Status(severity_spec(bar, (width - mem_overhead(usage)) as usize))),
        (repeat_seq("░"@, free_cells(width as int, bar + mem_overhead(usage))), Style::Dimmed),
        (" "@ + usage + " │"@, Style::Plain),
    ]
}

/// The bottom border of a panel.
pub open spec fn bottom_spec(width: usize) -> Seq<(Seq<char>, Style)> {
    seq![("└"@ + repeat_seq("─"@, free_cells(width as int, 2)) + "┘"@, Style::Plain)]
}

/// The byte count that `byte_unit` reads from a human-readable size such as
/// `"1.2kB"`, or `None` where it reads none.
pub uninterp spec fn byte_count_of(s: Seq<char>) -> Option<u128>;

#[verifier::external_type_specification]
#[verifier::external_body]
pub struct ExByteParseError(byte_unit::ParseError);

/// Relies on `byte_unit::Byte::parse_str` (the unit's case ignored) and
/// `Byte::as_u128`: the byte count of a human-readable size.
#[verifier::external_body]
fn parse_byte_count(s: &str) -> (r: Result<u128, byte_unit::ParseError>)
    ensures
        match r {
            Ok(v) => byte_count_of(s@) == Some(v),
            Err(_) => byte_count_of(s@) is None,
        },
{
    byte_unit::Byte::parse_str(s, true).map(|b| b.as_u128())
}

/// The columns shared by the two halves of a traffic row.
pub open spec fn pair_room(width: usize) -> int {
    width - 11
}

/// The two halves of a traffic row from a raw "a / b" pair of sizes: the sizes
/// rescaled onto `[1, width - 12]` (a width of at least 13), or an even split of the room where the
/// text is not one pair or the two sizes are equal. `None` where a size does
/// not parse, or is too large to rescale.
pub open spec fn pair_split_spec(width: usize, raw: Seq<char>) -> Option<Seq<int>> {
    let room = pair_room(width);
    let even = seq![room / 2, room / 2 + room % 2];
    match split_pair(raw, " / "@) {
        None => Some(even),
        Some((a, b)) => match (byte_count_of(a), byte_count_of(b)) {
            (Some(x), Some(y)) => {
                let nums = seq![x, y];
                if !scale_fits(nums, 1, (width - 12) as usize) {
                    None
                } else {
                    match scale_spec(nums, 1, (width - 12) as usize) {
                        Some(v) => Some(v),
                        None => Some(even),
                    }
                }
            },
            _ => None,
        },
    }
}

/// The divider above the traffic rows.
pub open spec fn rule_spec(width: usize) -> Seq<(Seq<char>, Style)> {
    seq![
        ("│"@, Style::Plain),
        (dashed_seq("─"@, free_cells(width as int, 2)), Style::Dimmed),
        ("│"@, Style::Plain),
    ]
}

/// The network row for halves `a` and `b`.
pub open spec fn net_row_spec(width: usize, a: int, b: int) -> Seq<(Seq<char>, Style)> {
    seq![
        ("│ NET | "@, Style::Plain),
        (repeat_seq("▒"@, free_cells(pair_room(width), a)), Style::Received),
        ("░"@, Style::Dimmed),
        (repeat_seq("▒"@, free_cells(pair_room(width), b)), Style::Sent),
        (" │"@, Style::Plain),
    ]
}

/// The block-device row for halves `a` and `b`.
pub open spec fn io_row_spec(a: int, b: int) -> Seq<(Seq<char>, Style)> {
    seq![
        ("│  IO | "@, Style::Plain),
        (repeat_seq("▒"@, free_cells(a, 0)), Style::Read),
        ("░"@, Style::Dimmed),
        (repeat_seq("▒"@, free_cells(b, 0)), Style::Written),
        (" │"@, Style::Plain),
    ]
}

/// The rows that the detailed view adds to a panel: the divider, then the
/// network and block-device rows where their pairs parse.
pub open spec fn full_rows_spec(width: usize, s: DockerStats) -> Seq<Seq<(Seq<char>, Style)>> {
    let net = match pair_split_spec(width, s.net_io@) {
        Some(v) => seq![net_row_spec(width, v[0], v[1])],
        None => Seq::empty(),
    };
    let io = match pair_split_spec(width, s.block_io@) {
        Some(v) => seq![io_row_spec(v[0], v[1])],
        None => Seq::empty(),
    };
    seq![rule_spec(width)] + net + io
}

/// A frame's lines as characters and styles.
pub open spec fn frame_view(f: Seq<Vec<Segment>>) -> Seq<Seq<(Seq<char>, Style)>> {
    f.map_values(|l: Vec<Segment>| line_view(l@))
}

/// Whether every panel fits the width: its memory row needs room for the
/// usage text.
pub open spec fn panels_fit(width: usize, cs: Seq<DockerStats>) -> bool {
    forall|i: int| 0 <= i < cs.len() ==> width >= mem_overhead(#[trigger] cs[i].mem_usage@)
}

fn plain(text: String) -> (r: Segment)
    ensures
        r.text@ == text@,
        r.style == Style::Plain,
{
    Segment { text, style: Style::Plain }
}

/// Draws the container panels of a frame.
pub struct StatsDisplay {
    width: usize,
    compact: bool,
    full: bool,
}

impl StatsDisplay {
    /// The lines of the panel at `index` of `total`, with bars of `bars.0`
    /// cells for CPU and `bars.1` for memory.
    pub open spec fn panel_spec(&self, s: DockerStats, index: int, total: int, bars: (usize, usize)) -> Seq<Seq<(Seq<char>, Style)>> {
        let head = seq![
            header_spec(self.width(), self.compact() && index != 0, s.name@),
            cpu_row_spec(self.width(), s.cpu_perc@, bars.0),
            mem_row_spec(self.width(), s.mem_perc@, s.mem_usage@, bars.1),
        ];
        let more = if self.full() {
            full_rows_spec(self.width(), s)
        } else {
            Seq::empty()
        };
        let end = if !self.compact() || index == total - 1 {
            seq![bottom_spec(self.width())]
        } else {
            Seq::empty()
        };
        head + more + end
    }

    /// The panels of the first `k` containers, one after the other.
    pub open spec fn panels_spec(&self, cs: Seq<DockerStats>, bars: Seq<(usize, usize)>, k: nat) -> Seq<Seq<(Seq<char>, Style)>>
        decreases k,
    {
        if k == 0 {
            Seq::empty()
        } else {
            self.panels_spec(cs, bars, (k - 1) as nat) + self.panel_spec(
                cs[k - 1],
                k - 1,
                cs.len() as int,
                bars[k - 1],
            )
        }
    }

    /// A whole frame: a waiting notice or the panels, then the exit hint.
    pub open spec fn frame_spec(&self, cs: Seq<DockerStats>, bars: Seq<(usize, usize)>) -> Seq<Seq<(Seq<char>, Style)>> {
        let body = if cs.len() == 0 {
            seq![seq![("Waiting for container stats..."@, Style::Plain)]]
        } else {
            self.panels_spec(cs, bars, cs.len())
        };
        body + seq![seq![("Press Ctrl+C to exit"@, Style::Plain)]]
    }

    pub closed spec fn width(&self) -> usize {
        self.width
    }

    pub closed spec fn compact(&self) -> bool {
        self.compact
    }

    pub closed spec fn full(&self) -> bool {
        self.full
    }

    pub fn new(width: usize, compact: bool, full: bool) -> (r: Self)
        ensures
            r.width() == width,
            r.compact() == compact,
            r.full() == full,
    {
        StatsDisplay { width, compact, full }
    }

    /// The columns that a CPU bar may fill.
    pub fn cpu_room(&self) -> (r: usize)
        requires
            self.width() >= CPU_OVERHEAD,
        ensures
            r == self.width() - CPU_OVERHEAD,
    {
        self.width - CPU_OVERHEAD
    }

    /// The columns that a memory bar may fill beside the given usage text.
    pub fn mem_room(&self, mem_usage: &str) -> (r: usize)
        requires
            self.width() >= mem_overhead(mem_usage@),
        ensures
            r == self.width() - mem_overhead(mem_usage@),
    {
        self.width - (CPU_OVERHEAD + mem_usage.len() + 1)
    }

    /// The header line of the panel at `index`.
    pub fn header(&self, name: &str, index: usize) -> (r: Vec<Segment>)
        ensures
            line_view(r@) == header_spec(self.width(), self.compact() && index != 0, name@),
    {
        let used = name.len().saturating_add(5);
        let text = if !self.compact || index == 0 {
            let fill = filler("─", self.width, used);
            String::from_str("┌─ ").concat(name).concat(" ").concat(fill.as_str()).concat("┐")
        } else {
            let fill = fill_on_even("─", self.width, used);
            String::from_str("├─ ").concat(name).concat(" ").concat(fill.as_str()).concat("┤")
        };
        let r = vec![plain(text)];
        assert(line_view(r@) =~= header_spec(self.width(), self.compact() && index != 0, name@));
        r
    }

    /// The CPU line of a panel, with a bar of `bar` cells.
    pub fn cpu_row(&self, cpu_perc: &str, bar: usize) -> (r: Vec<Segment>)
        requires
            self.width() >= CPU_OVERHEAD,
        ensures
            line_view(r@) == cpu_row_spec(self.width(), cpu_perc@, bar),
    {
        let pad = filler(" ", 7, cpu_perc.len());
        let lead = String::from_str("│ CPU | ").concat(pad.as_str()).concat(cpu_perc).concat(" ");
        let (status, severity) = usize_to_status(bar, self.width - CPU_OVERHEAD);
        let rest = filler("░", self.width, bar.saturating_add(CPU_OVERHEAD));
        let r = vec![
            plain(lead),
            Segment { text: status, style: Style::Status(severity) },
            Segment { text: rest, style: Style::Dimmed },
            plain(String::from_str(" │")),
        ];
        assert(line_view(r@) =~= cpu_row_spec(self.width(), cpu_perc@, bar));
        r
    }

    /// The memory line of a panel, with a bar of `bar` cells.
    pub fn mem_row(&self, mem_perc: &str, mem_usage: &str, bar: usize) -> (r: Vec<Segment>)
        requires
            self.width() >= mem_overhead(mem_usage@),
        ensures
            line_view(r@) == mem_row_spec(self.width(), mem_perc@, mem_usage@, bar),
    {
        let overhead = CPU_OVERHEAD + mem_usage.len() + 1;
        let pad = filler(" ", 7, mem_perc.len());
        let lead = String::from_str("│ RAM | ").concat(pad.as_str()).concat(mem_perc).concat(" ");
        let (status, severity) = usize_to_status(bar, self.width - overhead);
        let rest = filler("░", self.width, bar.saturating_add(overhead));
        let tail = String::from_str(" ").concat(mem_usage).concat(" │");
        let r = vec![
            plain(lead),
            Segment { text: status, style: Style::Status(severity) },
            Segment { text: rest, style: Style::Dimmed },
            plain(tail),
        ];
        assert(line_view(r@) =~= mem_row_spec(self.width(), mem_perc@, mem_usage@, bar));
        r
    }

    /// The two halves of a traffic row, from its raw "a / b" text.
    pub fn parse_io_pair(&self, raw: &str) -> (r: Option<Vec<usize>>)
        requires
            self.width() >= 13,
        ensures
            match r {
                Some(v) => pair_split_spec(self.width(), raw@) == Some(v@.map_values(|x: usize| x as int)),
                None => pair_split_spec(self.width(), raw@) is None,
            },
            r matches Some(v) ==> v@.len() == 2,
    {
        let room = self.width - 11;
        let sep = " / ";
        proof {
            reveal_strlit(" / ");
        }
        let parts = split_once_only(raw, sep);
        let (a, b) = match parts {
            None => {
                let even = balanced_split(room);
                assert(even@.map_values(|x: usize| x as int) =~= pair_split_spec(self.width(), raw@)->0);
                return Some(even);
            },
            Some(p) => p,
        };
        let x = match parse_byte_count(a.as_str()) {
            Ok(x) => x,
            Err(_) => return None,
        };
        let y = match parse_byte_count(b.as_str()) {
            Ok(y) => y,
            Err(_) => return None,
        };
        let ceil = self.width - 12;
        let lo = if x < y { x } else { y };
        let hi = if x < y { y } else { x };
        let ghost nums = seq![x, y];
        assert(nums.drop_last() =~= seq![x]);
        assert(min_of(nums) == lo && max_of(nums) == hi) by {
            assert(min_of(seq![x]) == x);
            assert(max_of(seq![x]) == x);
            assert(nums.last() == y);
            assert(nums.len() == 2);
        }
        if ((ceil - 1) as u128).checked_mul(hi - lo).is_none() {
            return None;
        }
        assert(scale_fits(nums, 1, ceil));
        let scaled = scale_between(vec![x, y], 1, ceil);
        match scaled {
            Some(v) => {
                assert(v@.map_values(|x: usize| x as int).len() == v@.len());
                Some(v)
            },
            None => {
                let even = balanced_split(room);
                assert(even@.map_values(|x: usize| x as int) =~= pair_split_spec(self.width(), raw@)->0);
                Some(even)
            },
        }
    }

    /// The rows of the detailed view: the divider, then network and block-device
    /// traffic where their pairs parse.
    pub fn full_rows(&self, stats: &DockerStats) -> (r: Vec<Vec<Segment>>)
        requires
            self.width() >= 13,
        ensures
            frame_view(r@) == full_rows_spec(self.width(), *stats),
    {
        let mut out: Vec<Vec<Segment>> = Vec::new();
        let rule = fill_on_even("─", self.width, 2);
        let first = vec![
            plain(String::from_str("│")),
            Segment { text: rule, style: Style::Dimmed },
            plain(String::from_str("│")),
        ];
        assert(line_view(first@) =~= rule_spec(self.width()));
        out.push(first);
        let ghost rows0 = frame_view(out@);
        assert(rows0 =~= seq![rule_spec(self.width())]);
        let room = self.width - 11;
        match self.parse_io_pair(stats.net_io.as_str()) {
            Some(net) => {
                let rx = filler("▒", room, net[0]);
                let tx = filler("▒", room, net[1]);
                let line = vec![
                    plain(String::from_str("│ NET | ")),
                    Segment { text: rx, style: Style::Received },
                    Segment { text: String::from_str("░"), style: Style::Dimmed },
                    Segment { text: tx, style: Style::Sent },
                    plain(String::from_str(" │")),
                ];
                assert(line_view(line@) =~= net_row_spec(self.width(), net@[0] as int, net@[1] as int));
                out.push(line);
            },
            None => {},
        }
        let ghost rows1 = frame_view(out@);
        match self.parse_io_pair(stats.block_io.as_str()) {
            Some(io) => {
                let rd = filler("▒", io[0], 0);
                let wr = filler("▒", io[1], 0);
                let line = vec![
                    plain(String::from_str("│  IO | ")),
                    Segment { text: rd, style: Style::Read },
                    Segment { text: String::from_str("░"), style: Style::Dimmed },
                    Segment { text: wr, style: Style::Written },
                    plain(String::from_str(" │")),
                ];
                assert(line_view(line@) =~= io_row_spec(io@[0] as int, io@[1] as int));
                out.push(line);
            },
            None => {},
        }
        assert(frame_view(out@) =~= full_rows_spec(self.width(), *stats));
        out
    }

    /// The lines of the panel at `index` of `total`, with bars of `cpu_bar`
    /// and `mem_bar` cells.
    pub fn panel(&self, stats: &DockerStats, index: usize, total: usize, cpu_bar: usize, mem_bar: usize) -> (r: Vec<Vec<Segment>>)
        requires
            self.width() >= mem_overhead(stats.mem_usage@),
            index < total,
        ensures
            frame_view(r@) == self.panel_spec(*stats, index as int, total as int, (cpu_bar, mem_bar)),
    {
        let mut out: Vec<Vec<Segment>> = Vec::new();
        out.push(self.header(stats.name.as_str(), index));
        out.push(self.cpu_row(stats.cpu_perc.as_str(), cpu_bar));
        out.push(self.mem_row(stats.mem_perc.as_str(), stats.mem_usage.as_str(), mem_bar));
        let ghost head = frame_view(out@);
        if self.full {
            let mut more = self.full_rows(stats);
            out.append(&mut more);
        }
        if !self.compact || index == total - 1 {
            out.push(self.bottom());
        }
        assert(frame_view(out@) =~= self.panel_spec(*stats, index as int, total as int, (cpu_bar, mem_bar)));
        out
    }

    /// A whole frame for the given containers, in order, with the bars that
    /// `bars` gives for each: a waiting notice where there are none, then the
    /// exit hint.
    pub fn frame(&self, containers: &[DockerStats], bars: &[(usize, usize)]) -> (r: Vec<Vec<Segment>>)
        requires
            bars@.len() == containers@.len(),
            panels_fit(self.width(), containers@),
        ensures
            frame_view(r@) == self.frame_spec(containers@, bars@),
    {
        let mut out: Vec<Vec<Segment>> = Vec::new();
        let n = containers.len();
        if n == 0 {
            let waiting = vec![plain(String::from_str("Waiting for container stats..."))];
            assert(line_view(waiting@) =~= seq![("Waiting for container stats..."@, Style::Plain)]);
            out.push(waiting);
            assert(frame_view(out@) =~= seq![seq![("Waiting for container stats..."@, Style::Plain)]]);
        } else {
            let mut i: usize = 0;
            while i < n
                invariant
                    i <= n,
                    n == containers@.len(),
                    bars@.len() == n,
                    panels_fit(self.width(), containers@),
                    frame_view(out@) == self.panels_spec(containers@, bars@, i as nat),
                decreases n - i,
            {
                let (cpu_bar, mem_bar) = bars[i];
                let mut panel = self.panel(&containers[i], i, n, cpu_bar, mem_bar);
                let ghost before = out@;
                let ghost added = panel@;
                out.append(&mut panel);
                assert(frame_view(out@) =~= frame_view(before) + frame_view(added));
                i = i + 1;
            }
        }
        let ghost body = frame_view(out@);
        let hint = vec![plain(String::from_str("Press Ctrl+C to exit"))];
        assert(line_view(hint@) =~= seq![("Press Ctrl+C to exit"@, Style::Plain)]);
        out.push(hint);
        assert(frame_view(out@) =~= self.frame_spec(containers@, bars@));
        out
    }

    /// The bottom border of a panel.
    pub fn bottom(&self) -> (r: Vec<Segment>)
        ensures
            line_view(r@) == bottom_spec(self.width()),
    {
        let fill = filler("─", self.width, 2);
        let r = vec![plain(String::from_str("└").concat(fill.as_str()).concat("┘"))];
        assert(line_view(r@) =~= bottom_spec(self.width()));
        r
    }
}

} // verus!
