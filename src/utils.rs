use vstd::prelude::*;
use vstd::arithmetic::div_mod::{lemma_div_is_ordered, lemma_div_by_multiple};
use vstd::arithmetic::mul::lemma_mul_inequality;

verus! {

/// `s` written `n` times in a row.
pub open spec fn repeat_seq(s: Seq<char>, n: nat) -> Seq<char>
    decreases n,
{
    if n == 0 {
        Seq::empty()
    } else {
        repeat_seq(s, (n - 1) as nat) + s
    }
}

/// How many glyphs remain when `used` of `max` cells are taken: none once
/// `used` reaches `max`, and none on a zero-width row.
pub open spec fn free_cells(max: int, used: int) -> nat {
    if max <= 0 || max <= used {
        0
    } else {
        (max - used) as nat
    }
}

/// Fills the free part of a row with the given glyph.
pub fn filler(glyph: &str, max: usize, used: usize) -> (r: String)
    ensures
        r@ == repeat_seq(glyph@, free_cells(max as int, used as int)),
{
    let n: usize = if max == 0 || max <= used {
        0
    } else {
        max - used
    };
    let mut out = String::new();
    let mut i: usize = 0;
    while i < n
        invariant
            i <= n,
            n == free_cells(max as int, used as int),
            out@ == repeat_seq(glyph@, i as nat),
        decreases n - i,
    {
        out.append(glyph);
        i = i + 1;
    }
    out
}

/// A dashed rule of `n` cells: the glyph on even offsets, a blank on odd ones.
pub open spec fn dashed_seq(glyph: Seq<char>, n: nat) -> Seq<char>
    decreases n,
{
    if n == 0 {
        Seq::empty()
    } else {
        dashed_seq(glyph, (n - 1) as nat) + (if (n - 1) % 2 == 0 {
            glyph
        } else {
            seq![' ']
        })
    }
}

/// Fills the free part of a row with a dashed rule that starts with the glyph.
pub fn fill_on_even(glyph: &str, size: usize, len: usize) -> (r: String)
    ensures
        r@ == dashed_seq(glyph@, free_cells(size as int, len as int)),
{
    let n: usize = if size == 0 || size <= len {
        0
    } else {
        size - len
    };
    let blank = " ";
    proof {
        reveal_strlit(" ");
    }
    assert(blank@ =~= seq![' ']);
    let mut out = String::new();
    let mut i: usize = 0;
    while i < n
        invariant
            i <= n,
            n == free_cells(size as int, len as int),
            blank@ == seq![' '],
            out@ == dashed_seq(glyph@, i as nat),
        decreases n - i,
    {
        if i % 2 == 0 {
            out.append(glyph);
        } else {
            out.append(blank);
        }
        i = i + 1;
    }
    out
}

/// Splits a value into two parts that sum to it, the second one larger by the remainder.
pub fn balanced_split(value: usize) -> (r: Vec<usize>)
    ensures
        r@.len() == 2,
        r@[0] == value / 2,
        r@[1] == value / 2 + value % 2,
        r@[0] + r@[1] == value,
        r@[0] <= r@[1] <= r@[0] + 1,
{
    vec![value / 2, value / 2 + value % 2]
}

/// The smallest element of a non-empty sequence.
pub open spec fn min_of(s: Seq<u128>) -> u128
    recommends
        s.len() > 0,
    decreases s.len(),
{
    if s.len() <= 1 {
        s[0]
    } else {
        let m = min_of(s.drop_last());
        if s.last() < m {
            s.last()
        } else {
            m
        }
    }
}

/// The largest element of a non-empty sequence.
pub open spec fn max_of(s: Seq<u128>) -> u128
    recommends
        s.len() > 0,
    decreases s.len(),
{
    if s.len() <= 1 {
        s[0]
    } else {
        let m = max_of(s.drop_last());
        if s.last() > m {
            s.last()
        } else {
            m
        }
    }
}

/// `min_of` is an element of the sequence and no element is below it.
pub proof fn lemma_min_of(s: Seq<u128>)
    requires
        s.len() > 0,
    ensures
        exists|i: int| 0 <= i < s.len() && s[i] == min_of(s),
        forall|i: int| 0 <= i < s.len() ==> min_of(s) <= s[i],
    decreases s.len(),
{
    if s.len() > 1 {
        lemma_min_of(s.drop_last());
        let m = min_of(s.drop_last());
        let k = choose|k: int| 0 <= k < s.drop_last().len() && s.drop_last()[k] == m;
        assert(s[k] == m);
        if s.last() < m {
            assert(s[s.len() - 1] == min_of(s));
        }
        assert forall|i: int| 0 <= i < s.len() implies min_of(s) <= s[i] by {
            if i < s.len() - 1 {
                assert(s.drop_last()[i] == s[i]);
            }
        }
    } else {
        assert(s[0] == min_of(s));
    }
}

/// `max_of` is an element of the sequence and no element is above it.
pub proof fn lemma_max_of(s: Seq<u128>)
    requires
        s.len() > 0,
    ensures
        exists|i: int| 0 <= i < s.len() && s[i] == max_of(s),
        forall|i: int| 0 <= i < s.len() ==> s[i] <= max_of(s),
    decreases s.len(),
{
    if s.len() > 1 {
        lemma_max_of(s.drop_last());
        let m = max_of(s.drop_last());
        let k = choose|k: int| 0 <= k < s.drop_last().len() && s.drop_last()[k] == m;
        assert(s[k] == m);
        if s.last() > m {
            assert(s[s.len() - 1] == max_of(s));
        }
        assert forall|i: int| 0 <= i < s.len() implies s[i] <= max_of(s) by {
            if i < s.len() - 1 {
                assert(s.drop_last()[i] == s[i]);
            }
        }
    } else {
        assert(s[0] == max_of(s));
    }
}

/// Where `v` lands when `[lo, hi]` is mapped linearly onto `[floor, ceil]`,
/// with the division truncated.
pub open spec fn scale_point(v: u128, lo: u128, hi: u128, floor: usize, ceil: usize) -> int {
    (ceil - floor) * (v - lo) / (hi - lo) + floor
}

/// The linear rescale of `nums` onto `[floor, ceil]`, or `None` where the
/// numbers have no spread to scale by.
pub open spec fn scale_spec(nums: Seq<u128>, floor: usize, ceil: usize) -> Option<Seq<int>> {
    if nums.len() == 0 || min_of(nums) == max_of(nums) {
        None
    } else {
        Some(
            Seq::new(
                nums.len(),
                |i: int| scale_point(nums[i], min_of(nums), max_of(nums), floor, ceil),
            ),
        )
    }
}

/// Whether the rescale of `nums` stays within `u128` on the way.
pub open spec fn scale_fits(nums: Seq<u128>, floor: usize, ceil: usize) -> bool {
    nums.len() > 0 ==> (ceil - floor) * (max_of(nums) - min_of(nums)) <= u128::MAX
}

/// Rescales the numbers linearly onto `[floor, ceil]`: the smallest goes to
/// `floor`, the largest to `ceil`. Without a spread (no numbers, or all equal)
/// there is no scale, and no result, whatever `floor` and `ceil` are.
pub fn scale_between(nums: Vec<u128>, floor: usize, ceil: usize) -> (r: Option<Vec<usize>>)
    requires
        nums@.len() > 0 && min_of(nums@) != max_of(nums@) ==> floor <= ceil,
        scale_fits(nums@, floor, ceil),
    ensures
        match r {
            None => scale_spec(nums@, floor, ceil) is None,
            Some(v) => scale_spec(nums@, floor, ceil) == Some(v@.map_values(|x: usize| x as int)),
        },
{
    let n = nums.len();
    if n == 0 {
        return None;
    }
    let mut lo: u128 = nums[0];
    let mut hi: u128 = nums[0];
    let mut i: usize = 1;
    while i < n
        invariant
            1 <= i <= n,
            n == nums@.len(),
            lo == min_of(nums@.subrange(0, i as int)),
            hi == max_of(nums@.subrange(0, i as int)),
        decreases n - i,
    {
        assert(nums@.subrange(0, i + 1).drop_last() =~= nums@.subrange(0, i as int));
        if nums[i] < lo {
            lo = nums[i];
        }
        if nums[i] > hi {
            hi = nums[i];
        }
        i = i + 1;
    }
    assert(nums@.subrange(0, n as int) =~= nums@);
    if lo == hi {
        return None;
    }
    proof {
        lemma_min_of(nums@);
        lemma_max_of(nums@);
    }
    let width: u128 = (ceil - floor) as u128;
    let spread: u128 = hi - lo;
    let mut out: Vec<usize> = Vec::new();
    let mut j: usize = 0;
    while j < n
        invariant
            j <= n,
            n == nums@.len(),
            lo == min_of(nums@),
            hi == max_of(nums@),
            lo < hi,
            floor <= ceil,
            width == ceil - floor,
            spread == hi - lo,
            width * spread <= u128::MAX,
            forall|k: int| 0 <= k < n ==> lo <= #[trigger] nums@[k] <= hi,
            out@.len() == j,
            forall|k: int|
                0 <= k < j ==> out@[k] == scale_point(nums@[k], lo, hi, floor, ceil),
        decreases n - j,
    {
        let v = nums[j];
        let off: u128 = v - lo;
        proof {
            lemma_mul_inequality(off as int, spread as int, width as int);
            assert(off * width <= spread * width);
            lemma_div_is_ordered((width * off) as int, (width * spread) as int, spread as int);
            lemma_div_by_multiple(width as int, spread as int);
        }
        let q: u128 = width * off / spread;
        assert(q <= width);
        let val: usize = (q as usize) + floor;
        out.push(val);
        j = j + 1;
    }
    assert(out@.map_values(|x: usize| x as int) =~= scale_spec(nums@, floor, ceil)->0);
    Some(out)
}

/// A rescale of numbers that are all equal has no result.
pub proof fn lemma_constant_input_has_no_scale(nums: Seq<u128>, floor: usize, ceil: usize)
    requires
        forall|i: int, j: int| 0 <= i < nums.len() && 0 <= j < nums.len() ==> nums[i] == nums[j],
    ensures
        scale_spec(nums, floor, ceil) is None,
{
    if nums.len() > 0 {
        lemma_min_of(nums);
        lemma_max_of(nums);
    }
}

/// In a rescale onto `[floor, ceil]`, an element no larger than any other maps
/// to `floor`, one no smaller than any other maps to `ceil`, and the order of
/// any two elements is kept.
pub proof fn lemma_scale_ends_and_order(nums: Seq<u128>, floor: usize, ceil: usize, i: int, j: int)
    requires
        floor <= ceil,
        scale_spec(nums, floor, ceil) is Some,
        0 <= i < nums.len(),
        0 <= j < nums.len(),
    ensures
        (forall|k: int| 0 <= k < nums.len() ==> nums[i] <= #[trigger] nums[k])
            ==> scale_spec(nums, floor, ceil)->0[i] == floor,
        (forall|k: int| 0 <= k < nums.len() ==> #[trigger] nums[k] <= nums[i])
            ==> scale_spec(nums, floor, ceil)->0[i] == ceil,
        nums[i] <= nums[j] ==> scale_spec(nums, floor, ceil)->0[i] <= scale_spec(nums, floor, ceil)->0[j],
{
    lemma_min_of(nums);
    lemma_max_of(nums);
    let lo = min_of(nums);
    let hi = max_of(nums);
    let w: int = ceil - floor;
    let d: int = hi - lo;
    assert(d > 0);
    if forall|k: int| 0 <= k < nums.len() ==> nums[i] <= #[trigger] nums[k] {
        let m = choose|m: int| 0 <= m < nums.len() && nums[m] == lo;
        assert(nums[i] <= nums[m]);
        assert(nums[i] == lo);
        assert(w * 0 == 0);
    }
    if forall|k: int| 0 <= k < nums.len() ==> #[trigger] nums[k] <= nums[i] {
        let m = choose|m: int| 0 <= m < nums.len() && nums[m] == hi;
        assert(nums[m] <= nums[i]);
        assert(nums[i] == hi);
        lemma_div_by_multiple(w, d);
    }
    if nums[i] <= nums[j] {
        let a: int = nums[i] - lo;
        let b: int = nums[j] - lo;
        lemma_mul_inequality(a, b, w);
        assert(a * w == w * a && b * w == w * b) by (nonlinear_arith);
        lemma_div_is_ordered(w * a, w * b, d);
    }
}

/// How full a status bar reads: under half of its room, under three quarters, or more.
#[derive(Debug, Clone, Copy, PartialEq, Eq, Structural)]
pub enum Severity {
    Low,
    Medium,
    High,
}

/// The severity of a bar of `perc` cells out of `max`.
pub open spec fn severity_spec(perc: usize, max: usize) -> Severity {
    if perc < max / 2 {
        Severity::Low
    } else if perc < max - max / 4 {
        Severity::Medium
    } else {
        Severity::High
    }
}

/// A status bar: `perc` full cells, with the severity it reads as.
pub fn usize_to_status(perc: usize, max: usize) -> (r: (String, Severity))
    ensures
        r.0@ == repeat_seq(full_block_seq(), free_cells(perc as int, 0)),
        r.1 == severity_spec(perc, max),
{
    let fill = filler(full_block(), perc, 0);
    if perc < max / 2 {
        (fill, Severity::Low)
    } else if perc < max - (max / 4) {
        (fill, Severity::Medium)
    } else {
        (fill, Severity::High)
    }
}

/// A full block, the cell of a status bar.
pub open spec fn full_block_seq() -> Seq<char> {
    seq!['\u{2588}']
}

fn full_block() -> (r: &'static str)
    ensures
        r@ == full_block_seq(),
{
    let r = "\u{2588}";
    proof {
        reveal_strlit("\u{2588}");
    }
    assert(r@ =~= full_block_seq());
    r
}

/// Strings seen as characters.
pub open spec fn strings_view(v: Seq<String>) -> Seq<Seq<char>> {
    v.map_values(|s: String| s@)
}

/// The producer's arguments: its JSON stats mode, then the containers asked for.
pub fn build_command(containers: Vec<String>) -> (r: Vec<String>)
    ensures
        strings_view(r@) == seq!["stats"@, "--format"@, "json"@] + strings_view(containers@),
{
    let mut command = vec![String::from_str("stats"), String::from_str("--format"), String::from_str("json")];
    let ghost head = strings_view(command@);
    assert(head =~= seq!["stats"@, "--format"@, "json"@]);
    let mut rest = containers;
    let ghost tail = strings_view(rest@);
    command.append(&mut rest);
    assert(strings_view(command@) =~= head + tail);
    command
}

/// The width of the output: the terminal's when it is known, else 80 columns.
pub fn width_or_default(columns: Option<u16>) -> (r: usize)
    ensures
        r == match columns {
            Some(w) => w as usize,
            None => 80,
        },
{
    match columns {
        Some(w) => w as usize,
        None => 80,
    }
}

} // verus!
