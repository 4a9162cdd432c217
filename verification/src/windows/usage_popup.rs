//! Integer layout of the usage detail popup: its columns, the daily usage
//! chart and the size at which it can be rendered.

use vstd::prelude::*;

use super::widget::{logical_to_physical, physical, Rect};
use crate::text::{chars_of, string_of};

verus! {

/// Logical height of the daily usage chart.
pub const DAILY_USAGE_CHART_HEIGHT_LOGICAL: i32 = 53;

/// Logical gap between the chart and its dates.
pub const DAILY_USAGE_DATE_GAP_LOGICAL: i32 = 4;

/// Logical height of the date row.
pub const DAILY_USAGE_DATE_HEIGHT_LOGICAL: i32 = 16;

/// Logical width of one date label.
pub const DAILY_USAGE_DATE_WIDTH_LOGICAL: i32 = 44;

/// The role of a text block in the popup.
#[derive(Clone, Copy, Debug, PartialEq, Eq, Structural)]
pub enum TextStyle {
    Meta,
    Label,
    Body,
    Headline,
    Title,
    Error,
}

/// `FW_NORMAL`.
pub const FW_NORMAL: i32 = 400;

/// `FW_MEDIUM`.
pub const FW_MEDIUM: i32 = 500;

/// `FW_SEMIBOLD`.
pub const FW_SEMIBOLD: i32 = 600;

impl TextStyle {
    pub open spec fn spec_size(self) -> i32 {
        match self {
            TextStyle::Meta => 12,
            TextStyle::Label => 14,
            TextStyle::Body | TextStyle::Error => 13,
            TextStyle::Headline => 28,
            TextStyle::Title => 18,
        }
    }

    /// Logical font size of the style.
    pub fn size(self) -> (s: i32)
        ensures
            s == self.spec_size(),
    {
        match self {
            TextStyle::Meta => 12,
            TextStyle::Label => 14,
            TextStyle::Body | TextStyle::Error => 13,
            TextStyle::Headline => 28,
            TextStyle::Title => 18,
        }
    }

    /// Font weight of the style: labels, headlines and titles are semibold.
    pub fn weight(self) -> (w: i32)
        ensures
            w == (if self == TextStyle::Label || self == TextStyle::Headline || self == TextStyle::Title {
                FW_SEMIBOLD
            } else {
                FW_NORMAL
            }),
    {
        if matches!(self, TextStyle::Label | TextStyle::Headline | TextStyle::Title) {
            FW_SEMIBOLD
        } else {
            FW_NORMAL
        }
    }
}

/// The physical size of a logical length at `dpi`, as `i32` truncation gives.
pub open spec fn px(value: i32, dpi: u32) -> i32 {
    #[verifier::truncate] (physical(value as int, dpi as int) as i32)
}

/// Widths and DPIs for which the popup arithmetic stays in `i32`.
pub open spec fn popup_width_in_range(width: i32, dpi: u32) -> bool {
    &&& -0x100_0000 <= width <= 0x100_0000
    &&& dpi <= 100_000
}

proof fn lemma_px_bounds(value: i32, dpi: u32)
    requires
        0 <= value <= 400,
        dpi <= 100_000,
    ensures
        0 <= physical(value as int, dpi as int) <= 420_000,
        px(value, dpi) == physical(value as int, dpi as int),
{
    let d = if dpi < 1 { 1int } else { dpi as int };
    assert(0 <= value * d <= 400 * 100_000) by (nonlinear_arith)
        requires
            0 <= value <= 400,
            1 <= d <= 100_000,
    ;
}

/// Label and number columns of the popup: side by side from 320 logical
/// pixels of width on, else stacked in one full-width column; in RTL only
/// the number's place is mirrored.
pub open spec fn popup_column_layout(width: i32, dpi: u32, rtl: bool) -> (Rect, Rect, bool) {
    let padding = px(20, dpi);
    let right = if width - padding > padding + 1 { width - padding } else { padding + 1 };
    let full = Rect { left: padding, top: 0, right: right as i32, bottom: 0 };
    if width < px(320, dpi) {
        (full, full, false)
    } else {
        let number_width = px(108, dpi);
        let gap = px(12, dpi);
        if rtl {
            (
                Rect { left: (full.left + number_width + gap) as i32, top: 0, right: full.right, bottom: 0 },
                Rect { left: full.left, top: 0, right: (full.left + number_width) as i32, bottom: 0 },
                true,
            )
        } else {
            (
                Rect { left: full.left, top: 0, right: (full.right - number_width - gap) as i32, bottom: 0 },
                Rect { left: (full.right - number_width) as i32, top: 0, right: full.right, bottom: 0 },
                true,
            )
        }
    }
}

/// The label column, the number column and whether they share a row, in
/// physical pixels.
pub fn popup_columns(width: i32, dpi: u32, rtl: bool) -> (r: (Rect, Rect, bool))
    requires
        popup_width_in_range(width, dpi),
    ensures
        r == popup_column_layout(width, dpi, rtl),
{
    proof {
        lemma_px_bounds(20, dpi);
        lemma_px_bounds(320, dpi);
        lemma_px_bounds(108, dpi);
        lemma_px_bounds(12, dpi);
    }
    let padding = logical_to_physical(20, dpi);
    let full = Rect::new(padding, 0, if width - padding > padding + 1 { width - padding } else { padding + 1 }, 0);
    if width < logical_to_physical(320, dpi) {
        return (full, full, false);
    }
    let number_width = logical_to_physical(108, dpi);
    let gap = logical_to_physical(12, dpi);
    if rtl {
        (Rect::new(full.left + number_width + gap, 0, full.right, 0), Rect::new(full.left, 0, full.left + number_width, 0), true)
    } else {
        (Rect::new(full.left, 0, full.right - number_width - gap, 0), Rect::new(full.right - number_width, 0, full.right, 0), true)
    }
}

/// Physical height of the daily usage chart.
pub fn daily_usage_chart_height(dpi: u32) -> (h: i32)
    ensures
        h == px(DAILY_USAGE_CHART_HEIGHT_LOGICAL, dpi),
{
    logical_to_physical(DAILY_USAGE_CHART_HEIGHT_LOGICAL, dpi)
}

/// The days whose dates are printed: all of up to three days, else the
/// first, the middle and the last.
pub open spec fn date_indices(count: usize) -> Seq<usize> {
    if count == 0 {
        Seq::empty()
    } else if count == 1 {
        seq![0usize]
    } else if count == 2 {
        seq![0usize, 1usize]
    } else if count == 3 {
        seq![0usize, 1usize, 2usize]
    } else {
        seq![0usize, count / 2, (count - 1) as usize]
    }
}

/// The indices of the days that get a date label.
pub fn daily_date_indices(count: usize) -> (v: Vec<usize>)
    ensures
        v@ == date_indices(count),
{
    if count == 0 {
        Vec::new()
    } else if count == 1 {
        vec![0]
    } else if count == 2 {
        vec![0, 1]
    } else if count == 3 {
        vec![0, 1, 2]
    } else {
        vec![0, count / 2, count - 1]
    }
}

/// At most three dates are printed, in increasing order of days that exist.
pub proof fn lemma_date_indices_spread(count: usize)
    ensures
        date_indices(count).len() == if count < 3 { count } else { 3 },
        forall|i: int, j: int| 0 <= i < j < date_indices(count).len() ==> date_indices(count)[i] < date_indices(count)[j],
        forall|i: int| 0 <= i < date_indices(count).len() ==> date_indices(count)[i] < count,
{
}

/// The index of the first `c` in `s`.
pub open spec fn first_index(s: Seq<char>, c: char) -> Option<int>
    decreases s.len(),
{
    if s.len() == 0 {
        None
    } else if s[0] == c {
        Some(0)
    } else {
        match first_index(s.drop_first(), c) {
            Some(i) => Some(i + 1),
            None => None,
        }
    }
}

proof fn lemma_first_index(s: Seq<char>, c: char)
    ensures
        first_index(s, c) matches Some(i) ==> 0 <= i < s.len() && s[i] == c && forall|j: int| 0 <= j < i ==> s[j] != c,
        first_index(s, c) is None ==> forall|j: int| 0 <= j < s.len() ==> s[j] != c,
    decreases s.len(),
{
    if s.len() > 0 && s[0] != c {
        lemma_first_index(s.drop_first(), c);
        assert forall|j: int| 1 <= j < s.len() implies s[j] == s.drop_first()[j - 1] by {}
    }
}

/// `s` up to its first `c`, or all of it.
pub open spec fn before_first(s: Seq<char>, c: char) -> Seq<char> {
    match first_index(s, c) {
        Some(i) => s.take(i),
        None => s,
    }
}

/// UTF-8 length of one character.
pub open spec fn utf8_width(c: char) -> nat {
    if (c as u32) < 0x80 {
        1
    } else if (c as u32) < 0x800 {
        2
    } else if (c as u32) < 0x10000 {
        3
    } else {
        4
    }
}

/// UTF-8 length of a character sequence.
pub open spec fn utf8_len(s: Seq<char>) -> nat
    decreases s.len(),
{
    if s.len() == 0 {
        0
    } else {
        utf8_width(s[0]) + utf8_len(s.drop_first())
    }
}

pub open spec fn is_ascii_digit(c: char) -> bool {
    '0' <= c <= '9'
}

/// The compact date label of a day's start time `YYYY-MM-DD[T...]`:
/// `MM/DD` when the month has two bytes and the day starts with two ASCII
/// digits, else the date part unchanged.
pub open spec fn date_label(start: Seq<char>) -> Seq<char> {
    compact_date(before_first(start, 'T'))
}

/// `MM/DD` of a date `YYYY-MM-DD...` when the month has two bytes and the
/// day starts with two ASCII digits, else the date unchanged.
pub open spec fn compact_date(date: Seq<char>) -> Seq<char> {
    match first_index(date, '-') {
        None => date,
        Some(a) => {
            let rest = date.skip(a + 1);
            match first_index(rest, '-') {
                None => date,
                Some(b) => {
                    let month = rest.take(b);
                    let day = before_first(rest.skip(b + 1), '-');
                    if utf8_len(month) == 2 && day.len() >= 2 && is_ascii_digit(day[0]) && is_ascii_digit(day[1]) {
                        month + "/"@ + day.take(2)
                    } else {
                        date
                    }
                },
            }
        },
    }
}

fn find_char(s: &Vec<char>, from: usize, c: char) -> (r: Option<usize>)
    requires
        from <= s@.len(),
    ensures
        match first_index(s@.skip(from as int), c) {
            Some(i) => r == Some((from + i) as usize),
            None => r is None,
        },
        r matches Some(i) ==> from <= i < s@.len() && s@[i as int] == c,
{
    proof {
        lemma_first_index(s@.skip(from as int), c);
    }
    let mut i = from;
    while i < s.len()
        invariant
            from <= i <= s@.len(),
            first_index(s@.skip(from as int), c) == match first_index(s@.skip(i as int), c) {
                Some(k) => Some(k + (i - from)),
                None => None::<int>,
            },
        decreases s.len() - i,
    {
        proof {
            assert(s@.skip(i as int).drop_first() =~= s@.skip(i + 1));
        }
        if s[i] == c {
            return Some(i);
        }
        i += 1;
    }
    None
}

proof fn lemma_utf8_len_suffix(s: Seq<char>, from: int, i: int, to: int)
    requires
        0 <= from <= i <= to <= s.len(),
    ensures
        utf8_len(s.subrange(from, to)) >= utf8_len(s.subrange(i, to)),
    decreases i - from,
{
    if from < i {
        assert(s.subrange(from, to).drop_first() =~= s.subrange(from + 1, to));
        lemma_utf8_len_suffix(s, from + 1, i, to);
    }
}

/// Whether the characters `s[from..to]` take exactly two bytes in UTF-8.
fn is_two_bytes(s: &Vec<char>, from: usize, to: usize) -> (b: bool)
    requires
        from <= to <= s@.len(),
    ensures
        b == (utf8_len(s@.subrange(from as int, to as int)) == 2),
{
    let mut n: usize = 0;
    let mut i = to;
    while i > from
        invariant
            from <= i <= to,
            to <= s@.len(),
            n == utf8_len(s@.subrange(i as int, to as int)),
            n <= 2,
        decreases i - from,
    {
        i -= 1;
        let code = s[i] as u32;
        let w: usize = if code < 0x80 {
            1
        } else if code < 0x800 {
            2
        } else if code < 0x10000 {
            3
        } else {
            4
        };
        proof {
            assert(s@.subrange(i as int, to as int).drop_first() =~= s@.subrange(i + 1, to as int));
        }
        if n + w > 2 {
            proof {
                lemma_utf8_len_suffix(s@, from as int, i as int, to as int);
            }
            return false;
        }
        n = n + w;
    }
    n == 2
}

fn date_prefix(chars: &Vec<char>) -> (date_chars: Vec<char>)
    ensures
        date_chars@ == before_first(chars@, 'T'),
{
    assert(chars@.skip(0) =~= chars@);
    let found = find_char(chars, 0, 'T');
    let date_end = match found {
        Some(i) => i,
        None => chars.len(),
    };
    proof {
        lemma_first_index(chars@, 'T');
        assert(before_first(chars@, 'T') =~= chars@.subrange(0, date_end as int));
    }
    let mut date_chars: Vec<char> = Vec::new();
    let mut k: usize = 0;
    while k < date_end
        invariant
            k <= date_end <= chars@.len(),
            date_chars@ == chars@.subrange(0, k as int),
        decreases date_end - k,
    {
        date_chars.push(chars[k]);
        k += 1;
        assert(date_chars@ =~= chars@.subrange(0, k as int));
    }
    date_chars
}

fn copy_range(s: &Vec<char>, from: usize, to: usize) -> (r: Vec<char>)
    requires
        from <= to <= s@.len(),
    ensures
        r@ == s@.subrange(from as int, to as int),
{
    let mut r: Vec<char> = Vec::new();
    let mut m = from;
    while m < to
        invariant
            from <= m <= to,
            to <= s@.len(),
            r@ == s@.subrange(from as int, m as int),
        decreases to - m,
    {
        r.push(s[m]);
        m += 1;
        assert(r@ =~= s@.subrange(from as int, m as int));
    }
    r
}

fn compact_date_chars(date_chars: &Vec<char>) -> (r: Vec<char>)
    ensures
        r@ == compact_date(date_chars@),
{
    let ghost date = date_chars@;
    assert(date_chars@.skip(0) =~= date_chars@);
    proof {
        lemma_first_index(date, '-');
    }
    let a = match find_char(date_chars, 0, '-') {
        Some(a) => a,
        None => return copy_range(date_chars, 0, date_chars.len()),
    };
    let ghost rest = date.skip(a + 1);
    proof {
        lemma_first_index(rest, '-');
    }
    assert(a < date_chars.len());
    let b = match find_char(date_chars, a + 1, '-') {
        Some(b) => b,
        None => return copy_range(date_chars, 0, date_chars.len()),
    };
    let ghost rel_b = b - (a + 1);
    assert(b < date_chars.len());
    assert(rest.take(rel_b) =~= date_chars@.subrange(a + 1, b as int));
    assert(rest.skip(rel_b + 1) =~= date_chars@.skip(b + 1));
    let day_end = match find_char(date_chars, b + 1, '-') {
        Some(e) => e,
        None => date_chars.len(),
    };
    let ghost day = before_first(rest.skip(rel_b + 1), '-');
    proof {
        let tail = date_chars@.skip(b + 1);
        lemma_first_index(tail, '-');
        assert(day =~= date_chars@.subrange(b + 1, day_end as int));
    }
    let ghost month = rest.take(rel_b);
    let month_two_bytes = is_two_bytes(date_chars, a + 1, b);
    if month_two_bytes && day_end - b >= 3 && '0' <= date_chars[b + 1] && date_chars[b + 1] <= '9'
        && '0' <= date_chars[b + 2] && date_chars[b + 2] <= '9' {
        let mut label = copy_range(date_chars, a + 1, b);
        label.push('/');
        label.push(date_chars[b + 1]);
        label.push(date_chars[b + 2]);
        proof {
            reveal_strlit("/");
            assert(day[0] == date_chars@[b + 1] && day[1] == date_chars@[b + 2]);
            assert(label@ =~= month + "/"@ + day.take(2));
        }
        return label;
    }
    proof {
        if utf8_len(month) == 2 && day.len() >= 2 && is_ascii_digit(day[0]) && is_ascii_digit(day[1]) {
            assert(day[0] == date_chars@[b + 1] && day[1] == date_chars@[b + 2]);
        }
    }
    copy_range(date_chars, 0, date_chars.len())
}

/// The compact `MM/DD` label of a day, or its date unchanged.
pub fn daily_date_label(start_date: &str) -> (r: String)
    ensures
        r@ == date_label(start_date@),
{
    let chars = chars_of(start_date);
    let date_chars = date_prefix(&chars);
    let label = compact_date_chars(&date_chars);
    string_of(label.as_slice())
}

/// The `DrawText` format flags that the popups and dialogs use.
pub const DT_LEFT: u32 = 0x0000;
pub const DT_CENTER: u32 = 0x0001;
pub const DT_RIGHT: u32 = 0x0002;
pub const DT_VCENTER: u32 = 0x0004;
pub const DT_WORDBREAK: u32 = 0x0010;
pub const DT_SINGLELINE: u32 = 0x0020;
pub const DT_NOPREFIX: u32 = 0x0800;
pub const DT_END_ELLIPSIS: u32 = 0x8000;
pub const DT_RTLREADING: u32 = 0x0002_0000;

/// Long popup text wraps at word boundaries without an ellipsis, from the
/// left, or from the right and read right to left in RTL.
pub fn wrapped_text_format(rtl: bool) -> (f: u32)
    ensures
        f == (if rtl { DT_RIGHT | DT_RTLREADING } else { DT_LEFT }) | DT_WORDBREAK | DT_NOPREFIX,
{
    let alignment = if rtl { DT_RIGHT | DT_RTLREADING } else { DT_LEFT };
    alignment | DT_WORDBREAK | DT_NOPREFIX
}

/// Date labels are one centered line without prefix processing, read
/// right to left in RTL.
pub fn daily_date_text_format(rtl: bool) -> (f: u32)
    ensures
        f == DT_CENTER | DT_SINGLELINE | DT_VCENTER | (if rtl { DT_RTLREADING } else { 0 }) | DT_NOPREFIX,
{
    let direction = if rtl { DT_RTLREADING } else { 0 };
    DT_CENTER | DT_SINGLELINE | DT_VCENTER | direction | DT_NOPREFIX
}

/// The bar height of a day's usage: zero for no usage, no maximum or no
/// chart, else the chart height scaled by `min(value, maximum) / maximum`,
/// rounded half up, and at least one pixel.
pub open spec fn bar_height(value: u64, maximum: u64, chart_height: i32) -> int {
    if value == 0 || maximum == 0 || chart_height <= 0 {
        0
    } else {
        let v = if value < maximum { value as int } else { maximum as int };
        let h = (chart_height * v * 2 + maximum) / (2 * maximum);
        if h < 1 { 1 } else { h }
    }
}

/// The height of a day's bar in the usage chart.
pub fn daily_usage_bar_height(value: u64, maximum: u64, chart_height: i32) -> (h: i32)
    ensures
        h == bar_height(value, maximum, chart_height),
        0 <= h <= if chart_height < 0 { 0 } else { chart_height as int },
{
    if value == 0 || maximum == 0 || chart_height <= 0 {
        return 0;
    }
    let v: u64 = if value < maximum { value } else { maximum };
    let hh = chart_height as u128;
    let vv = v as u128;
    let mm = maximum as u128;
    assert(hh * vv <= hh * mm) by (nonlinear_arith)
        requires
            vv <= mm,
            0 <= hh,
    ;
    assert(hh * mm < 0x8000_0000 * 0x1_0000_0000_0000_0000) by (nonlinear_arith)
        requires
            hh < 0x8000_0000,
            mm < 0x1_0000_0000_0000_0000,
    ;
    let numerator: u128 = hh * vv * 2 + mm;
    let scaled: u128 = numerator / (2 * mm);
    assert(scaled <= hh) by (nonlinear_arith)
        requires
            scaled == (hh * vv * 2 + mm) / (2 * mm),
            vv <= mm,
            mm > 0,
    {
        assert(hh * vv * 2 + mm <= hh * mm * 2 + mm);
        assert(hh * mm * 2 + mm < (hh + 1) * (2 * mm));
    }
    let h = scaled as i32;
    if h < 1 {
        1
    } else {
        h
    }
}

/// The column of day `index` out of `count` across `area`, mirrored in
/// RTL; the remainder of the division is spread so the last column ends at
/// the area's right edge. `None` for an index out of range, an empty area or
/// an empty column.
pub open spec fn usage_slot(area: Rect, index: usize, count: usize, rtl: bool) -> Option<Rect> {
    if index >= count || area.right - area.left <= 0 || area.bottom - area.top <= 0 || count > i32::MAX {
        None
    } else {
        let visual = if rtl { count - 1 - index } else { index as int };
        let width = area.right - area.left;
        let left = area.left + (width * visual) / (count as int);
        let right = area.left + (width * (visual + 1)) / (count as int);
        if left < right {
            Some(Rect { left: left as i32, top: area.top, right: right as i32, bottom: area.bottom })
        } else {
            None
        }
    }
}

/// The physical column of a day, shared by its bar and its date.
pub fn daily_usage_slot(area: Rect, index: usize, count: usize, rtl: bool) -> (r: Option<Rect>)
    requires
        i32::MIN <= area.spec_width() <= i32::MAX,
        i32::MIN <= area.spec_height() <= i32::MAX,
    ensures
        r == usage_slot(area, index, count, rtl),
        r matches Some(slot) ==> slot.spec_is_inside(area),
{
    if index >= count || area.width() <= 0 || area.height() <= 0 {
        return None;
    }
    if count > 0x7fff_ffff {
        return None;
    }
    let count = count as i64;
    let index = index as i64;
    let visual_index = if rtl { count - 1 - index } else { index };
    let width = area.width() as i64;
    assert(0 <= width * visual_index <= width * count) by (nonlinear_arith)
        requires
            0 <= visual_index < count,
            0 < width,
    ;
    assert(width * visual_index <= width * (visual_index + 1) <= width * count) by (nonlinear_arith)
        requires
            0 <= visual_index < count,
            0 < width,
    ;
    assert(width * count <= 0x7fff_ffff * 0x7fff_ffff) by (nonlinear_arith)
        requires
            0 < width <= 0x7fff_ffff,
            0 < count <= 0x7fff_ffff,
    ;
    let offset_left = width * visual_index / count;
    let offset_right = width * (visual_index + 1) / count;
    assert(offset_right <= width) by (nonlinear_arith)
        requires
            offset_right == (width * (visual_index + 1)) / (count as int),
            width * (visual_index + 1) <= width * count,
            count > 0,
    ;
    assert(0 <= offset_left <= offset_right) by (nonlinear_arith)
        requires
            offset_left == (width * visual_index) / (count as int),
            offset_right == (width * (visual_index + 1)) / (count as int),
            0 <= width * visual_index,
            width * visual_index <= width * (visual_index + 1),
            count > 0,
    ;
    let left = area.left + offset_left as i32;
    let right = area.left + offset_right as i32;
    if left < right {
        Some(Rect::new(left, area.top, right, area.bottom))
    } else {
        None
    }
}

/// The date label box of a column: at most the logical date width and a
/// third of the area (a share for fewer days), centered on the column and
/// kept inside the area.
pub open spec fn date_bounds(area: Rect, slot: Rect, count: usize, dpi: u32) -> Rect {
    let parts = if count < 1 { 1int } else if count > 3 { 3int } else { count as int };
    let share = (area.right - area.left) / parts;
    let width = if px(DAILY_USAGE_DATE_WIDTH_LOGICAL, dpi) < share { px(DAILY_USAGE_DATE_WIDTH_LOGICAL, dpi) as int } else { share };
    let center = slot.left + (slot.right - slot.left) / 2;
    let left = if center - width / 2 < area.left {
        area.left as int
    } else if center - width / 2 > area.right - width {
        area.right - width
    } else {
        center - width / 2
    };
    Rect { left: left as i32, top: area.top, right: (left + width) as i32, bottom: area.bottom }
}

/// `a / b` rounded toward zero, as `i32` division does.
pub open spec fn div_toward_zero(a: int, b: int) -> int {
    if a >= 0 { a / b } else { -((-a) / b) }
}

/// The bounds of a date label.
pub fn daily_date_bounds(area: Rect, slot: Rect, count: usize, dpi: u32) -> (r: Rect)
    requires
        0 <= area.spec_width() <= i32::MAX,
        0 <= slot.spec_width() <= i32::MAX,
        dpi <= 100_000,
        slot.spec_is_inside(area),
        area.left - area.spec_width() >= i32::MIN,
    ensures
        r == date_bounds(area, slot, count, dpi),
        r.spec_is_inside(area),
{
    proof {
        lemma_px_bounds(DAILY_USAGE_DATE_WIDTH_LOGICAL, dpi);
    }
    let parts: i32 = if count < 1 { 1 } else if count > 3 { 3 } else { count as i32 };
    let share = area.width() / parts;
    let label = logical_to_physical(DAILY_USAGE_DATE_WIDTH_LOGICAL, dpi);
    let width = if label < share { label } else { share };
    let center = slot.left + slot.width() / 2;
    let left = if center - width / 2 < area.left {
        area.left
    } else if center - width / 2 > area.right - width {
        area.right - width
    } else {
        center - width / 2
    };
    Rect::new(left, area.top, left + width, area.bottom)
}

/// The chart area inside the popup content: inset on both sides by half a
/// date label (at most half the area) so the outer dates center on the
/// outer bars.
pub open spec fn chart_bounds(area: Rect, dpi: u32) -> Rect {
    let w = if area.right - area.left < 0 { 0 } else { area.right - area.left };
    let inset = (if px(DAILY_USAGE_DATE_WIDTH_LOGICAL, dpi) < w { px(DAILY_USAGE_DATE_WIDTH_LOGICAL, dpi) as int } else { w }) / 2;
    Rect { left: (area.left + inset) as i32, top: area.top, right: (area.right - inset) as i32, bottom: area.bottom }
}

/// The bounds of the daily usage chart.
pub fn daily_chart_bounds(area: Rect, dpi: u32) -> (r: Rect)
    requires
        i32::MIN <= area.spec_width() <= i32::MAX,
        dpi <= 100_000,
    ensures
        r == chart_bounds(area, dpi),
        area.spec_width() >= 0 ==> r.spec_is_inside(area) && r.left <= r.right,
{
    proof {
        lemma_px_bounds(DAILY_USAGE_DATE_WIDTH_LOGICAL, dpi);
    }
    let w = if area.width() < 0 { 0 } else { area.width() };
    let label = logical_to_physical(DAILY_USAGE_DATE_WIDTH_LOGICAL, dpi);
    let inset = (if label < w { label } else { w }) / 2;
    Rect::new(area.left + inset, area.top, area.right - inset, area.bottom)
}

/// The size at which the custom popup can be drawn: the requested size when
/// it is positive and fits in the bounds, else `None` and the native tooltip
/// is used instead of clipping.
pub fn popup_render_size(requested: (i32, i32), bounds: Rect) -> (r: Option<(i32, i32)>)
    requires
        i32::MIN <= bounds.spec_width() <= i32::MAX,
        i32::MIN <= bounds.spec_height() <= i32::MAX,
    ensures
        r == (if requested.0 > 0 && requested.1 > 0 && requested.0 <= bounds.spec_width() && requested.1
            <= bounds.spec_height() {
            Some(requested)
        } else {
            None
        }),
{
    if requested.0 > 0 && requested.1 > 0 && requested.0 <= bounds.width() && requested.1 <= bounds.height() {
        Some(requested)
    } else {
        None
    }
}

} // verus!
