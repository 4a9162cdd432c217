//! The single-column layout of the usage detail popup, measured block by
//! block.

use vstd::prelude::*;

use super::usage_popup::{
    daily_usage_chart_height, popup_columns, popup_column_layout, px, TextStyle, DAILY_USAGE_CHART_HEIGHT_LOGICAL,
};
use super::widget::{logical_to_physical, physical, Rect};
use super::WidgetDataState;
use crate::text::string_from;

verus! {

/// One usage window of the popup: its period label, its percentage and
/// when it resets.
pub struct AllowanceRow {
    pub label: String,
    pub percent_text: String,
    pub reset_text: String,
}

/// The text of the usage detail popup, already localized and formatted.
pub struct AllowancePresentation {
    pub profile_label: String,
    pub lead_label: String,
    pub status: Option<String>,
    pub data_state: WidgetDataState,
    pub lead_percent: String,
    pub rows: Vec<AllowanceRow>,
    pub reset_label: String,
    pub reset_credits_text: Option<String>,
    pub pace_summary: String,
    pub pace_detail: Option<String>,
    pub forecast_label: String,
    pub forecasts: Vec<String>,
    pub has_daily_usage: bool,
    pub daily_usage_label: String,
    pub last_success: String,
}

/// A measured text block of the popup.
pub struct TextBlockLayout {
    pub text: String,
    pub rect: Rect,
    pub style: TextStyle,
}

/// The measured popup: its size, text blocks, the separator above the last
/// update time, one progress track for each usage row, the box of the pace
/// insight and the daily usage chart.
pub struct PopupLayout {
    pub width: i32,
    pub height: i32,
    pub blocks: Vec<TextBlockLayout>,
    pub rules: Vec<Rect>,
    pub meters: Vec<Rect>,
    pub insight: Option<Rect>,
    pub daily_usage: Option<Rect>,
}

/// The tallest height a text measurement may report. With at most
/// `MAX_POPUP_ITEMS` rows and forecasts every coordinate of the stacked
/// layout stays within `i32`; taller texts or more items could overflow.
pub const MAX_MEASURED_HEIGHT: i32 = 0x1_0000;

/// The most usage rows and forecasts a popup lays out: as many as keep the
/// layout's coordinates within `i32` when every text is as tall as
/// `MAX_MEASURED_HEIGHT`.
pub const MAX_POPUP_ITEMS: usize = 2000;

/// The measurement callback may be called on any text and reports heights
/// up to `MAX_MEASURED_HEIGHT`.
pub open spec fn measure_ok<F: Fn(&str, i32, TextStyle) -> i32>(measure: F) -> bool {
    &&& forall|t: &str, w: i32, s: TextStyle| #[trigger] measure.requires((t, w, s))
    &&& forall|t: &str, w: i32, s: TextStyle, h: i32| #[trigger] measure.ensures((t, w, s), h) ==> h <= MAX_MEASURED_HEIGHT
}

/// A text and its style, or nothing for an empty text.
pub open spec fn entry(text: Seq<char>, style: TextStyle) -> Seq<(Seq<char>, TextStyle)> {
    if text.len() == 0 {
        Seq::empty()
    } else {
        seq![(text, style)]
    }
}

/// The texts of one usage row: its label, its percentage and, when it has
/// one, its reset time after the reset label.
pub open spec fn row_entry(row: AllowanceRow, reset_label: Seq<char>) -> Seq<(Seq<char>, TextStyle)> {
    entry(row.label@, TextStyle::Label) + entry(row.percent_text@, TextStyle::Headline) + if row.reset_text@.len() == 0 {
        Seq::empty()
    } else {
        entry(reset_label + ": "@ + row.reset_text@, TextStyle::Meta)
    }
}

/// The texts of the usage rows: label, percentage and reset time of each.
pub open spec fn row_entries(rows: Seq<AllowanceRow>, reset_label: Seq<char>) -> Seq<(Seq<char>, TextStyle)>
    decreases rows.len(),
{
    if rows.len() == 0 {
        Seq::empty()
    } else {
        row_entries(rows.drop_last(), reset_label) + row_entry(rows.last(), reset_label)
    }
}

/// The texts of the forecasts.
pub open spec fn forecast_entries(forecasts: Seq<String>) -> Seq<(Seq<char>, TextStyle)>
    decreases forecasts.len(),
{
    if forecasts.len() == 0 {
        Seq::empty()
    } else {
        forecast_entries(forecasts.drop_last()) + entry(forecasts.last()@, TextStyle::Body)
    }
}

/// The texts of the popup in reading order with their styles, empty texts
/// left out: profile, lead, status, the lead percentage when there is no
/// row, the rows, reset credits, the pace insight with its detail (not in
/// compact mode) and forecasts, the daily usage heading (not in compact
/// mode) and the last update time.
pub open spec fn allowance_texts(p: AllowancePresentation, compact: bool) -> Seq<(Seq<char>, TextStyle)> {
    head_entries(p) + row_entries(p.rows@, p.reset_label@) + match p.reset_credits_text {
        Some(c) => entry(c@, TextStyle::Meta),
        None => Seq::empty(),
    } + (if p.rows@.len() > 0 { insight_entries(p, compact) } else { Seq::empty() }) + footer_entries(p, compact)
}

/// The texts below the insight: the daily usage heading (not in compact
/// mode, and only with daily usage) and the last update time.
pub open spec fn footer_entries(p: AllowancePresentation, compact: bool) -> Seq<(Seq<char>, TextStyle)> {
    (if !compact && p.has_daily_usage { entry(p.daily_usage_label@, TextStyle::Meta) } else { Seq::empty() }) + entry(
        p.last_success@,
        TextStyle::Meta,
    )
}

/// The texts above the usage rows.
pub open spec fn head_entries(p: AllowancePresentation) -> Seq<(Seq<char>, TextStyle)> {
    entry(p.profile_label@, TextStyle::Title) + entry(p.lead_label@, TextStyle::Meta) + match p.status {
        Some(s) => entry(s@, if p.data_state == WidgetDataState::Error { TextStyle::Error } else { TextStyle::Body }),
        None => Seq::empty(),
    } + (if p.rows@.len() == 0 { entry(p.lead_percent@, TextStyle::Headline) } else { Seq::empty() })
}

pub open spec fn block_entries(blocks: Seq<TextBlockLayout>) -> Seq<(Seq<char>, TextStyle)> {
    blocks.map_values(|b: TextBlockLayout| (b.text@, b.style))
}

/// The horizontal extent of each block, in order.
pub open spec fn block_spans(blocks: Seq<TextBlockLayout>) -> Seq<(int, int)> {
    blocks.map_values(|b: TextBlockLayout| (b.rect.left as int, b.rect.right as int))
}

/// The extent of `area` for a text, or nothing for an empty text.
pub open spec fn span(text: Seq<char>, area: Rect) -> Seq<(int, int)> {
    if text.len() == 0 {
        Seq::empty()
    } else {
        seq![(area.left as int, area.right as int)]
    }
}

/// Where the texts of one usage row stand: its label in the label column,
/// its percentage in the number column and its reset time across the
/// content.
pub open spec fn row_spans(row: AllowanceRow, full: Rect, label: Rect, number: Rect) -> Seq<(int, int)> {
    span(row.label@, label) + span(row.percent_text@, number) + span(row.reset_text@, full)
}

/// Where the texts of the usage rows stand.
pub open spec fn rows_spans(rows: Seq<AllowanceRow>, full: Rect, label: Rect, number: Rect) -> Seq<(int, int)>
    decreases rows.len(),
{
    if rows.len() == 0 {
        Seq::empty()
    } else {
        rows_spans(rows.drop_last(), full, label, number) + row_spans(rows.last(), full, label, number)
    }
}

/// Where the forecasts stand: each across `area`.
pub open spec fn forecast_spans(forecasts: Seq<String>, area: Rect) -> Seq<(int, int)>
    decreases forecasts.len(),
{
    if forecasts.len() == 0 {
        Seq::empty()
    } else {
        forecast_spans(forecasts.drop_last(), area) + span(forecasts.last()@, area)
    }
}

/// Where the texts above the usage rows stand: across the content.
pub open spec fn head_spans(p: AllowancePresentation, full: Rect) -> Seq<(int, int)> {
    span(p.profile_label@, full) + span(p.lead_label@, full) + match p.status {
        Some(s) => span(s@, full),
        None => Seq::empty(),
    } + (if p.rows@.len() == 0 { span(p.lead_percent@, full) } else { Seq::empty() })
}

/// Where the texts of the pace insight stand: inside the box's inset.
pub open spec fn insight_spans(p: AllowancePresentation, compact: bool, inner: Rect) -> Seq<(int, int)> {
    span(p.pace_summary@, inner) + (if !compact {
        match p.pace_detail {
            Some(d) => span(d@, inner),
            None => Seq::empty(),
        }
    } else {
        Seq::empty()
    }) + (if p.forecasts@.len() > 0 {
        span(p.forecast_label@, inner) + forecast_spans(p.forecasts@, inner)
    } else {
        Seq::empty()
    })
}

/// Where the texts below the insight stand: across the content.
pub open spec fn footer_spans(p: AllowancePresentation, compact: bool, full: Rect) -> Seq<(int, int)> {
    (if !compact && p.has_daily_usage { span(p.daily_usage_label@, full) } else { Seq::empty() }) + span(
        p.last_success@,
        full,
    )
}

/// Where each text of the popup stands horizontally, in reading order:
/// the row labels in the label column and the row percentages in the number
/// column of `popup_column_layout` (mirrored for right-to-left), the pace
/// insight and forecasts inside the insight box, and every other text across
/// the content between the two paddings.
pub open spec fn allowance_spans(p: AllowancePresentation, compact: bool, width: i32, dpi: u32, rtl: bool) -> Seq<(int, int)> {
    let full = Rect { left: px(20, dpi), top: 0, right: (width - px(20, dpi)) as i32, bottom: 0 };
    let (label, number, paired) = popup_column_layout(width, dpi, rtl);
    head_spans(p, full) + rows_spans(p.rows@, full, label, number) + match p.reset_credits_text {
        Some(c) => span(c@, full),
        None => Seq::empty(),
    } + (if p.rows@.len() > 0 { insight_spans(p, compact, insight_inner(full, dpi)) } else { Seq::empty() })
        + footer_spans(p, compact, full)
}

/// Every rectangle lies between `low` and `high` vertically.
pub open spec fn blocks_between(blocks: Seq<TextBlockLayout>, low: int, high: int) -> bool {
    forall|i: int| 0 <= i < blocks.len() ==> low <= #[trigger] blocks[i].rect.top <= blocks[i].rect.bottom <= high
}

/// Every block spans one of the given horizontal ranges.
pub open spec fn blocks_within(blocks: Seq<TextBlockLayout>, left: int, right: int) -> bool {
    forall|i: int| 0 <= i < blocks.len() ==> left <= #[trigger] blocks[i].rect.left && blocks[i].rect.right <= right
}

/// No two text blocks overlap.
pub open spec fn blocks_separate(blocks: Seq<TextBlockLayout>) -> bool {
    forall|i: int, j: int|
        #![trigger blocks[i], blocks[j]]
        0 <= i < j < blocks.len() ==> !blocks[i].rect.spec_intersects(blocks[j].rect)
}

/// Every block ends at or above `y`.
pub open spec fn blocks_above(blocks: Seq<TextBlockLayout>, y: int) -> bool {
    forall|i: int| 0 <= i < blocks.len() ==> #[trigger] blocks[i].rect.bottom <= y
}

/// A block placed at or below `y`, under blocks that all end at or above
/// `y`, overlaps none of them.
proof fn lemma_push_below(old: Seq<TextBlockLayout>, b: TextBlockLayout, y: int)
    requires
        blocks_separate(old),
        blocks_above(old, y),
        b.rect.top >= y,
    ensures
        blocks_separate(old.push(b)),
{
    let s = old.push(b);
    assert forall|i: int, j: int| 0 <= i < j < s.len() implies !#[trigger] s[i].rect.spec_intersects(#[trigger] s[j].rect) by {
        assert(s[i] == old[i]);
        if j < old.len() {
            assert(s[j] == old[j]);
        } else {
            assert(old[i].rect.bottom <= y);
        }
    }
}

/// The block index of the percentage of usage row `i`.
pub open spec fn row_value_index(p: AllowancePresentation, i: int) -> int {
    (head_entries(p).len() + row_entries(p.rows@.take(i), p.reset_label@).len() + entry(
        p.rows@[i].label@,
        TextStyle::Label,
    ).len()) as int
}

/// The block index of the reset time of usage row `i`.
pub open spec fn row_reset_index(p: AllowancePresentation, i: int) -> int {
    row_value_index(p, i) + entry(p.rows@[i].percent_text@, TextStyle::Headline).len()
}

/// Usage row `k` of the first `n` reads in order: its percentage above its
/// progress track, the track above its reset time, and both above the next
/// row's percentage by the row gap.
pub open spec fn row_in_order(
    p: AllowancePresentation,
    blocks: Seq<TextBlockLayout>,
    meters: Seq<Rect>,
    dpi: u32,
    n: int,
    k: int,
) -> bool {
    let row = p.rows@[k];
    let meter = meters[k];
    &&& meter.top <= meter.bottom
    &&& row.percent_text@.len() > 0 ==> row_value_index(p, k) < blocks.len() && blocks[row_value_index(p, k)].rect.bottom
        <= meter.top
    &&& row.reset_text@.len() > 0 ==> row_reset_index(p, k) < blocks.len() && meter.bottom <= blocks[row_reset_index(
        p,
        k,
    )].rect.top
    &&& k + 1 < n && p.rows@[k + 1].percent_text@.len() > 0 ==> {
        &&& meter.bottom + px(16, dpi) <= blocks[row_value_index(p, k + 1)].rect.top
        &&& row.reset_text@.len() > 0 ==> blocks[row_reset_index(p, k)].rect.bottom + px(16, dpi)
            <= blocks[row_value_index(p, k + 1)].rect.top
    }
}

/// The first `n` usage rows read in order.
pub open spec fn rows_in_order_upto(
    p: AllowancePresentation,
    blocks: Seq<TextBlockLayout>,
    meters: Seq<Rect>,
    dpi: u32,
    n: int,
) -> bool {
    forall|k: int| 0 <= k < n ==> #[trigger] row_in_order(p, blocks, meters, dpi, n, k)
}

/// Every usage row reads percentage, progress track, reset time, and then
/// comes the next row's percentage.
pub open spec fn rows_in_order(p: AllowancePresentation, blocks: Seq<TextBlockLayout>, meters: Seq<Rect>, dpi: u32) -> bool {
    rows_in_order_upto(p, blocks, meters, dpi, p.rows@.len() as int)
}

/// The last of the first `n` rows ends, with its gap, at or above `top`.
pub open spec fn row_tail(
    p: AllowancePresentation,
    blocks: Seq<TextBlockLayout>,
    meters: Seq<Rect>,
    dpi: u32,
    n: int,
    top: int,
) -> bool {
    n > 0 ==> {
        &&& meters[n - 1].bottom + px(16, dpi) <= top
        &&& p.rows@[n - 1].reset_text@.len() > 0 ==> blocks[row_reset_index(p, n - 1)].rect.bottom + px(16, dpi) <= top
    }
}

proof fn lemma_rows_step(
    p: AllowancePresentation,
    b0: Seq<TextBlockLayout>,
    b1: Seq<TextBlockLayout>,
    m0: Seq<Rect>,
    m1: Seq<Rect>,
    dpi: u32,
    i: int,
    top: int,
    new_top: int,
)
    requires
        0 <= i < p.rows@.len(),
        b0.len() == head_entries(p).len() + row_entries(p.rows@.take(i), p.reset_label@).len(),
        b1.len() >= b0.len(),
        b1.take(b0.len() as int) == b0,
        m0.len() == i,
        m1.len() == i + 1,
        m1.drop_last() == m0,
        rows_in_order_upto(p, b0, m0, dpi, i),
        row_tail(p, b0, m0, dpi, i, top),
        block_entries(b1) == block_entries(b0) + row_entry(p.rows@[i], p.reset_label@),
        top <= m1.last().top <= m1.last().bottom,
        ({
            let row = p.rows@[i];
            let value = (b0.len() + entry(row.label@, TextStyle::Label).len()) as int;
            let reset = (value + entry(row.percent_text@, TextStyle::Headline).len()) as int;
            let meter = m1.last();
            &&& row.percent_text@.len() > 0 ==> top <= b1[value].rect.top && b1[value].rect.bottom <= meter.top
            &&& row.reset_text@.len() > 0 ==> meter.bottom <= b1[reset].rect.top && b1[reset].rect.bottom + px(16, dpi)
                <= new_top
            &&& meter.bottom + px(16, dpi) <= new_top
        }),
    ensures
        rows_in_order_upto(p, b1, m1, dpi, i + 1),
        row_tail(p, b1, m1, dpi, i + 1, new_top),
{
    let row = p.rows@[i];
    let value = (b0.len() + entry(row.label@, TextStyle::Label).len()) as int;
    assert(row_value_index(p, i) == value);
    assert(block_entries(b1).len() == b1.len());
    assert(row_entry(row, p.reset_label@).len() == entry(row.label@, TextStyle::Label).len() + entry(
        row.percent_text@,
        TextStyle::Headline,
    ).len() + (if row.reset_text@.len() == 0 { 0 } else { 1int }));
    assert forall|k: int| 0 <= k < i + 1 implies #[trigger] row_in_order(p, b1, m1, dpi, i + 1, k) by {
        if k < i {
            assert(row_in_order(p, b0, m0, dpi, i, k));
            assert(m1[k] == m0[k]);
            let rk = p.rows@[k];
            if rk.percent_text@.len() > 0 {
                assert(b1[row_value_index(p, k)] == b1.take(b0.len() as int)[row_value_index(p, k)]);
            }
            if rk.reset_text@.len() > 0 {
                assert(b1[row_reset_index(p, k)] == b1.take(b0.len() as int)[row_reset_index(p, k)]);
            }
            if k + 1 < i && p.rows@[k + 1].percent_text@.len() > 0 {
                assert(row_in_order(p, b0, m0, dpi, i, k + 1));
                assert(b1[row_value_index(p, k + 1)] == b1.take(b0.len() as int)[row_value_index(p, k + 1)]);
            }
        } else {
            assert(m1[k] == m1.last());
        }
    }
    if row.reset_text@.len() > 0 {
        assert(row_reset_index(p, i) == value + entry(row.percent_text@, TextStyle::Headline).len());
    }
    assert(m1[i] == m1.last());
}

proof fn lemma_rows_kept(
    p: AllowancePresentation,
    b: Seq<TextBlockLayout>,
    b2: Seq<TextBlockLayout>,
    m: Seq<Rect>,
    dpi: u32,
    n: int,
)
    requires
        rows_in_order_upto(p, b, m, dpi, n),
        b2.len() >= b.len(),
        b2.take(b.len() as int) == b,
        n <= p.rows@.len(),
    ensures
        rows_in_order_upto(p, b2, m, dpi, n),
{
    assert forall|k: int| 0 <= k < n implies #[trigger] row_in_order(p, b2, m, dpi, n, k) by {
        assert(row_in_order(p, b, m, dpi, n, k));
        let rk = p.rows@[k];
        if rk.percent_text@.len() > 0 {
            assert(b2[row_value_index(p, k)] == b2.take(b.len() as int)[row_value_index(p, k)]);
        }
        if rk.reset_text@.len() > 0 {
            assert(b2[row_reset_index(p, k)] == b2.take(b.len() as int)[row_reset_index(p, k)]);
        }
        if k + 1 < n && p.rows@[k + 1].percent_text@.len() > 0 {
            assert(row_in_order(p, b, m, dpi, n, k + 1));
            assert(row_value_index(p, k + 1) < b.len());
            assert(b2[row_value_index(p, k + 1)] == b2.take(b.len() as int)[row_value_index(p, k + 1)]);
        }
    }
}

/// A prefix of a prefix is a prefix.
proof fn lemma_prefix_trans(a: Seq<TextBlockLayout>, b: Seq<TextBlockLayout>, c: Seq<TextBlockLayout>)
    requires
        b.len() >= a.len(),
        b.take(a.len() as int) == a,
        c.len() >= b.len(),
        c.take(b.len() as int) == b,
    ensures
        c.take(a.len() as int) == a,
{
    assert forall|i: int| 0 <= i < a.len() implies c.take(a.len() as int)[i] == a[i] by {
        assert(c.take(b.len() as int)[i] == c[i]);
        assert(b.take(a.len() as int)[i] == b[i]);
    }
    assert(c.take(a.len() as int) =~= a);
}

pub open spec fn rects_between(rects: Seq<Rect>, low: int, high: int) -> bool {
    forall|i: int| 0 <= i < rects.len() ==> low <= #[trigger] rects[i].top <= rects[i].bottom <= high
}

/// The measurement gives one height for one text, width and style, however
/// the text is held.
pub open spec fn measure_deterministic<F: Fn(&str, i32, TextStyle) -> i32>(measure: F) -> bool {
    forall|t1: &str, t2: &str, w: i32, s: TextStyle, h1: i32, h2: i32|
        #![trigger measure.ensures((t1, w, s), h1), measure.ensures((t2, w, s), h2)]
        t1@ == t2@ && measure.ensures((t1, w, s), h1) && measure.ensures((t2, w, s), h2) ==> h1 == h2
}

/// The height the measurement reports for a text at a width in a style.
pub open spec fn measured_height<F: Fn(&str, i32, TextStyle) -> i32>(
    measure: F,
    text: Seq<char>,
    width: i32,
    style: TextStyle,
) -> i32 {
    let (h, t) = choose|h: i32, t: &str| t@ == text && #[trigger] measure.ensures((t, width, style), h);
    h
}

/// The bottom of a text block laid out at `top` in `area`: the measured
/// height at the area's width (at least one pixel), no lower than the
/// style's line height; an empty text takes no room.
pub open spec fn block_end<F: Fn(&str, i32, TextStyle) -> i32>(
    measure: F,
    text: Seq<char>,
    area: Rect,
    top: int,
    style: TextStyle,
    dpi: u32,
) -> int {
    if text.len() == 0 {
        top
    } else {
        let w = area.spec_width();
        let h = measured_height(measure, text, if w < 1 { 1i32 } else { w as i32 }, style);
        let minimum = px((style.spec_size() + 6) as i32, dpi);
        top + if h < minimum { minimum as int } else { h as int }
    }
}

/// The bottom of the profile, lead and status texts and, without usage
/// rows, the lead percentage.
pub open spec fn head_end<F: Fn(&str, i32, TextStyle) -> i32>(measure: F, p: AllowancePresentation, full: Rect, dpi: u32) -> int {
    let t1 = block_end(measure, p.profile_label@, full, px(20, dpi) as int, TextStyle::Title, dpi);
    let t2 = block_end(measure, p.lead_label@, full, t1 + px(4, dpi), TextStyle::Meta, dpi);
    let t3 = match p.status {
        Some(status) => block_end(
            measure,
            status@,
            full,
            t2 + px(8, dpi),
            if p.data_state == WidgetDataState::Error { TextStyle::Error } else { TextStyle::Body },
            dpi,
        ),
        None => t2,
    };
    let t4 = t3 + px(16, dpi);
    if p.rows@.len() == 0 {
        block_end(measure, p.lead_percent@, full, t4, TextStyle::Headline, dpi)
    } else {
        t4
    }
}

/// The bottom of one usage row laid out at `top`, with its spacing below.
pub open spec fn usage_row_end<F: Fn(&str, i32, TextStyle) -> i32>(
    measure: F,
    row: AllowanceRow,
    reset_label: Seq<char>,
    full: Rect,
    label: Rect,
    number: Rect,
    paired: bool,
    top: int,
    dpi: u32,
) -> int {
    let label_bottom = block_end(measure, row.label@, label, top + px(6, dpi), TextStyle::Label, dpi);
    let number_bottom = block_end(
        measure,
        row.percent_text@,
        number,
        if paired { top } else { label_bottom },
        TextStyle::Headline,
        dpi,
    );
    let row_top = (if label_bottom < number_bottom { number_bottom } else { label_bottom }) + px(6, dpi);
    let after_track = row_top + px(4, dpi) + px(8, dpi);
    let next = if row.reset_text@.len() == 0 {
        after_track
    } else {
        block_end(measure, reset_label + ": "@ + row.reset_text@, full, after_track, TextStyle::Meta, dpi)
    };
    next + px(16, dpi)
}

/// The bottom of the usage rows laid out one below the other from `top`.
pub open spec fn rows_end<F: Fn(&str, i32, TextStyle) -> i32>(
    measure: F,
    rows: Seq<AllowanceRow>,
    reset_label: Seq<char>,
    full: Rect,
    label: Rect,
    number: Rect,
    paired: bool,
    top: int,
    dpi: u32,
) -> int
    decreases rows.len(),
{
    if rows.len() == 0 {
        top
    } else {
        usage_row_end(
            measure,
            rows.last(),
            reset_label,
            full,
            label,
            number,
            paired,
            rows_end(measure, rows.drop_last(), reset_label, full, label, number, paired, top, dpi),
            dpi,
        )
    }
}

/// The bottom of the forecast lines laid out one below the other from `top`.
pub open spec fn forecasts_end<F: Fn(&str, i32, TextStyle) -> i32>(
    measure: F,
    forecasts: Seq<String>,
    inner: Rect,
    top: int,
    dpi: u32,
) -> int
    decreases forecasts.len(),
{
    if forecasts.len() == 0 {
        top
    } else {
        block_end(
            measure,
            forecasts.last()@,
            inner,
            forecasts_end(measure, forecasts.drop_last(), inner, top, dpi),
            TextStyle::Body,
            dpi,
        )
    }
}

/// The content area of the insight box, inset from the content edges.
pub open spec fn insight_inner(full: Rect, dpi: u32) -> Rect {
    Rect { left: (full.left + px(12, dpi)) as i32, top: 0, right: (full.right - px(12, dpi)) as i32, bottom: 0 }
}

/// The bottom of the insight box laid out at `top`.
pub open spec fn insight_end<F: Fn(&str, i32, TextStyle) -> i32>(
    measure: F,
    p: AllowancePresentation,
    full: Rect,
    top: int,
    dpi: u32,
    compact: bool,
) -> int {
    let inner = insight_inner(full, dpi);
    let n1 = block_end(measure, p.pace_summary@, inner, top + px(12, dpi), TextStyle::Label, dpi);
    let n2 = if !compact && p.pace_detail is Some {
        block_end(measure, p.pace_detail->Some_0@, inner, n1 + px(4, dpi), TextStyle::Meta, dpi)
    } else {
        n1
    };
    let n3 = if p.forecasts@.len() > 0 {
        forecasts_end(
            measure,
            p.forecasts@,
            inner,
            block_end(measure, p.forecast_label@, inner, n2 + px(12, dpi), TextStyle::Meta, dpi),
            dpi,
        )
    } else {
        n2
    };
    n3 + px(12, dpi)
}

/// The bottom of the footer laid out at `top`: the chart unless compact,
/// the separator and the last update time.
pub open spec fn footer_end<F: Fn(&str, i32, TextStyle) -> i32>(
    measure: F,
    p: AllowancePresentation,
    full: Rect,
    top: int,
    dpi: u32,
    compact: bool,
) -> int {
    let n1 = if !compact && p.has_daily_usage {
        let label_bottom = block_end(measure, p.daily_usage_label@, full, top + px(16, dpi), TextStyle::Meta, dpi);
        label_bottom + px(8, dpi) + px(DAILY_USAGE_CHART_HEIGHT_LOGICAL, dpi) + px(20, dpi)
    } else {
        top
    };
    block_end(measure, p.last_success@, full, n1 + px(14, dpi) + px(8, dpi), TextStyle::Meta, dpi)
}

/// The height of the measured popup at `width`.
pub open spec fn popup_height<F: Fn(&str, i32, TextStyle) -> i32>(
    measure: F,
    p: AllowancePresentation,
    width: i32,
    dpi: u32,
    rtl: bool,
    compact: bool,
) -> int {
    let padding = px(20, dpi);
    let full = Rect { left: padding, top: 0, right: (width - padding) as i32, bottom: 0 };
    let (label, number, paired) = popup_column_layout(width, dpi, rtl);
    let rows_bottom = rows_end(
        measure,
        p.rows@,
        p.reset_label@,
        full,
        label,
        number,
        paired,
        head_end(measure, p, full, dpi),
        dpi,
    );
    let credits_bottom = match p.reset_credits_text {
        Some(credits) => block_end(measure, credits@, full, rows_bottom, TextStyle::Meta, dpi) + px(12, dpi),
        None => rows_bottom,
    };
    let insight_bottom = if p.rows@.len() > 0 {
        insight_end(measure, p, full, credits_bottom, dpi, compact)
    } else {
        credits_bottom
    };
    footer_end(measure, p, full, insight_bottom, dpi, compact) + padding
}

/// Largest step one block or gap may add to the running top.
pub const STEP: i32 = 0x2_0000;

/// Lays out one text block at `top` in `area` and returns the new top; an
/// empty text adds nothing.
fn add_block<F: Fn(&str, i32, TextStyle) -> i32>(
    blocks: &mut Vec<TextBlockLayout>,
    text: &str,
    area: Rect,
    top: i32,
    style: TextStyle,
    dpi: u32,
    measure: &F,
) -> (new_top: i32)
    requires
        measure_ok(*measure),
        dpi <= 100_000,
        0 <= top <= 0x7000_0000,
        i32::MIN <= area.spec_width() <= i32::MAX,
    ensures
        text@.len() == 0 ==> final(blocks)@ == old(blocks)@ && new_top == top,
        text@.len() > 0 ==> final(blocks)@.len() == old(blocks)@.len() + 1 && final(blocks)@.drop_last() == old(blocks)@,
        text@.len() > 0 ==> final(blocks)@.last().text@ == text@ && final(blocks)@.last().style == style
            && final(blocks)@.last().rect == (Rect { left: area.left, top, right: area.right, bottom: new_top }),
        block_entries(final(blocks)@) == block_entries(old(blocks)@) + entry(text@, style),
        block_spans(final(blocks)@) == block_spans(old(blocks)@) + span(text@, area),
        top <= new_top <= top + STEP,
        measure_deterministic(*measure) ==> new_top == block_end(*measure, text@, area, top as int, style, dpi),
        blocks_above(old(blocks)@, top as int) ==> blocks_above(final(blocks)@, new_top as int),
        blocks_separate(old(blocks)@) && blocks_above(old(blocks)@, top as int) ==> blocks_separate(final(blocks)@),
        final(blocks)@.len() >= old(blocks)@.len(),
        final(blocks)@.take(old(blocks)@.len() as int) == old(blocks)@,
        forall|low: int, high: int| #![trigger blocks_between(final(blocks)@, low, high)]
            low <= top && new_top <= high && blocks_between(old(blocks)@, low, high) ==> blocks_between(final(blocks)@, low, high),
        forall|l: int, r: int| #![trigger blocks_within(final(blocks)@, l, r)]
            l <= area.left && area.right <= r && blocks_within(old(blocks)@, l, r) ==> blocks_within(final(blocks)@, l, r),
{
    if text.is_empty() {
        proof {
            assert(block_entries(blocks@) =~= block_entries(old(blocks)@) + entry(text@, style));
            assert(block_spans(blocks@) =~= block_spans(old(blocks)@) + span(text@, area));
            assert(blocks@.take(blocks@.len() as int) =~= blocks@);
        }
        return top;
    }
    proof {
        lemma_px_le((style.spec_size() + 6) as i32, dpi);
    }
    let width = area.width();
    let measured_width = if width < 1 { 1 } else { width };
    let measured = measure(text, measured_width, style);
    proof {
        if measure_deterministic(*measure) {
            assert(exists|h: i32, t: &str| t@ == text@ && #[trigger] measure.ensures((t, measured_width, style), h)) by {
                assert(text@ == text@ && measure.ensures((text, measured_width, style), measured));
            }
            let (h0, t0) = choose|h: i32, t: &str| t@ == text@ && #[trigger] measure.ensures((t, measured_width, style), h);
            assert(measure.ensures((t0, measured_width, style), h0));
            assert(h0 == measured_height(*measure, text@, measured_width, style));
            assert(h0 == measured);
        }
    }
    let minimum = logical_to_physical(style.size() + 6, dpi);
    let height = if measured < minimum { minimum } else { measured };
    let bottom = top + height;
    blocks.push(TextBlockLayout { text: string_from(text), rect: Rect::new(area.left, top, area.right, bottom), style });
    proof {
        assert(blocks@.drop_last() =~= old(blocks)@);
        assert(blocks@ == old(blocks)@.push(blocks@.last()));
        assert(blocks@.take(old(blocks)@.len() as int) =~= old(blocks)@);
        if blocks_separate(old(blocks)@) && blocks_above(old(blocks)@, top as int) {
            lemma_push_below(old(blocks)@, blocks@.last(), top as int);
        }
        if blocks_above(old(blocks)@, top as int) {
            assert forall|i: int| 0 <= i < blocks@.len() implies #[trigger] blocks@[i].rect.bottom <= bottom by {
                if i < old(blocks)@.len() {
                    assert(blocks@[i] == old(blocks)@[i]);
                }
            }
        }
        assert(text@.len() > 0);
        assert(block_entries(blocks@) =~= block_entries(old(blocks)@) + entry(text@, style));
        assert(block_spans(blocks@) =~= block_spans(old(blocks)@) + span(text@, area));
    }
    bottom
}

proof fn lemma_px_le(value: i32, dpi: u32)
    requires
        0 <= value <= 400,
        dpi <= 100_000,
    ensures
        0 <= physical(value as int, dpi as int) <= 420_000,
        value <= 40 ==> physical(value as int, dpi as int) <= 42_000,
        px(value, dpi) == physical(value as int, dpi as int),
{
    let d = if dpi < 1 { 1int } else { dpi as int };
    assert(0 <= value * d <= 400 * 100_000) by (nonlinear_arith)
        requires
            0 <= value <= 400,
            1 <= d <= 100_000,
    ;
    assert(value <= 40 ==> value * d <= 40 * 100_000) by (nonlinear_arith)
        requires
            0 <= value,
            1 <= d <= 100_000,
    ;
}

/// The label and number columns lie inside the popup once it is wider than
/// its two paddings.
proof fn lemma_columns_within(width: i32, dpi: u32)
    requires
        -0x100_0000 <= width <= 0x100_0000,
        dpi <= 100_000,
    ensures
        ({
            let (label, number, paired) = popup_column_layout(width, dpi, false);
            let (rlabel, rnumber, rpaired) = popup_column_layout(width, dpi, true);
            &&& i32::MIN <= label.spec_width() <= i32::MAX
            &&& i32::MIN <= number.spec_width() <= i32::MAX
            &&& i32::MIN <= rlabel.spec_width() <= i32::MAX
            &&& i32::MIN <= rnumber.spec_width() <= i32::MAX
            &&& width >= 2 * px(20, dpi) + 1 ==> 0 <= label.left && label.right <= width && 0 <= number.left
                && number.right <= width && 0 <= rlabel.left && rlabel.right <= width && 0 <= rnumber.left
                && rnumber.right <= width
        }),
{
    lemma_px_le(20, dpi);
    lemma_px_le(320, dpi);
    lemma_px_le(108, dpi);
    lemma_px_le(12, dpi);
}

proof fn lemma_between_mono(blocks: Seq<TextBlockLayout>, low: int, h1: int, h2: int)
    requires
        h1 <= h2,
        blocks_between(blocks, low, h1),
    ensures
        blocks_between(blocks, low, h2),
{
}

proof fn lemma_rects_mono(rects: Seq<Rect>, low: int, h1: int, h2: int)
    requires
        h1 <= h2,
        rects_between(rects, low, h1),
    ensures
        rects_between(rects, low, h2),
{
}

/// The areas of the popup lie between `l` and `r`.
pub open spec fn areas_within(areas: Seq<Rect>, l: int, r: int) -> bool {
    forall|i: int| 0 <= i < areas.len() ==> l <= #[trigger] areas[i].left && areas[i].right <= r
}

/// Lays out one usage row at `top`: its label in the label column a little
/// lower, its percentage in the number column (beside the label when the
/// columns are paired, else below it), the progress track under both, and
/// the reset time.
#[verifier::rlimit(40)]
#[verifier::spinoff_prover]
fn add_usage_row<F: Fn(&str, i32, TextStyle) -> i32>(
    blocks: &mut Vec<TextBlockLayout>,
    meters: &mut Vec<Rect>,
    row: &AllowanceRow,
    reset_label: &str,
    full: Rect,
    label: Rect,
    number: Rect,
    paired: bool,
    top: i32,
    dpi: u32,
    measure: &F,
) -> (new_top: i32)
    requires
        measure_ok(*measure),
        dpi <= 100_000,
        0 <= top <= 0x6000_0000,
        i32::MIN <= full.spec_width() <= i32::MAX,
        i32::MIN <= label.spec_width() <= i32::MAX,
        i32::MIN <= number.spec_width() <= i32::MAX,
        paired ==> label.right <= number.left || number.right <= label.left,
    ensures
        block_entries(final(blocks)@) == block_entries(old(blocks)@) + row_entry(*row, reset_label@),
        block_spans(final(blocks)@) == block_spans(old(blocks)@) + row_spans(*row, full, label, number),
        top <= new_top <= top + 6 * STEP,
        final(blocks)@.len() >= old(blocks)@.len(),
        final(blocks)@.take(old(blocks)@.len() as int) == old(blocks)@,
        blocks_above(old(blocks)@, top as int) ==> blocks_above(final(blocks)@, new_top as int),
        blocks_separate(old(blocks)@) && blocks_above(old(blocks)@, top as int) ==> blocks_separate(final(blocks)@),
        ({
            let value = (old(blocks)@.len() + entry(row.label@, TextStyle::Label).len()) as int;
            let reset = (value + entry(row.percent_text@, TextStyle::Headline).len()) as int;
            let meter = final(meters)@.last();
            &&& row.percent_text@.len() > 0 ==> top <= final(blocks)@[value].rect.top && final(blocks)@[value].rect.bottom
                <= meter.top
            &&& row.reset_text@.len() > 0 ==> meter.bottom <= final(blocks)@[reset].rect.top && final(blocks)@[reset].rect.bottom
                + px(16, dpi) <= new_top
            &&& meter.bottom + px(16, dpi) <= new_top
        }),
        measure_deterministic(*measure) ==> new_top == usage_row_end(*measure, *row, reset_label@, full, label, number, paired, top as int, dpi),
        forall|low: int| #![trigger blocks_between(final(blocks)@, low, new_top as int)]
            low <= top && blocks_between(old(blocks)@, low, top as int) ==> blocks_between(final(blocks)@, low, new_top as int),
        forall|l: int, r: int| #![trigger blocks_within(final(blocks)@, l, r)]
            areas_within(seq![full, label, number], l, r) && blocks_within(old(blocks)@, l, r) ==> blocks_within(final(blocks)@, l, r),
        final(meters)@.len() == old(meters)@.len() + 1,
        final(meters)@.drop_last() == old(meters)@,
        final(meters)@.last().left == full.left && final(meters)@.last().right == full.right,
        top <= final(meters)@.last().top <= final(meters)@.last().bottom <= new_top,
{
    proof {
        lemma_px_le(4, dpi);
        lemma_px_le(6, dpi);
        lemma_px_le(8, dpi);
        lemma_px_le(16, dpi);
        reveal_strlit(": ");
    }
    let ghost start = blocks@;
    let mut label_bottom = top + logical_to_physical(6, dpi);
    label_bottom = add_block(blocks, row.label.as_str(), label, label_bottom, TextStyle::Label, dpi, measure);
    let ghost after_label = blocks@;
    let number_top = if paired { top } else { label_bottom };
    let mut number_bottom = add_block(blocks, row.percent_text.as_str(), number, number_top, TextStyle::Headline, dpi, measure);
    let ghost after_number = blocks@;
    let ghost value = (start.len() + entry(row.label@, TextStyle::Label).len()) as int;
    proof {
        assert(after_label.len() == value);
        assert(after_label.take(start.len() as int) =~= start) by {
            if row.label@.len() > 0 {
                assert(after_label.drop_last() == start);
            }
        }
        let high = if label_bottom < number_bottom { number_bottom as int } else { label_bottom as int };
        if blocks_above(start, top as int) {
            if row.percent_text@.len() > 0 {
                assert forall|i: int| 0 <= i < after_number.len() implies #[trigger] after_number[i].rect.bottom <= high by {
                    if i < after_label.len() {
                        assert(after_number[i] == after_label[i]);
                    }
                }
            } else {
                assert(after_number == after_label);
            }
            assert(blocks_above(after_number, high));
        }
        if blocks_separate(start) && blocks_above(start, top as int) && paired && row.percent_text@.len() > 0 {
            let nb = after_number.last();
            assert(after_number == after_label.push(nb));
            assert forall|i: int, j: int| 0 <= i < j < after_number.len() implies !#[trigger] after_number[i].rect.spec_intersects(#[trigger] after_number[j].rect) by {
                assert(after_number[i] == after_label[i]);
                if j < after_label.len() {
                    assert(after_number[j] == after_label[j]);
                } else if i < start.len() {
                    assert(after_label[i] == start[i]);
                    assert(start[i].rect.bottom <= top);
                } else {
                    assert(after_label[i] == after_label.last());
                }
            }
        }
    }
    let row_top = (if label_bottom < number_bottom { number_bottom } else { label_bottom }) + logical_to_physical(6, dpi);
    let track = Rect::new(full.left, row_top, full.right, row_top + logical_to_physical(4, dpi));
    let ghost meters_before = meters@;
    meters.push(track);
    assert(meters@.drop_last() =~= meters_before);
    let mut next = track.bottom + logical_to_physical(8, dpi);
    let ghost before_reset = blocks@;
    let ghost next_before_reset = next;
    if !row.reset_text.as_str().is_empty() {
        let mut text = string_from(reset_label);
        text.append(": ");
        text.append(row.reset_text.as_str());
        next = add_block(blocks, text.as_str(), full, next, TextStyle::Meta, dpi, measure);
    }
    proof {
        assert(block_entries(blocks@) =~= block_entries(start) + row_entry(*row, reset_label@));
        assert(block_spans(blocks@) =~= block_spans(start) + row_spans(*row, full, label, number));
        let h = row_top - px(6, dpi);
        assert forall|low: int| low <= top && blocks_between(start, low, top as int) implies blocks_between(blocks@, low, next as int) by {
            lemma_between_mono(start, low, top as int, h);
            assert(blocks_between(after_label, low, h));
            assert(blocks_between(after_number, low, h));
            lemma_between_mono(after_number, low, h, next as int);
        }
        assert forall|l: int, r: int| areas_within(seq![full, label, number], l, r) && blocks_within(start, l, r)
            implies blocks_within(blocks@, l, r) by {
            assert(seq![full, label, number][0] == full && seq![full, label, number][1] == label && seq![full, label, number][2] == number);
        }
    }
    next + logical_to_physical(16, dpi)
}

/// Common requirements of the layout stages.
pub open spec fn stage_ok<F: Fn(&str, i32, TextStyle) -> i32>(measure: F, full: Rect, dpi: u32) -> bool {
    &&& measure_ok(measure)
    &&& dpi <= 100_000
    &&& i32::MIN <= full.spec_width() <= i32::MAX
    &&& i32::MIN <= full.spec_width() - 2 * px(12, dpi) <= i32::MAX
    &&& full.left == px(20, dpi)
    &&& -0x200_0000 <= full.right <= 0x200_0000
}

/// Profile, lead and status texts, and the lead percentage when there are
/// no usage rows.
fn add_head<F: Fn(&str, i32, TextStyle) -> i32>(
    blocks: &mut Vec<TextBlockLayout>,
    p: &AllowancePresentation,
    full: Rect,
    dpi: u32,
    measure: &F,
) -> (top: i32)
    requires
        stage_ok(*measure, full, dpi),
        old(blocks)@.len() == 0,
    ensures
        block_entries(final(blocks)@) == head_entries(*p),
        block_spans(final(blocks)@) == head_spans(*p, full),
        px(20, dpi) <= top <= px(20, dpi) + 8 * STEP,
        measure_deterministic(*measure) ==> top == head_end(*measure, *p, full, dpi),
        blocks_separate(final(blocks)@),
        blocks_above(final(blocks)@, top as int),
        blocks_between(final(blocks)@, px(20, dpi) as int, top as int),
        forall|l: int, r: int| #![trigger blocks_within(final(blocks)@, l, r)]
            l <= full.left && full.right <= r ==> blocks_within(final(blocks)@, l, r),
{
    proof {
        lemma_px_le(20, dpi);
        lemma_px_le(4, dpi);
        lemma_px_le(8, dpi);
        lemma_px_le(16, dpi);
    }
    let ghost low = px(20, dpi) as int;
    assert(block_entries(blocks@) =~= Seq::<(Seq<char>, TextStyle)>::empty());
    assert(block_spans(blocks@) =~= Seq::<(int, int)>::empty());
    let mut top = logical_to_physical(20, dpi);
    top = add_block(blocks, p.profile_label.as_str(), full, top, TextStyle::Title, dpi, measure);
    assert(blocks_between(blocks@, low, top as int));
    top = top + logical_to_physical(4, dpi);
    proof {
        lemma_between_mono(blocks@, low, top - px(4, dpi), top as int);
    }
    top = add_block(blocks, p.lead_label.as_str(), full, top, TextStyle::Meta, dpi, measure);
    assert(blocks_between(blocks@, low, top as int));
    match &p.status {
        Some(status) => {
            top = top + logical_to_physical(8, dpi);
            proof {
                lemma_between_mono(blocks@, low, top - px(8, dpi), top as int);
            }
            let style = if p.data_state == WidgetDataState::Error {
                TextStyle::Error
            } else {
                TextStyle::Body
            };
            top = add_block(blocks, status.as_str(), full, top, style, dpi, measure);
            assert(blocks_between(blocks@, low, top as int));
        },
        None => {},
    }
    top = top + logical_to_physical(16, dpi);
    proof {
        lemma_between_mono(blocks@, low, top - px(16, dpi), top as int);
    }
    if p.rows.len() == 0 {
        top = add_block(blocks, p.lead_percent.as_str(), full, top, TextStyle::Headline, dpi, measure);
        assert(blocks_between(blocks@, low, top as int));
    }
    proof {
        assert(block_entries(blocks@) =~= head_entries(*p));
        assert(block_spans(blocks@) =~= head_spans(*p, full));
        assert forall|l: int, r: int| l <= full.left && full.right <= r implies #[trigger] blocks_within(blocks@, l, r) by {
            assert(blocks_within(Seq::<TextBlockLayout>::empty(), l, r));
        }
    }
    top
}

/// The texts of the pace insight.
pub open spec fn insight_entries(p: AllowancePresentation, compact: bool) -> Seq<(Seq<char>, TextStyle)> {
    entry(p.pace_summary@, TextStyle::Label) + (if !compact {
        match p.pace_detail {
            Some(d) => entry(d@, TextStyle::Meta),
            None => Seq::empty(),
        }
    } else {
        Seq::empty()
    }) + (if p.forecasts@.len() > 0 {
        entry(p.forecast_label@, TextStyle::Meta) + forecast_entries(p.forecasts@)
    } else {
        Seq::empty()
    })
}

/// The pace insight box: the summary, the detail unless compact, and the
/// forecasts under their heading, inset from the content edges.
#[verifier::rlimit(40)]
#[verifier::spinoff_prover]
fn add_insight<F: Fn(&str, i32, TextStyle) -> i32>(
    blocks: &mut Vec<TextBlockLayout>,
    p: &AllowancePresentation,
    full: Rect,
    top: i32,
    dpi: u32,
    compact: bool,
    measure: &F,
) -> (r: (i32, Rect))
    requires
        stage_ok(*measure, full, dpi),
        0 <= top <= 0x6000_0000,
        p.forecasts@.len() <= MAX_POPUP_ITEMS,
    ensures
        block_entries(final(blocks)@) == block_entries(old(blocks)@) + insight_entries(*p, compact),
        block_spans(final(blocks)@) == block_spans(old(blocks)@) + insight_spans(*p, compact, insight_inner(full, dpi)),
        top <= r.0 <= top + (8 + MAX_POPUP_ITEMS) * STEP,
        measure_deterministic(*measure) ==> r.0 == insight_end(*measure, *p, full, top as int, dpi, compact),
        final(blocks)@.len() >= old(blocks)@.len(),
        final(blocks)@.take(old(blocks)@.len() as int) == old(blocks)@,
        blocks_above(old(blocks)@, top as int) ==> blocks_above(final(blocks)@, r.0 as int),
        blocks_separate(old(blocks)@) && blocks_above(old(blocks)@, top as int) ==> blocks_separate(final(blocks)@),
        r.1.top == top && r.1.bottom == r.0 && r.1.left == full.left && r.1.right == full.right,
        forall|low: int| #![trigger blocks_between(final(blocks)@, low, r.0 as int)]
            low <= top && blocks_between(old(blocks)@, low, top as int) ==> blocks_between(final(blocks)@, low, r.0 as int),
        forall|l: int, r: int| #![trigger blocks_within(final(blocks)@, l, r)]
            l <= full.left && full.right <= r && blocks_within(old(blocks)@, l, r) ==> blocks_within(final(blocks)@, l, r),
{
    proof {
        lemma_px_le(4, dpi);
        lemma_px_le(12, dpi);
        lemma_px_le(20, dpi);
    }
    let ghost start = blocks@;
    let inset = logical_to_physical(12, dpi);
    let inner = Rect::new(full.left + inset, 0, full.right - inset, 0);
    let mut next = top + inset;
    next = add_block(blocks, p.pace_summary.as_str(), inner, next, TextStyle::Label, dpi, measure);
    let ghost s1 = blocks@;
    let ghost t1 = next;
    if !compact {
        match &p.pace_detail {
            Some(detail) => {
                next = next + logical_to_physical(4, dpi);
                next = add_block(blocks, detail.as_str(), inner, next, TextStyle::Meta, dpi, measure);
            },
            None => {},
        }
    }
    let ghost middle = blocks@;
    let ghost middle_top = next;
    proof {
        assert(middle.len() >= s1.len() && middle.take(s1.len() as int) == s1) by {
            assert(s1.take(s1.len() as int) =~= s1);
        }
        lemma_prefix_trans(start, s1, middle);
        assert forall|low: int| low <= top && blocks_between(start, low, top as int) implies blocks_between(middle, low, middle_top as int) by {
            lemma_between_mono(start, low, top as int, t1 as int);
            assert(blocks_between(s1, low, t1 as int));
            lemma_between_mono(s1, low, t1 as int, middle_top as int);
            assert(blocks_between(middle, low, middle_top as int));
        }
        assert forall|l: int, r: int| l <= full.left && full.right <= r && blocks_within(start, l, r) implies blocks_within(middle, l, r) by {
            assert(blocks_within(s1, l, r));
        }
    }
    let ghost before_forecasts = block_entries(blocks@);
    if p.forecasts.len() > 0 {
        next = next + logical_to_physical(12, dpi);
        proof {
            assert forall|low: int| low <= middle_top && blocks_between(middle, low, middle_top as int) implies blocks_between(middle, low, next as int) by {
                lemma_between_mono(middle, low, middle_top as int, next as int);
            }
        }
        let ghost label_top = next;
        next = add_block(blocks, p.forecast_label.as_str(), inner, next, TextStyle::Meta, dpi, measure);
        let ghost after_label = block_entries(blocks@);
        let ghost spans_after_label = block_spans(blocks@);
        let ghost label_end = next;
        proof {
            lemma_prefix_trans(start, middle, blocks@);
        }
        assert(p.forecasts@.take(0) =~= Seq::<String>::empty());
        proof {
            assert forall|low: int| low <= middle_top && blocks_between(middle, low, middle_top as int) implies blocks_between(blocks@, low, next as int) by {
                lemma_between_mono(middle, low, middle_top as int, next as int);
            }
        }
        let mut j: usize = 0;
        assert(p.forecasts@.take(0) =~= Seq::<String>::empty());
        while j < p.forecasts.len()
            invariant
                j <= p.forecasts@.len(),
                p.forecasts@.len() <= MAX_POPUP_ITEMS,
                stage_ok(*measure, full, dpi),
                inner == (Rect { left: (full.left + px(12, dpi)) as i32, top: 0, right: (full.right - px(12, dpi)) as i32, bottom: 0 }),
                0 <= px(12, dpi) <= 420_000,
                middle_top <= next <= middle_top + (2 + j) * STEP,
                0 <= middle_top <= 0x6000_0000 + 4 * STEP,
                block_entries(blocks@) == after_label + forecast_entries(p.forecasts@.take(j as int)),
                block_spans(blocks@) == spans_after_label + forecast_spans(p.forecasts@.take(j as int), inner),
                inner == insight_inner(full, dpi),
                measure_deterministic(*measure) ==> next == forecasts_end(*measure, p.forecasts@.take(j as int), inner, label_end as int, dpi),
                blocks@.len() >= start.len(),
                blocks@.take(start.len() as int) == start,
                blocks_above(start, top as int) ==> blocks_above(blocks@, next as int),
                blocks_separate(start) && blocks_above(start, top as int) ==> blocks_separate(blocks@),
                forall|low: int| low <= middle_top && blocks_between(middle, low, middle_top as int) ==> blocks_between(blocks@, low, next as int),
                forall|l: int, r: int| l <= inner.left && inner.right <= r && blocks_within(middle, l, r) ==> blocks_within(blocks@, l, r),
            decreases p.forecasts.len() - j,
        {
            let ghost prev = blocks@;
            let ghost prev_next = next;
            next = add_block(blocks, p.forecasts[j].as_str(), inner, next, TextStyle::Body, dpi, measure);
            proof {
                lemma_prefix_trans(start, prev, blocks@);
                assert(p.forecasts@.take(j + 1).drop_last() =~= p.forecasts@.take(j as int));
                assert(p.forecasts@.take(j + 1).last() == p.forecasts@[j as int]);
                assert forall|low: int| low <= middle_top && blocks_between(middle, low, middle_top as int) implies blocks_between(blocks@, low, next as int) by {
                    lemma_between_mono(prev, low, prev_next as int, next as int);
                }
            }
            j += 1;
        }
        assert(p.forecasts@.take(p.forecasts@.len() as int) =~= p.forecasts@);
    }
    let ghost before_inset = blocks@;
    let ghost next_before_inset = next;
    next = next + inset;
    proof {
        assert(block_entries(blocks@) =~= block_entries(start) + insight_entries(*p, compact));
        assert(block_spans(blocks@) =~= block_spans(start) + insight_spans(*p, compact, insight_inner(full, dpi)));
        assert forall|low: int| low <= top && blocks_between(start, low, top as int) implies blocks_between(blocks@, low, next as int) by {
            assert(blocks_between(middle, low, middle_top as int));
            if p.forecasts@.len() > 0 {
                assert(blocks_between(before_inset, low, next_before_inset as int));
            } else {
                assert(before_inset == middle);
            }
            lemma_between_mono(before_inset, low, next_before_inset as int, next as int);
        }
    }
    (next, Rect::new(full.left, top, full.right, next))
}

/// The daily usage chart under its heading (when shown), the separator and
/// the last update time.
fn add_footer<F: Fn(&str, i32, TextStyle) -> i32>(
    blocks: &mut Vec<TextBlockLayout>,
    rules: &mut Vec<Rect>,
    p: &AllowancePresentation,
    full: Rect,
    top: i32,
    dpi: u32,
    compact: bool,
    measure: &F,
) -> (r: (i32, Option<Rect>))
    requires
        stage_ok(*measure, full, dpi),
        0 <= top <= 0x6E00_0000,
    ensures
        block_entries(final(blocks)@) == block_entries(old(blocks)@) + footer_entries(*p, compact),
        block_spans(final(blocks)@) == block_spans(old(blocks)@) + footer_spans(*p, compact, full),
        top <= r.0 <= top + 10 * STEP,
        measure_deterministic(*measure) ==> r.0 == footer_end(*measure, *p, full, top as int, dpi, compact),
        final(blocks)@.len() >= old(blocks)@.len(),
        final(blocks)@.take(old(blocks)@.len() as int) == old(blocks)@,
        blocks_above(old(blocks)@, top as int) ==> blocks_above(final(blocks)@, r.0 as int),
        blocks_separate(old(blocks)@) && blocks_above(old(blocks)@, top as int) ==> blocks_separate(final(blocks)@),
        blocks_above(old(blocks)@, top as int) ==> forall|i: int|
            0 <= i < final(blocks)@.len() ==> !(#[trigger] final(blocks)@[i]).rect.spec_intersects(final(rules)@.last()),
        forall|low: int| #![trigger blocks_between(final(blocks)@, low, r.0 as int)]
            low <= top && blocks_between(old(blocks)@, low, top as int) ==> blocks_between(final(blocks)@, low, r.0 as int),
        forall|l: int, r: int| #![trigger blocks_within(final(blocks)@, l, r)]
            l <= full.left && full.right <= r && blocks_within(old(blocks)@, l, r) ==> blocks_within(final(blocks)@, l, r),
        final(rules)@.len() == old(rules)@.len() + 1,
        final(rules)@.drop_last() == old(rules)@,
        top <= final(rules)@.last().top <= final(rules)@.last().bottom <= r.0,
        (r.1 is Some) == (!compact && p.has_daily_usage),
        r.1 matches Some(chart) ==> top <= chart.top <= chart.bottom <= r.0,
{
    proof {
        lemma_px_le(1, dpi);
        lemma_px_le(8, dpi);
        lemma_px_le(14, dpi);
        lemma_px_le(16, dpi);
        lemma_px_le(20, dpi);
        lemma_px_le(53, dpi);
    }
    let ghost start = blocks@;
    let mut next = top;
    let mut daily: Option<Rect> = None;
    if !compact && p.has_daily_usage {
        next = next + logical_to_physical(16, dpi);
        next = add_block(blocks, p.daily_usage_label.as_str(), full, next, TextStyle::Meta, dpi, measure);
        next = next + logical_to_physical(8, dpi);
        let chart = Rect::new(full.left, next, full.right, next + daily_usage_chart_height(dpi));
        next = chart.bottom + logical_to_physical(20, dpi);
        daily = Some(chart);
    }
    let ghost before_rule = blocks@;
    let ghost rule_start = next;
    next = next + logical_to_physical(14, dpi);
    let ghost rules_before = rules@;
    rules.push(Rect::new(full.left, next, full.right, next + logical_to_physical(1, dpi)));
    assert(rules@.drop_last() =~= rules_before);
    next = next + logical_to_physical(8, dpi);
    let ghost before_last = next;
    let ghost blocks_before_last = blocks@;
    next = add_block(blocks, p.last_success.as_str(), full, next, TextStyle::Meta, dpi, measure);
    proof {
        let d = if dpi < 1 { 1int } else { dpi as int };
        assert((1 * d + 48) / 96 <= (8 * d + 48) / 96) by (nonlinear_arith)
            requires
                1 <= d,
        ;
        assert(px(1, dpi) <= px(8, dpi));
        if blocks_above(start, top as int) {
            let rule = rules@.last();
            assert(blocks_above(blocks_before_last, rule.top as int));
            assert forall|i: int| 0 <= i < blocks@.len() implies !(#[trigger] blocks@[i]).rect.spec_intersects(rule) by {
                if i < blocks_before_last.len() {
                    assert(blocks@.take(blocks_before_last.len() as int)[i] == blocks@[i]);
                    assert(blocks@[i] == blocks_before_last[i]);
                } else {
                    assert(blocks@[i] == blocks@.last());
                }
            }
        }
        assert(block_entries(blocks@) =~= block_entries(start) + footer_entries(*p, compact));
        assert(block_spans(blocks@) =~= block_spans(start) + footer_spans(*p, compact, full));
        assert forall|low: int| low <= top && blocks_between(start, low, top as int) implies blocks_between(blocks@, low, next as int) by {
            lemma_between_mono(start, low, top as int, next as int);
            if !compact && p.has_daily_usage {
                assert(blocks_between(before_rule, low, next as int));
            } else {
                assert(before_rule == start);
            }
        }
        assert forall|l: int, r: int| l <= full.left && full.right <= r && blocks_within(start, l, r) implies blocks_within(blocks@, l, r) by {
            if !compact && p.has_daily_usage {
                assert(blocks_within(before_rule, l, r));
            }
        }
    }
    (next, daily)
}

/// The measured single-column layout of the usage detail popup.
///
/// Blocks are measured at the width of their column, no lower than their
/// style's line height, and stacked from the top padding: profile, lead,
/// status, the usage rows (label and percentage side by side when the popup
/// is wide enough, each with its progress track and reset time), reset
/// credits, the pace insight box with its forecasts, the daily usage chart,
/// a separator and the last update time. `compact` leaves out the pace
/// detail and the chart; all numbers, resets, status and forecasts stay.
#[verifier::rlimit(40)]
pub fn allowance_layout<F: Fn(&str, i32, TextStyle) -> i32>(
    presentation: &AllowancePresentation,
    width: i32,
    dpi: u32,
    rtl: bool,
    compact: bool,
    measure: &F,
) -> (layout: PopupLayout)
    requires
        measure_ok(*measure),
        -0x100_0000 <= width <= 0x100_0000,
        dpi <= 100_000,
        presentation.rows@.len() <= MAX_POPUP_ITEMS,
        presentation.forecasts@.len() <= MAX_POPUP_ITEMS,
    ensures
        layout.width == width,
        block_entries(layout.blocks@) == allowance_texts(*presentation, compact),
        block_spans(layout.blocks@) == allowance_spans(*presentation, compact, width, dpi, rtl),
        blocks_between(layout.blocks@, px(20, dpi) as int, layout.height - px(20, dpi)),
        width >= 2 * px(20, dpi) + 1 ==> blocks_within(layout.blocks@, 0, width as int),
        layout.meters@.len() == presentation.rows@.len(),
        rects_between(layout.meters@, px(20, dpi) as int, layout.height - px(20, dpi)),
        forall|i: int| 0 <= i < layout.meters@.len() ==> #[trigger] layout.meters@[i].left == px(20, dpi)
            && layout.meters@[i].right == width - px(20, dpi),
        layout.rules@.len() == 1,
        rects_between(layout.rules@, px(20, dpi) as int, layout.height - px(20, dpi)),
        (layout.insight is Some) == (presentation.rows@.len() > 0),
        layout.insight matches Some(box_) ==> px(20, dpi) <= box_.top <= box_.bottom <= layout.height - px(20, dpi),
        (layout.daily_usage is Some) == (!compact && presentation.has_daily_usage),
        layout.daily_usage matches Some(chart) ==> px(20, dpi) <= chart.top <= chart.bottom <= layout.height - px(
            20,
            dpi,
        ),
        measure_deterministic(*measure) ==> layout.height == popup_height(*measure, *presentation, width, dpi, rtl, compact),
        blocks_separate(layout.blocks@),
        forall|i: int| 0 <= i < layout.blocks@.len() ==> !(#[trigger] layout.blocks@[i]).rect.spec_intersects(layout.rules@[0]),
        rows_in_order(*presentation, layout.blocks@, layout.meters@, dpi),
{
    proof {
        lemma_px_le(12, dpi);
        lemma_px_le(20, dpi);
        lemma_columns_within(width, dpi);
    }
    let padding = logical_to_physical(20, dpi);
    let full = Rect::new(padding, 0, width - padding, 0);
    let (label, number, paired) = popup_columns(width, dpi, rtl);
    let ghost wide = width >= 2 * padding + 1;
    let mut blocks: Vec<TextBlockLayout> = Vec::new();
    let mut rules: Vec<Rect> = Vec::new();
    let mut meters: Vec<Rect> = Vec::new();
    let mut top = add_head(&mut blocks, presentation, full, dpi, measure);
    let ghost head_top = top;
    assert(presentation.rows@.take(0) =~= Seq::<AllowanceRow>::empty());
    let rows = &presentation.rows;
    let mut i: usize = 0;
    while i < rows.len()
        invariant
            i <= rows@.len(),
            rows@ == presentation.rows@,
            rows@.len() <= MAX_POPUP_ITEMS,
            padding == px(20, dpi),
            0 <= padding <= 420_000,
            stage_ok(*measure, full, dpi),
            dpi <= 100_000,
            -0x100_0000 <= width <= 0x100_0000,
            full == (Rect { left: padding, top: 0, right: (width - padding) as i32, bottom: 0 }),
            (label, number, paired) == popup_column_layout(width, dpi, rtl),
            wide == (width >= 2 * padding + 1),
            wide ==> 0 <= label.left && label.right <= width && 0 <= number.left && number.right <= width,
            i32::MIN <= label.spec_width() <= i32::MAX,
            i32::MIN <= number.spec_width() <= i32::MAX,
            padding <= top <= padding + (8 + 6 * i) * STEP,
            block_entries(blocks@) == head_entries(*presentation) + row_entries(rows@.take(i as int), presentation.reset_label@),
            block_spans(blocks@) == head_spans(*presentation, full) + rows_spans(rows@.take(i as int), full, label, number),
            blocks_between(blocks@, padding as int, top as int),
            wide ==> blocks_within(blocks@, 0, width as int),
            meters@.len() == i,
            rects_between(meters@, padding as int, top as int),
            forall|m: int| 0 <= m < meters@.len() ==> #[trigger] meters@[m].left == padding && meters@[m].right == width - padding,
            measure_deterministic(*measure) ==> head_top == head_end(*measure, *presentation, full, dpi),
            measure_deterministic(*measure) ==> top == rows_end(
                *measure,
                rows@.take(i as int),
                presentation.reset_label@,
                full,
                label,
                number,
                paired,
                head_top as int,
                dpi,
            ),
            blocks_separate(blocks@),
            blocks_above(blocks@, top as int),
            rows_in_order_upto(*presentation, blocks@, meters@, dpi, i as int),
            row_tail(*presentation, blocks@, meters@, dpi, i as int, top as int),
        decreases rows.len() - i,
    {
        let ghost prev_meters = meters@;
        let ghost prev_blocks = blocks@;
        let ghost prev_top = top;
        top = add_usage_row(&mut blocks, &mut meters, &rows[i], presentation.reset_label.as_str(), full, label, number, paired, top, dpi, measure);
        proof {
            assert(rows@.take(i + 1).drop_last() =~= rows@.take(i as int));
            assert(rows@.take(i + 1).last() == rows@[i as int]);
            assert(rows@.take(i + 1).len() > 0);
            assert(block_entries(prev_blocks).len() == prev_blocks.len());
            lemma_rows_step(*presentation, prev_blocks, blocks@, prev_meters, meters@, dpi, i as int, prev_top as int, top as int);
            assert(block_entries(blocks@) =~= head_entries(*presentation) + row_entries(rows@.take(i + 1), presentation.reset_label@));
            assert(block_spans(blocks@) =~= head_spans(*presentation, full) + rows_spans(rows@.take(i + 1), full, label, number));
            assert(wide ==> areas_within(seq![full, label, number], 0, width as int));
            lemma_rects_mono(prev_meters, padding as int, prev_top as int, top as int);
            assert forall|m: int| 0 <= m < meters@.len() implies #[trigger] meters@[m].left == padding && meters@[m].right == width - padding by {
                if m < prev_meters.len() {
                    assert(meters@[m] == meters@.drop_last()[m]);
                }
            }
            assert forall|m: int| 0 <= m < meters@.len() implies padding <= #[trigger] meters@[m].top <= meters@[m].bottom <= top by {
                if m < prev_meters.len() {
                    assert(meters@[m] == meters@.drop_last()[m]);
                }
            }
        }
        i += 1;
    }
    assert(rows@.take(rows@.len() as int) =~= rows@);
    proof {
        lemma_px_le(12, dpi);
        assert(wide ==> areas_within(seq![full, label, number], 0, width as int));
    }
    let ghost rows_top = top;
    let ghost rows_blocks = blocks@;
    let ghost rows_meters = meters@;
    match &presentation.reset_credits_text {
        Some(credits) => {
            top = add_block(&mut blocks, credits.as_str(), full, top, TextStyle::Meta, dpi, measure);
            proof {
                lemma_between_mono(blocks@, padding as int, top as int, top + px(12, dpi));
            }
            top = top + logical_to_physical(12, dpi);
        },
        None => {},
    }
    let ghost credits_top = top;
    let ghost credits_blocks = blocks@;
    let insight = if rows.len() > 0 {
        let (next, insight_box) = add_insight(&mut blocks, presentation, full, top, dpi, compact, measure);
        top = next;
        Some(insight_box)
    } else {
        None
    };
    let ghost insight_top = top;
    let ghost insight_blocks = blocks@;
    let (next, daily_usage) = add_footer(&mut blocks, &mut rules, presentation, full, top, dpi, compact, measure);
    proof {
        assert(blocks_between(credits_blocks, padding as int, credits_top as int));
        assert(blocks_between(insight_blocks, padding as int, insight_top as int));
        assert(blocks_between(blocks@, padding as int, next as int));
        assert(wide ==> blocks_within(blocks@, 0, width as int)) by {
            if wide {
                assert(blocks_within(credits_blocks, 0, width as int));
                assert(blocks_within(insight_blocks, 0, width as int));
            }
        }
        assert(block_entries(blocks@) =~= allowance_texts(*presentation, compact));
        assert(block_spans(blocks@) =~= allowance_spans(*presentation, compact, width, dpi, rtl));
        lemma_rects_mono(meters@, padding as int, rows_top as int, next as int);
        assert(rules@ =~= seq![rules@.last()]);
        assert(credits_blocks.len() >= rows_blocks.len() && credits_blocks.take(rows_blocks.len() as int) == rows_blocks) by {
            assert(rows_blocks.take(rows_blocks.len() as int) =~= rows_blocks);
        }
        assert(insight_blocks.len() >= credits_blocks.len() && insight_blocks.take(credits_blocks.len() as int) == credits_blocks) by {
            assert(credits_blocks.take(credits_blocks.len() as int) =~= credits_blocks);
        }
        lemma_prefix_trans(rows_blocks, credits_blocks, insight_blocks);
        lemma_prefix_trans(rows_blocks, insight_blocks, blocks@);
        assert(meters@ == rows_meters);
        lemma_rows_kept(*presentation, rows_blocks, blocks@, meters@, dpi, rows@.len() as int);
    }
    PopupLayout { width, height: next + padding, blocks, rules, meters, insight, daily_usage }
}

/// The layout the usage popup is shown with under `max_height`: the full
/// layout when it fits, else the compact one, which leaves out the pace
/// detail and the chart; `None` when even that is too tall to read. The
/// flag says whether the compact layout was taken. For a measurement that
/// gives one height per text, which layout is taken and when none is follow
/// from the measured heights of the two layouts.
pub fn readable_allowance_layout<F: Fn(&str, i32, TextStyle) -> i32>(
    presentation: &AllowancePresentation,
    width: i32,
    dpi: u32,
    rtl: bool,
    max_height: i32,
    measure: &F,
) -> (r: Option<(PopupLayout, bool)>)
    requires
        measure_ok(*measure),
        -0x100_0000 <= width <= 0x100_0000,
        dpi <= 100_000,
        presentation.rows@.len() <= MAX_POPUP_ITEMS,
        presentation.forecasts@.len() <= MAX_POPUP_ITEMS,
    ensures
        r matches Some((layout, compact)) ==> {
            &&& layout.height <= max_height
            &&& layout.width == width
            &&& block_entries(layout.blocks@) == allowance_texts(*presentation, compact)
            &&& block_spans(layout.blocks@) == allowance_spans(*presentation, compact, width, dpi, rtl)
            &&& blocks_between(layout.blocks@, px(20, dpi) as int, layout.height - px(20, dpi))
            &&& width >= 2 * px(20, dpi) + 1 ==> blocks_within(layout.blocks@, 0, width as int)
            &&& layout.meters@.len() == presentation.rows@.len()
            &&& (layout.daily_usage is Some) == (!compact && presentation.has_daily_usage)
            &&& blocks_separate(layout.blocks@)
            &&& layout.rules@.len() == 1
            &&& forall|i: int| 0 <= i < layout.blocks@.len() ==> !(#[trigger] layout.blocks@[i]).rect.spec_intersects(layout.rules@[0])
            &&& rows_in_order(*presentation, layout.blocks@, layout.meters@, dpi)
        },
        measure_deterministic(*measure) ==> {
            let full_height = popup_height(*measure, *presentation, width, dpi, rtl, false);
            let compact_height = popup_height(*measure, *presentation, width, dpi, rtl, true);
            &&& (r is Some <==> full_height <= max_height || compact_height <= max_height)
            &&& r matches Some((layout, compact)) ==> (compact <==> full_height > max_height) && layout.height == (if compact {
                compact_height
            } else {
                full_height
            })
        },
{
    let full = allowance_layout(presentation, width, dpi, rtl, false, measure);
    if full.height <= max_height {
        return Some((full, false));
    }
    let compact = allowance_layout(presentation, width, dpi, rtl, true, measure);
    if compact.height <= max_height {
        Some((compact, true))
    } else {
        None
    }
}

} // verus!
