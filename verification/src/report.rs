//! The lap log as rows for display: each lap with its offset and the time
//! since the lap before it.

use crate::format::clock_text;
use crate::format::format_millis;
use crate::model::LapView;
use crate::timer::lap_views;
use crate::timer::Lap;
use vstd::prelude::*;

verus! {

/// One line of the lap table.
#[derive(Debug, Clone, PartialEq, Eq)]
pub struct LapRow {
    pub index: u32,
    /// The lap's offset as `HH:MM:SS.mmm`.
    pub at: String,
    /// The time since the lap before, or since zero for the first lap, as
    /// `HH:MM:SS.mmm`.
    pub delta: String,
    /// The lap's label, empty where it has none.
    pub label: String,
}

/// A row as a mathematical value.
pub struct LapRowView {
    pub index: nat,
    pub at: Seq<char>,
    pub delta: Seq<char>,
    pub label: Seq<char>,
}

impl View for LapRow {
    type V = LapRowView;

    open spec fn view(&self) -> LapRowView {
        LapRowView { index: self.index as nat, at: self.at@, delta: self.delta@, label: self.label@ }
    }
}

/// The views of a run of rows, in order.
pub open spec fn row_views(rows: Seq<LapRow>) -> Seq<LapRowView> {
    rows.map_values(|row: LapRow| row@)
}

/// A label as text: empty where there is none.
pub open spec fn label_text(label: Option<Seq<char>>) -> Seq<char> {
    match label {
        Some(text) => text,
        None => Seq::empty(),
    }
}

/// The time from `previous` to `at`, and zero where `at` is the earlier.
pub open spec fn delta_ms(previous: nat, at: nat) -> nat {
    if at >= previous {
        (at - previous) as nat
    } else {
        0
    }
}

/// The offset of the lap before lap `i`, and zero for the first lap.
pub open spec fn previous_ms(laps: Seq<LapView>, i: int) -> nat {
    if i == 0 {
        0
    } else {
        laps[i - 1].at_ms
    }
}

/// The row for lap `i` of a lap log.
pub open spec fn row_at(laps: Seq<LapView>, i: int) -> LapRowView {
    LapRowView {
        index: laps[i].index,
        at: clock_text(laps[i].at_ms),
        delta: clock_text(delta_ms(previous_ms(laps, i), laps[i].at_ms)),
        label: label_text(laps[i].label),
    }
}

/// The rows of a lap log, one for each lap, in order.
pub open spec fn rows_of(laps: Seq<LapView>) -> Seq<LapRowView> {
    Seq::new(laps.len(), |i: int| row_at(laps, i))
}

/// The text of a lap's label, empty where it has none.
pub fn label_string(lap: &Lap) -> (text: String)
    ensures
        text@ == label_text(lap@.label),
{
    match &lap.label {
        Some(label) => label.clone(),
        None => String::new(),
    }
}

/// The rows of the lap table.
pub fn lap_rows(laps: &[Lap]) -> (rows: Vec<LapRow>)
    ensures
        row_views(rows@) == rows_of(lap_views(laps@)),
{
    let ghost views = lap_views(laps@);
    let mut rows: Vec<LapRow> = Vec::new();
    let mut previous: u128 = 0;
    let mut i: usize = 0;
    while i < laps.len()
        invariant
            views == lap_views(laps@),
            i <= laps.len(),
            rows@.len() == i,
            previous == previous_ms(views, i as int),
            forall|k: int| 0 <= k < i ==> (#[trigger] rows@[k])@ == row_at(views, k),
        decreases laps.len() - i,
    {
        let lap = &laps[i];
        assert(views[i as int] == lap@);
        let delta: u128 = if lap.at_ms >= previous {
            lap.at_ms - previous
        } else {
            0
        };
        let row = LapRow {
            index: lap.index,
            at: format_millis(lap.at_ms),
            delta: format_millis(delta),
            label: label_string(lap),
        };
        rows.push(row);
        previous = lap.at_ms;
        i = i + 1;
    }
    assert(row_views(rows@) =~= rows_of(views));
    rows
}

} // verus!
