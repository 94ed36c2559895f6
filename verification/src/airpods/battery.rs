//! Battery reports of the AirPods helper program: their fields, the model
//! names of Apple model ids, and the lines of the helper's output that hold
//! reports.

use vstd::prelude::*;

use crate::text::{chars_of, lemma_split_nonempty, split_by, string_from_chars, trim, trim_chars};

verus! {

/// One battery report of the helper program
#[derive(Debug, Clone, PartialEq)]
pub struct AirPodsBatteryInfo {
    pub address: u64,
    pub name: String,
    pub model_id: u16,
    pub left_battery: i32,
    pub left_charging: bool,
    pub right_battery: i32,
    pub right_charging: bool,
    pub case_battery: i32,
    pub case_charging: bool,
    pub left_in_ear: Option<bool>,
    pub right_in_ear: Option<bool>,
    pub case_lid_open: Option<bool>,
    pub side: Option<i32>,
    pub both_in_case: Option<bool>,
    pub color: Option<i32>,
    pub switch_count: Option<i32>,
    pub rssi: Option<i32>,
    pub timestamp: Option<u64>,
    pub raw_manufacturer_data: Option<String>,
}

/// The model name of an Apple model id.
pub open spec fn spec_model_name(model_id: u16) -> Seq<char> {
    if model_id == 0x2002 {
        "AirPods 1"@
    } else if model_id == 0x200F {
        "AirPods 2"@
    } else if model_id == 0x2013 {
        "AirPods 3"@
    } else if model_id == 0x200E {
        "AirPods Pro"@
    } else if model_id == 0x2014 {
        "AirPods Pro 2"@
    } else if model_id == 0x2024 {
        "AirPods Pro 2 (USB-C)"@
    } else if model_id == 0x200A {
        "AirPods Max"@
    } else if model_id == 0x2012 {
        "Beats Fit Pro"@
    } else {
        "Unknown"@
    }
}

/// The model name of an Apple model id
pub fn model_name(model_id: u16) -> (s: &'static str)
    ensures
        s@ == spec_model_name(model_id),
{
    match model_id {
        0x2002 => "AirPods 1",
        0x200F => "AirPods 2",
        0x2013 => "AirPods 3",
        0x200E => "AirPods Pro",
        0x2014 => "AirPods Pro 2",
        0x2024 => "AirPods Pro 2 (USB-C)",
        0x200A => "AirPods Max",
        0x2012 => "Beats Fit Pro",
        _ => "Unknown",
    }
}

/// The trimmed lines among `lines` that may hold a report: those that are
/// not empty and start with `{`.
pub open spec fn report_lines(lines: Seq<Seq<char>>) -> Seq<Seq<char>>
    decreases lines.len(),
{
    if lines.len() == 0 {
        Seq::empty()
    } else {
        let rest = report_lines(lines.drop_last());
        let t = trim_chars(lines.last());
        if t.len() > 0 && t[0] == '{' {
            rest.push(t)
        } else {
            rest
        }
    }
}

fn keep_report_line(lines: &mut Vec<String>, line: &Vec<char>)
    ensures
        final(lines)@.map_values(|l: String| l@) == {
            let t = trim_chars(line@);
            if t.len() > 0 && t[0] == '{' {
                old(lines)@.map_values(|l: String| l@).push(t)
            } else {
                old(lines)@.map_values(|l: String| l@)
            }
        },
{
    let t = trim(line);
    if t.len() > 0 && t[0] == '{' {
        let ghost before = lines@;
        let s = string_from_chars(&t);
        lines.push(s);
        assert(lines@.map_values(|l: String| l@) =~= before.map_values(|l: String| l@).push(t@));
    }
}

/// The lines of the helper's output that may hold a report, trimmed, in
/// order: lines that are empty after trimming or do not start with `{` are
/// skipped.
pub fn battery_info_lines(output: &str) -> (lines: Vec<String>)
    ensures
        lines@.map_values(|l: String| l@) == report_lines(split_by(output@, '\n')),
{
    let chars = chars_of(output);
    let mut lines: Vec<String> = Vec::new();
    let mut cur: Vec<char> = Vec::new();
    for i in 0..chars.len()
        invariant
            chars@ == output@,
            split_by(output@.take(i as int), '\n').len() >= 1,
            cur@ == split_by(output@.take(i as int), '\n').last(),
            lines@.map_values(|l: String| l@) == report_lines(
                split_by(output@.take(i as int), '\n').drop_last(),
            ),
    {
        let ghost pieces = split_by(output@.take(i as int), '\n');
        assert(output@.take(i + 1).drop_last() =~= output@.take(i as int));
        assert(output@.take(i + 1).last() == chars@[i as int]);
        if chars[i] == '\n' {
            keep_report_line(&mut lines, &cur);
            cur = Vec::new();
            let ghost next = split_by(output@.take(i + 1), '\n');
            assert(next == pieces.push(Seq::<char>::empty()));
            assert(next.drop_last() =~= pieces);
            assert(pieces.drop_last().push(pieces.last()) =~= pieces);
            assert(cur@ =~= next.last());
        } else {
            cur.push(chars[i]);
            let ghost next = split_by(output@.take(i + 1), '\n');
            assert(next.drop_last() =~= pieces.drop_last());
        }
    }
    assert(output@.take(chars.len() as int) =~= output@);
    let ghost pieces = split_by(output@, '\n');
    keep_report_line(&mut lines, &cur);
    assert(pieces.drop_last().push(pieces.last()) =~= pieces);
    lines
}

} // verus!
