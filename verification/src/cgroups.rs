//! The cgroup controllers that the kernel lists in `/proc/cgroups`.

use crate::table::{csv_rows, optional, optional_field, read_rows, Row};
use crate::text::str_eq;
use vstd::prelude::*;

verus! {

/// One line of `/proc/cgroups`.
#[derive(Debug, Clone, PartialEq, Eq)]
pub struct CgroupSubsystem {
    pub subsys_name: String,
    pub hierarchy: Option<String>,
    pub num_cgroups: Option<String>,
    pub enabled: Option<String>,
}

/// The mathematical value of a [`CgroupSubsystem`].
pub struct CgroupModel {
    pub subsys_name: Seq<char>,
    pub hierarchy: Option<Seq<char>>,
    pub num_cgroups: Option<Seq<char>>,
    pub enabled: Option<Seq<char>>,
}

impl DeepView for CgroupSubsystem {
    type V = CgroupModel;

    open spec fn deep_view(&self) -> CgroupModel {
        CgroupModel {
            subsys_name: self.subsys_name@,
            hierarchy: self.hierarchy.deep_view(),
            num_cgroups: self.num_cgroups.deep_view(),
            enabled: self.enabled.deep_view(),
        }
    }
}

/// The field delimiter of `/proc/cgroups`: a tab.
pub const CGROUP_DELIMITER: u8 = 9;

/// The record that a row stands for: its first four fields, by position.
/// A row that the reader rejected, or one with fewer than four fields, is
/// no record.
pub open spec fn cgroup_record(row: Option<Seq<Seq<char>>>) -> Option<CgroupModel> {
    match row {
        Some(fields) if fields.len() >= 4 => Some(
            CgroupModel {
                subsys_name: fields[0],
                hierarchy: optional(fields[1]),
                num_cgroups: optional(fields[2]),
                enabled: optional(fields[3]),
            },
        ),
        _ => None,
    }
}

/// Whether the kernel has the controller enabled: its last column is `1`.
pub open spec fn is_enabled(record: CgroupModel) -> bool {
    record.enabled == Some("1"@)
}

/// The controller's name if `row` is a record of an enabled controller.
pub open spec fn enabled_name(row: Option<Seq<Seq<char>>>) -> Option<Seq<char>> {
    match cgroup_record(row) {
        Some(record) if is_enabled(record) => Some(record.subsys_name),
        _ => None,
    }
}

/// The names of the enabled controllers among `rows`, in the order of the
/// rows. A row that is no record is passed over.
pub open spec fn enabled_cgroups(rows: Seq<Option<Seq<Seq<char>>>>) -> Seq<Seq<char>> {
    rows.filter_map(|row: Option<Seq<Seq<char>>>| enabled_name(row))
}

impl CgroupSubsystem {
    /// The record that `row` stands for, if it is one.
    pub fn from_row(row: &Row) -> (record: Option<CgroupSubsystem>)
        ensures
            record.deep_view() == cgroup_record(row.deep_view()),
    {
        match row {
            Some(fields) => {
                if fields.len() >= 4 {
                    assert(row.deep_view() == Some(fields.deep_view()));
                    Some(
                        CgroupSubsystem {
                            subsys_name: fields[0].clone(),
                            hierarchy: optional_field(&fields[1]),
                            num_cgroups: optional_field(&fields[2]),
                            enabled: optional_field(&fields[3]),
                        },
                    )
                } else {
                    None
                }
            },
            None => None,
        }
    }

    /// Whether the controller takes part in the hierarchy.
    pub fn is_enabled(&self) -> (yes: bool)
        ensures
            yes == is_enabled(self.deep_view()),
    {
        match &self.enabled {
            Some(text) => str_eq(text.as_str(), "1"),
            None => false,
        }
    }
}

/// The names of the enabled controllers among `rows`, in order.
pub fn enabled_subsystems(rows: &Vec<Row>) -> (names: Vec<String>)
    ensures
        names.deep_view() == enabled_cgroups(rows.deep_view()),
{
    let mut names: Vec<String> = Vec::new();
    let ghost all = rows.deep_view();
    let ghost pick = |row: Option<Seq<Seq<char>>>| enabled_name(row);
    let mut i: usize = 0;
    assert(names.deep_view() =~= Seq::<Seq<char>>::empty());
    assert(all.take(0) =~= Seq::empty());
    while i < rows.len()
        invariant
            i <= rows.len(),
            all == rows.deep_view(),
            all.len() == rows.len(),
            pick == |row: Option<Seq<Seq<char>>>| enabled_name(row),
            names.deep_view() == all.take(i as int).filter_map(pick),
        decreases rows.len() - i,
    {
        proof {
            assert(all.take(i + 1).drop_last() =~= all.take(i as int));
            assert(all.take(i + 1).last() == rows[i as int].deep_view());
        }
        let ghost before = names.deep_view();
        match CgroupSubsystem::from_row(&rows[i]) {
            Some(record) => {
                if record.is_enabled() {
                    let name = record.subsys_name;
                    names.push(name);
                    assert(names.deep_view() =~= before + seq![name@]);
                }
            },
            None => {},
        }
        i += 1;
    }
    assert(all.take(rows.len() as int) =~= all);
    names
}

/// The names of the enabled controllers in the text of `/proc/cgroups`, in
/// the order of its lines.
pub fn cgroup_parse(data: &[u8]) -> (names: Vec<String>)
    ensures
        names.deep_view() == enabled_cgroups(csv_rows(data@, CGROUP_DELIMITER)),
{
    let rows = read_rows(data, CGROUP_DELIMITER);
    enabled_subsystems(&rows)
}

} // verus!
