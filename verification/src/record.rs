//! The configuration record and the check of its group.

use vstd::prelude::*;
use vstd::string::StringExecFns;
use crate::text::{decimal, integer_text};

verus! {

/// The smallest group that a valid record may name.
pub const MIN_GROUP: i32 = 0;

/// The largest group that a valid record may name.
pub const MAX_GROUP: i32 = 100;

/// A cluster's configuration record.
///
/// A record as decoded may hold any group; only [`ClusterMap::validate`]
/// establishes that the group lies between [`MIN_GROUP`] and [`MAX_GROUP`].
#[derive(Debug, PartialEq, Eq)]
pub struct ClusterMap {
    pub name: String,
    pub group: i32,
}

/// What a [`ClusterMap`] stands for: its name as a sequence of characters,
/// beside its group.
pub ghost struct ClusterMapView {
    pub name: Seq<char>,
    pub group: i32,
}

/// Why a decoded record is not a valid configuration.
#[derive(Debug, Clone, Copy, PartialEq, Eq)]
pub enum ClusterMapError {
    /// The group lies outside the accepted range; holds the offending group.
    InvalidGroup(i32),
}

/// Whether `group` lies between [`MIN_GROUP`] and [`MAX_GROUP`], both included.
pub open spec fn group_in_range(group: int) -> bool {
    MIN_GROUP <= group <= MAX_GROUP
}

impl ClusterMapError {
    /// What [`ClusterMapError::message`] says: the accepted range, then the
    /// group that was found.
    pub open spec fn message_text(self) -> Seq<char> {
        match self {
            ClusterMapError::InvalidGroup(group) => "Invalid range of group (expected in "@
                + decimal(MIN_GROUP as int) + "-"@ + decimal(MAX_GROUP as int) + "), got "@
                + decimal(group as int),
        }
    }

    /// The fault in words, as in
    /// `Invalid range of group (expected in 0-100), got 150`.
    pub fn message(&self) -> (r: String)
        ensures
            r@ == self.message_text(),
    {
        match self {
            ClusterMapError::InvalidGroup(group) => {
                let mut text: String = String::from_str("Invalid range of group (expected in ");
                text.append(integer_text(MIN_GROUP).as_str());
                text.append("-");
                text.append(integer_text(MAX_GROUP).as_str());
                text.append("), got ");
                text.append(integer_text(*group).as_str());
                text
            },
        }
    }
}

impl View for ClusterMap {
    type V = ClusterMapView;

    open spec fn view(&self) -> ClusterMapView {
        ClusterMapView { name: self.name@, group: self.group }
    }
}

impl ClusterMapView {
    /// The validity of a record: its group is in range.
    pub open spec fn valid(self) -> bool {
        group_in_range(self.group as int)
    }

    /// The outcome of checking a record: the record itself if it is valid,
    /// else its group as the fault.
    pub open spec fn validated(self) -> Result<ClusterMapView, ClusterMapError> {
        if self.valid() {
            Ok(self)
        } else {
            Err(ClusterMapError::InvalidGroup(self.group))
        }
    }
}

impl ClusterMap {
    /// The validity of a record: its group is in range.
    pub open spec fn valid(&self) -> bool {
        self@.valid()
    }

    /// Checks the group and hands the record back unchanged if it is in range;
    /// otherwise reports the group that was found.
    pub fn validate(self) -> (r: Result<Self, ClusterMapError>)
        ensures
            self.valid() ==> (r matches Ok(record) && record == self),
            !self.valid() ==> (r matches Err(error) && error == ClusterMapError::InvalidGroup(
                self.group,
            )),
    {
        if self.group < MIN_GROUP || self.group > MAX_GROUP {
            Err(ClusterMapError::InvalidGroup(self.group))
        } else {
            Ok(self)
        }
    }
}

} // verus!
