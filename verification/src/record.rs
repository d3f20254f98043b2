//! The canonical event model: the fixed set of change tags and the
//! immutable record that is persisted for each detected change.

use vstd::prelude::*;

verus! {

/// The fixed set of change tags a record can carry.
#[derive(Clone, Copy, PartialEq, Eq, Structural, Debug)]
pub enum ChangeType {
    Create,
    Modify,
    Remove,
    RenameFrom,
    RenameTo,
    Renamed,
}

impl ChangeType {
    /// The text under which this tag is persisted.
    pub open spec fn label_spec(self) -> Seq<char> {
        match self {
            ChangeType::Create => "create"@,
            ChangeType::Modify => "modify"@,
            ChangeType::Remove => "remove"@,
            ChangeType::RenameFrom => "rename_from"@,
            ChangeType::RenameTo => "rename_to"@,
            ChangeType::Renamed => "renamed"@,
        }
    }

    /// Returns the tag's persisted text.
    pub fn label(self) -> (r: String)
        ensures
            r@ == self.label_spec(),
    {
        match self {
            ChangeType::Create => "create".to_owned(),
            ChangeType::Modify => "modify".to_owned(),
            ChangeType::Remove => "remove".to_owned(),
            ChangeType::RenameFrom => "rename_from".to_owned(),
            ChangeType::RenameTo => "rename_to".to_owned(),
            ChangeType::Renamed => "renamed".to_owned(),
        }
    }
}

/// The mathematical image of one persisted record.
pub struct RecordModel {
    pub id: Seq<char>,
    pub timestamp: int,
    pub change_type: ChangeType,
    pub path: Seq<char>,
    pub file_name: Seq<char>,
}

/// The canonical unit persisted: one detected filesystem change.
/// Constructed once by the normalizer and immutable thereafter.
pub struct EventRecord {
    /// Globally unique identifier, assigned at normalization time.
    pub id: String,
    /// Seconds since the Unix epoch, captured at normalization time.
    pub timestamp: i64,
    /// Which kind of change was detected.
    pub change_type: ChangeType,
    /// The filesystem path the notification reported.
    pub path: String,
    /// The file name `path` decomposes into, stored redundantly.
    pub file_name: String,
}

impl View for EventRecord {
    type V = RecordModel;

    open spec fn view(&self) -> RecordModel {
        RecordModel {
            id: self.id@,
            timestamp: self.timestamp as int,
            change_type: self.change_type,
            path: self.path@,
            file_name: self.file_name@,
        }
    }
}

/// The views of a sequence of strings.
pub open spec fn views_of(v: Seq<String>) -> Seq<Seq<char>> {
    v.map_values(|s: String| s@)
}

/// The models of a sequence of records.
pub open spec fn models_of(v: Seq<EventRecord>) -> Seq<RecordModel> {
    v.map_values(|r: EventRecord| r@)
}

} // verus!
