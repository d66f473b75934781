use vstd::prelude::*;

verus! {

/// One content item returned by a fetch: a source-assigned identifier,
/// an optional media locator, and an optional list of contributor names.
/// Items are immutable once fetched and are never persisted; only the
/// highest identifier observed is folded into the cursor.
#[derive(Debug, PartialEq, Eq)]
pub struct ContentItem {
    pub id: u64,
    pub url: Option<String>,
    pub artists: Option<Vec<String>>,
}

impl ContentItem {
    /// An item is new when its identifier lies strictly above the stored
    /// cursor; when no cursor is stored yet, every item is new.
    pub open spec fn is_new(self, cursor: Option<u64>) -> bool {
        match cursor {
            Some(c) => self.id > c,
            None => true,
        }
    }
}

/// The numeric floor a stored cursor provides: its value, or zero when
/// no cursor exists yet.
pub open spec fn cursor_floor(cursor: Option<u64>) -> u64 {
    match cursor {
        Some(c) => c,
        None => 0,
    }
}

} // verus!
