//! Completion providers, as far as the scheduler knows them.

use vstd::prelude::*;

verus! {

/// Identifies a completion provider.
pub type ProviderId = u64;

/// A provider associated with the active document.
pub struct Provider {
    pub id: ProviderId,
    /// Whether the provider answers completion requests at all.
    pub supports_completion: bool,
    /// The strings that, typed, make this provider's completions desirable.
    pub trigger_characters: Vec<String>,
}

impl Provider {
    /// The provider's trigger strings as sequences of characters.
    pub open spec fn triggers(self) -> Seq<Seq<char>> {
        self.trigger_characters@.map_values(|s: String| s@)
    }
}

} // verus!
