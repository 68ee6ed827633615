//! Client ids for characters that no connection stands behind.

use vstd::prelude::*;

verus! {

/// The client id that the first bot gets. Ids of connected players are
/// taken from the clock and lie far above.
pub const FIRST_BOT_ID: u64 = 9999;

/// Hands out the client ids of bots, one after the other.
#[derive(Clone, Copy, Debug, PartialEq, Eq)]
pub struct BotIdTracker {
    pub next_bot_id: u64,
}

impl Default for BotIdTracker {
    /// A tracker that has handed out no id yet.
    fn default() -> (tracker: BotIdTracker)
        ensures
            tracker.next_bot_id == FIRST_BOT_ID,
    {
        BotIdTracker { next_bot_id: FIRST_BOT_ID }
    }
}

impl BotIdTracker {
    /// The client id of the next bot, or `None` when every id has been
    /// handed out. The same id is never handed out twice.
    pub fn allocate(&mut self) -> (client_id: Option<u64>)
        ensures
            client_id == if old(self).next_bot_id < u64::MAX {
                Some(old(self).next_bot_id)
            } else {
                None
            },
            final(self).next_bot_id == if old(self).next_bot_id < u64::MAX {
                old(self).next_bot_id + 1
            } else {
                old(self).next_bot_id as int
            },
    {
        if self.next_bot_id < u64::MAX {
            let client_id = self.next_bot_id;
            self.next_bot_id = client_id + 1;
            Some(client_id)
        } else {
            None
        }
    }
}

} // verus!
