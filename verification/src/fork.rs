//! The fork flow: a session over a streaming connection to a
//! fork-capable node, which optionally replays every historical
//! transaction from an origin block to the chain head before listening
//! for new blocks, and terminates cleanly on a fatal provider error.

use vstd::prelude::*;

verus! {

/// The `fork` command's arguments: whether to replay all transactions
/// from the reference chain. Defaults to false when absent.
pub struct Fork {
    pub all_txs: Option<bool>,
}

impl Fork {
    /// Whether this command asks for a full replay; an absent flag
    /// means no replay.
    pub fn replay_all_transactions(&self) -> (b: bool)
        ensures
            b == (self.all_txs == Some(true)),
    {
        match self.all_txs {
            Some(v) => v,
            None => false,
        }
    }
}

/// Errors of the fork flow: the provider connection failed, or the
/// historical replay failed.
#[derive(Debug, Clone, Copy, PartialEq, Eq, Structural)]
pub enum ForkError {
    ProviderError,
    ReplayError,
}

/// What the fork session is doing: replaying history, listening for
/// new blocks, or terminated.
#[derive(Debug, Clone, Copy, PartialEq, Eq, Structural)]
pub enum ForkPhase {
    Replaying,
    Listening,
    Terminated,
}

/// A live fork session over an established streaming connection.
pub struct ForkSession {
    pub http_rpc_url: String,
    pub replay_all_transactions: bool,
    pub phase: ForkPhase,
    pub blocks_processed: u64,
}

impl ForkSession {
    /// Starts a session: one that replays begins with the historical
    /// replay, any other starts at the current chain head with no
    /// replay.
    pub fn start(http_rpc_url: String, replay_all_transactions: bool) -> (s: ForkSession)
        ensures
            s.http_rpc_url@ == http_rpc_url@,
            s.replay_all_transactions == replay_all_transactions,
            s.phase == (if replay_all_transactions {
                ForkPhase::Replaying
            } else {
                ForkPhase::Listening
            }),
            s.blocks_processed == 0,
    {
        ForkSession {
            http_rpc_url,
            replay_all_transactions,
            phase: if replay_all_transactions {
                ForkPhase::Replaying
            } else {
                ForkPhase::Listening
            },
            blocks_processed: 0,
        }
    }

    /// The block numbers whose transactions a full replay re-submits:
    /// every block from the origin up to and including the head, in
    /// original execution order — none skipped, none reordered.
    pub fn replay_schedule(origin: u64, head: u64) -> (r: Vec<u64>)
        requires
            origin <= head,
            head - origin < usize::MAX as u64,
        ensures
            r@.len() == head - origin + 1,
            forall|i: int| 0 <= i < r@.len() ==> r@[i] == origin + i,
    {
        let mut r: Vec<u64> = Vec::new();
        let mut b: u64 = origin;
        while b < head
            invariant
                origin <= b <= head,
                head - origin < usize::MAX as u64,
                r@.len() == b - origin,
                forall|i: int| 0 <= i < r@.len() ==> r@[i] == origin + i,
            decreases head - b,
        {
            r.push(b);
            b += 1;
        }
        r.push(head);
        r
    }

    /// A finished replay hands the session over to live listening.
    pub fn on_replay_complete(&mut self)
        requires
            old(self).phase is Replaying,
        ensures
            final(self).http_rpc_url == old(self).http_rpc_url,
            final(self).replay_all_transactions == old(self).replay_all_transactions,
            final(self).blocks_processed == old(self).blocks_processed,
            final(self).phase is Listening,
    {
        self.phase = ForkPhase::Listening;
    }

    /// A failed replay terminates the session with `ReplayError`:
    /// transactions are never skipped to keep a session alive.
    pub fn on_replay_failure(&mut self) -> (e: ForkError)
        requires
            old(self).phase is Replaying,
        ensures
            final(self).http_rpc_url == old(self).http_rpc_url,
            final(self).replay_all_transactions == old(self).replay_all_transactions,
            final(self).blocks_processed == old(self).blocks_processed,
            final(self).phase is Terminated,
            e is ReplayError,
    {
        self.phase = ForkPhase::Terminated;
        ForkError::ReplayError
    }

    /// A new block arriving while listening is processed and counted;
    /// the session keeps listening.
    pub fn on_block(&mut self)
        requires
            old(self).phase is Listening,
            old(self).blocks_processed < u64::MAX,
        ensures
            final(self).http_rpc_url == old(self).http_rpc_url,
            final(self).replay_all_transactions == old(self).replay_all_transactions,
            final(self).blocks_processed == old(self).blocks_processed + 1,
            final(self).phase is Listening,
    {
        self.blocks_processed = self.blocks_processed + 1;
    }

    /// A fatal provider error terminates the session cleanly with
    /// `ProviderError` instead of looping on a broken connection.
    pub fn on_provider_error(&mut self) -> (e: ForkError)
        requires
            old(self).phase is Replaying || old(self).phase is Listening,
        ensures
            final(self).http_rpc_url == old(self).http_rpc_url,
            final(self).replay_all_transactions == old(self).replay_all_transactions,
            final(self).blocks_processed == old(self).blocks_processed,
            final(self).phase is Terminated,
            e is ProviderError,
    {
        self.phase = ForkPhase::Terminated;
        ForkError::ProviderError
    }
}

} // verus!
