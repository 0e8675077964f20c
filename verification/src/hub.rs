//! Notification hub: one broadcast channel of status text per tracked
//! process, plus one global channel for the live-process count.
//!
//! Channels are created lazily by the first publish or subscribe for a
//! process id and are never proactively destroyed; a stale channel with no
//! subscribers is tolerated, and publishing to it neither fails nor blocks.
//! The hub also remembers the count it published last, so that a late count
//! subscriber can be given a baseline value without polling.

use vstd::prelude::*;

use tokio::sync::broadcast::Receiver;
use tokio::sync::broadcast::Sender;

use crate::channels::channel_pair;
use crate::channels::send_value;
use crate::channels::subscribe_to;
use crate::table::StrTable;

verus! {

/// Fan-out point for per-process status events and the global count.
pub struct NotificationHub {
    channels: StrTable<Sender<String>>,
    count_tx: Option<Sender<usize>>,
    last_published_count: usize,
    capacity: usize,
}

impl NotificationHub {
    /// The channel table is well formed and the configured capacity is one
    /// that a broadcast channel accepts.
    pub closed spec fn wf(&self) -> bool {
        self.channels.wf() && 0 < self.capacity <= usize::MAX / 2
    }

    /// The process ids whose status channel exists.
    pub closed spec fn channel_ids(&self) -> Set<Seq<char>> {
        self.channels@.dom()
    }

    /// Whether the global count channel has been created.
    pub closed spec fn has_count_channel(&self) -> bool {
        self.count_tx is Some
    }

    /// The count most recently published (zero before any publication).
    pub closed spec fn last_count(&self) -> usize {
        self.last_published_count
    }

    /// A hub with no channels yet.
    pub fn new(capacity: usize) -> (r: Self)
        requires
            0 < capacity <= usize::MAX / 2,
        ensures
            r.wf(),
            r.channel_ids() == Set::<Seq<char>>::empty(),
            !r.has_count_channel(),
            r.last_count() == 0,
    {
        let r = NotificationHub {
            channels: StrTable::new(),
            count_tx: None,
            last_published_count: 0,
            capacity,
        };
        proof {
            assert(r.channel_ids() =~= Set::<Seq<char>>::empty());
        }
        r
    }

    /// Publish a status event on a process's channel, creating the channel
    /// on first use. Returns the number of subscribers reached; having none
    /// is tolerated, never an error.
    pub fn publish(&mut self, process_id: &String, event: &str) -> (receivers: usize)
        requires
            old(self).wf(),
        ensures
            final(self).wf(),
            final(self).channel_ids() == old(self).channel_ids().insert(process_id@),
            final(self).has_count_channel() == old(self).has_count_channel(),
            final(self).last_count() == old(self).last_count(),
    {
        match self.channels.get(process_id) {
            Some(tx) => {
                let receivers = send_value(tx, event.to_owned());
                proof {
                    assert(self.channel_ids().insert(process_id@) =~= self.channel_ids());
                }
                receivers
            },
            None => {
                // A channel created by this very publish has no subscribers
                // yet, so there is nobody to deliver the event to.
                let pair: (Sender<String>, Receiver<String>) = channel_pair(self.capacity);
                self.channels.insert(process_id.clone(), pair.0);
                0
            },
        }
    }

    /// Subscribe to a process's status channel, creating it on first use.
    pub fn subscribe(&mut self, process_id: &String) -> (rx: Receiver<String>)
        requires
            old(self).wf(),
        ensures
            final(self).wf(),
            final(self).channel_ids() == old(self).channel_ids().insert(process_id@),
            final(self).has_count_channel() == old(self).has_count_channel(),
            final(self).last_count() == old(self).last_count(),
    {
        match self.channels.get(process_id) {
            Some(tx) => {
                let rx = subscribe_to(tx);
                proof {
                    assert(self.channel_ids().insert(process_id@) =~= self.channel_ids());
                }
                rx
            },
            None => {
                let pair: (Sender<String>, Receiver<String>) = channel_pair(self.capacity);
                self.channels.insert(process_id.clone(), pair.0);
                pair.1
            },
        }
    }

    /// Subscribe to the global count channel, creating it on first use.
    pub fn subscribe_count(&mut self) -> (rx: Receiver<usize>)
        requires
            old(self).wf(),
        ensures
            final(self).wf(),
            final(self).has_count_channel(),
            final(self).channel_ids() == old(self).channel_ids(),
            final(self).last_count() == old(self).last_count(),
    {
        match &self.count_tx {
            Some(tx) => subscribe_to(tx),
            None => {
                let pair: (Sender<usize>, Receiver<usize>) = channel_pair(self.capacity);
                self.count_tx = Some(pair.0);
                pair.1
            },
        }
    }

    /// Publish a new live-process count and remember it as the baseline for
    /// late subscribers. Sent only where the count channel already exists;
    /// publishing with no channel or no subscribers is tolerated.
    pub fn publish_count(&mut self, count: usize) -> (receivers: usize)
        requires
            old(self).wf(),
        ensures
            final(self).wf(),
            final(self).last_count() == count,
            final(self).channel_ids() == old(self).channel_ids(),
            final(self).has_count_channel() == old(self).has_count_channel(),
    {
        self.last_published_count = count;
        match &self.count_tx {
            Some(tx) => send_value(tx, count),
            None => 0,
        }
    }
}

} // verus!
