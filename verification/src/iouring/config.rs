//! Configuration of an io_uring worker.

use vstd::prelude::*;

verus! {

/// Configuration for an io_uring based vring worker.
#[derive(Clone, Debug)]
pub struct IoUringConfig {
    /// Number of submission queue entries.
    pub entries: u32,
    /// Optional completion queue size. This should usually be larger than `entries`.
    pub cq_entries: Option<u32>,
    /// Try multishot poll first for eventfds/listener fds.
    pub multishot_poll: bool,
    /// Enable SQPOLL with the specified idle timeout in milliseconds.
    pub sqpoll_idle_ms: Option<u32>,
}

impl Default for IoUringConfig {
    fn default() -> (config: IoUringConfig)
        ensures
            config == (IoUringConfig {
                entries: 256,
                cq_entries: Some(512u32),
                multishot_poll: true,
                sqpoll_idle_ms: None,
            }),
    {
        IoUringConfig {
            entries: 256,
            cq_entries: Some(512),
            multishot_poll: true,
            sqpoll_idle_ms: None,
        }
    }
}

/// An option to set up a ring with.
#[derive(Clone, Copy, Debug, PartialEq, Eq, Structural)]
pub enum RingOption {
    /// Give the completion queue this many entries.
    CompletionQueueSize(u32),
    /// Have the kernel poll the submission queue, and go idle after this many milliseconds.
    SubmissionQueuePolling(u32),
}

/// How to set up a ring: the options in the order in which to set them, and the number of entries
/// to build the ring with.
#[derive(Debug)]
pub struct RingPlan {
    /// The options.
    pub options: Vec<RingOption>,
    /// The number of submission queue entries.
    pub entries: u32,
}

impl IoUringConfig {
    /// The options that a ring is set up with: each that is configured, and no other.
    pub open spec fn ring_options(self) -> Seq<RingOption> {
        (match self.cq_entries {
            Some(entries) => seq![RingOption::CompletionQueueSize(entries)],
            None => seq![],
        }) + (match self.sqpoll_idle_ms {
            Some(idle) => seq![RingOption::SubmissionQueuePolling(idle)],
            None => seq![],
        })
    }

    /// How to set up the ring of a worker with this configuration.
    pub fn build_ring(&self) -> (plan: RingPlan)
        ensures
            plan.options@ == self.ring_options(),
            plan.entries == self.entries,
    {
        let mut options: Vec<RingOption> = Vec::new();

        if let Some(cq_entries) = self.cq_entries {
            options.push(RingOption::CompletionQueueSize(cq_entries));
        }
        if let Some(idle) = self.sqpoll_idle_ms {
            options.push(RingOption::SubmissionQueuePolling(idle));
        }
        assert(options@ =~= self.ring_options());
        RingPlan { options, entries: self.entries }
    }
}

/// A ring is set up with what is configured: the size of the completion queue is set to what is
/// asked for, and to nothing else, if a size is asked for; polling of the submission queue likewise,
/// after it; and nothing else is set.
pub proof fn ring_has_what_is_configured(config: IoUringConfig)
    ensures
        forall|entries: u32|
            #[trigger] config.ring_options().contains(RingOption::CompletionQueueSize(entries))
                <==> config.cq_entries == Some(entries),
        forall|idle: u32|
            #[trigger] config.ring_options().contains(RingOption::SubmissionQueuePolling(idle))
                <==> config.sqpoll_idle_ms == Some(idle),
        config.ring_options().len() == (if config.cq_entries is Some {
            1int
        } else {
            0
        }) + (if config.sqpoll_idle_ms is Some {
            1int
        } else {
            0
        }),
        config.cq_entries is Some ==> config.ring_options()[0] is CompletionQueueSize,
{
    let options = config.ring_options();
    if let Some(entries) = config.cq_entries {
        assert(options[0] == RingOption::CompletionQueueSize(entries));
    }
    if let Some(idle) = config.sqpoll_idle_ms {
        assert(options[options.len() - 1] == RingOption::SubmissionQueuePolling(idle));
    }
}

} // verus!
