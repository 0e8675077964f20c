//! Liveness decision for one probe round.
//!
//! The platform probe answers, per OS pid, "alive", "not alive", or an
//! error; probing is done by the caller, and the results of one round over
//! a process tree are decided here. A process counts as alive while any pid
//! of its tree is alive; it is pronounced dead only on a decisive round in
//! which every probe reported not alive; a round with a failed probe and no
//! alive answer is not determinable and is simply retried next tick.

use vstd::prelude::*;

verus! {

/// Outcome of one probe round over a process tree.
#[derive(Clone, Copy, Debug, PartialEq, Eq, Structural)]
pub enum LivenessVerdict {
    /// Some probed pid was determined alive.
    Alive,
    /// Every probed pid was decisively determined not alive.
    Dead,
    /// No pid was determined alive, but some probe failed: liveness is not
    /// determinable this round.
    Unknown,
}

/// The verdict of one probe round. `parent` is the probe result for the
/// directly spawned pid and `children` the results for its known
/// descendants; `None` stands for a probe call that errored.
pub open spec fn spec_verdict(parent: Option<bool>, children: Seq<Option<bool>>) -> LivenessVerdict {
    if parent == Some(true) || (exists|i: int|
        0 <= i < children.len() && children[i] == Some(true)) {
        LivenessVerdict::Alive
    } else if parent == Some(false) && (forall|i: int|
        0 <= i < children.len() ==> children[i] == Some(false)) {
        LivenessVerdict::Dead
    } else {
        LivenessVerdict::Unknown
    }
}

/// Decide one probe round.
pub fn liveness_verdict(parent: Option<bool>, children: &Vec<Option<bool>>) -> (r:
    LivenessVerdict)
    ensures
        r == spec_verdict(parent, children@),
{
    let mut any_alive: bool = matches!(parent, Some(true));
    let mut all_dead: bool = matches!(parent, Some(false));
    let n: usize = children.len();
    let mut i: usize = 0;
    while i < n
        invariant
            n == children@.len(),
            i <= n,
            any_alive == (parent == Some(true) || (exists|j: int|
                0 <= j < i && children@[j] == Some(true))),
            all_dead == (parent == Some(false) && (forall|j: int|
                0 <= j < i ==> children@[j] == Some(false))),
        decreases n - i,
    {
        match children[i] {
            Some(true) => {
                any_alive = true;
                all_dead = false;
            },
            Some(false) => {},
            None => {
                all_dead = false;
            },
        }
        i = i + 1;
    }
    if any_alive {
        LivenessVerdict::Alive
    } else if all_dead {
        LivenessVerdict::Dead
    } else {
        LivenessVerdict::Unknown
    }
}

/// A failed probe is never read as death: a round's verdict is `Dead`
/// exactly when the parent probe and every child probe decisively reported
/// not alive, so an errored probe can at worst leave the round undecided.
pub proof fn lemma_death_needs_decisive_probes(parent: Option<bool>, children: Seq<
    Option<bool>>)
    ensures
        spec_verdict(parent, children) is Dead <==> (parent == Some(false) && (forall|i: int|
            0 <= i < children.len() ==> children[i] == Some(false))),
{
}

} // verus!
