//! Decisions of the polling change detector.
//!
//! Each tick the caller reads the artifact's modification identity (or fails
//! to). If the detector wants the content for that identity the caller reads
//! it too (or fails to), and hands both over. A publication comes out when the
//! identity differs from the last one whose content was published and the
//! content could be read. The last identity observed is tracked apart from the
//! last one published, so a change whose content read failed is retried on
//! the next tick.
use vstd::prelude::*;

use crate::hub::Publication;
use crate::metrics::Metrics;

verus! {

/// The detector's state.
pub struct DetectorView {
    /// The last modification identity read.
    pub observed: Option<u128>,
    /// The modification identity whose content was last published.
    pub published: Option<u128>,
}

/// One tick as seen from outside: the identity read, if any, and the content
/// that a content read would give, if it succeeds.
pub struct Poll {
    pub identity: Option<u128>,
    pub content: Option<Seq<char>>,
}

/// Whether a tick that read `identity` must read the content too.
pub open spec fn wants_content_spec(v: DetectorView, identity: Option<u128>) -> bool {
    identity is Some && identity != v.published
}

/// One tick: the next state and the content published, if any.
pub open spec fn step(v: DetectorView, p: Poll) -> (DetectorView, Option<Seq<char>>) {
    match p.identity {
        None => (v, None),
        Some(id) => {
            let seen = DetectorView { observed: Some(id), ..v };
            if !wants_content_spec(v, p.identity) {
                (seen, None)
            } else {
                match p.content {
                    None => (seen, None),
                    Some(c) => (DetectorView { published: Some(id), ..seen }, Some(c)),
                }
            }
        }
    }
}

/// How many publications a run of ticks from state `v` makes.
pub open spec fn publications(v: DetectorView, polls: Seq<Poll>) -> nat
    decreases polls.len(),
{
    if polls.len() == 0 {
        0
    } else {
        let (next, out) = step(v, polls[0]);
        (if out is Some { 1nat } else { 0nat }) + publications(next, polls.drop_first())
    }
}

/// How many times the readable identity changes along `polls`, starting from
/// `last`. Ticks whose identity could not be read do not count.
pub open spec fn identity_transitions(last: Option<u128>, polls: Seq<Poll>) -> nat
    decreases polls.len(),
{
    if polls.len() == 0 {
        0
    } else {
        let id = polls[0].identity;
        if id is Some && id != last {
            1 + identity_transitions(id, polls.drop_first())
        } else {
            identity_transitions(last, polls.drop_first())
        }
    }
}

/// Polling change detector.
pub struct ChangeDetector {
    last_observed: Option<u128>,
    last_published: Option<u128>,
}

impl View for ChangeDetector {
    type V = DetectorView;

    closed spec fn view(&self) -> DetectorView {
        DetectorView { observed: self.last_observed, published: self.last_published }
    }
}

impl ChangeDetector {
    /// A detector that has seen nothing: the first readable identity is a
    /// change.
    pub fn new() -> (r: ChangeDetector)
        ensures
            r@ == (DetectorView { observed: None, published: None }),
    {
        ChangeDetector { last_observed: None, last_published: None }
    }

    /// The identity whose content was last published.
    pub fn last_published(&self) -> (r: Option<u128>)
        ensures
            r == self@.published,
    {
        self.last_published
    }

    /// Whether a tick that read `identity` must read the content.
    pub fn wants_content(&self, identity: Option<u128>) -> (r: bool)
        ensures
            r == wants_content_spec(self@, identity),
    {
        match identity {
            None => false,
            Some(id) => match self.last_published {
                None => true,
                Some(last) => id != last,
            },
        }
    }

    /// Takes one tick's readings. `content` is consulted only when
    /// `wants_content(identity)` holds. Returns the publication to make, and
    /// counts it as a detected change.
    pub fn observe(
        &mut self,
        identity: Option<u128>,
        content: Option<String>,
        metrics: &mut Metrics,
    ) -> (r: Option<Publication>)
        ensures
            ({
                let (next, out) = step(
                    old(self)@,
                    Poll { identity, content: match content { Some(c) => Some(c@), None => None } },
                );
                &&& final(self)@ == next
                &&& match out {
                    None => r is None && *final(metrics) == *old(metrics),
                    Some(c) => {
                        &&& r matches Some(Publication::Content(s)) && s@ == c
                        &&& *final(metrics) == (Metrics {
                            watcher_changes_detected: old(metrics).watcher_changes_detected.wrapping_add(1),
                            ..*old(metrics)
                        })
                    },
                }
            }),
    {
        let id = match identity {
            None => return None,
            Some(id) => id,
        };
        let wanted = self.wants_content(identity);
        self.last_observed = Some(id);
        if !wanted {
            return None;
        }
        match content {
            None => None,
            Some(c) => {
                self.last_published = Some(id);
                metrics.record_change();
                Some(Publication::Content(c))
            },
        }
    }
}

/// When every content read succeeds, a run of ticks publishes exactly once
/// per change of the readable identity, and never for an identity equal to
/// the last one published.
pub proof fn lemma_one_publication_per_change(v: DetectorView, polls: Seq<Poll>)
    requires
        forall|i: int| 0 <= i < polls.len() && (#[trigger] polls[i]).identity is Some ==> polls[i].content is Some,
    ensures
        publications(v, polls) == identity_transitions(v.published, polls),
    decreases polls.len(),
{
    if polls.len() > 0 {
        let (next, out) = step(v, polls[0]);
        let rest = polls.drop_first();
        assert forall|i: int| 0 <= i < rest.len() && (#[trigger] rest[i]).identity is Some implies rest[i].content is Some by {
            assert(rest[i] == polls[i + 1]);
        }
        lemma_one_publication_per_change(next, rest);
        let id = polls[0].identity;
        if id is Some && id != v.published {
            assert(next.published == id);
        } else {
            assert(next.published == v.published);
        }
    }
}

/// A tick never publishes when the identity it read is the last one
/// published, or when no identity could be read.
pub proof fn lemma_no_publication_without_change(v: DetectorView, p: Poll)
    requires
        p.identity is None || p.identity == v.published,
    ensures
        step(v, p).1 is None,
        step(v, p).0.published == v.published,
{
}

} // verus!
