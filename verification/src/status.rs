//! What the command line reports about local state, and the bookkeeping of
//! removing it.

use vstd::prelude::*;

use crate::subscription::{rfc3339_utc, PushSubscription};
use crate::text::{decimal, decimal_value, lemma_decimal_round_trip, push_decimal};

verus! {

/// The word for a piece of state that is present or absent.
pub open spec fn presence_word(present: bool) -> Seq<char> {
    if present {
        "ready"@
    } else {
        "missing"@
    }
}

/// `ready` when the state is present, `missing` when it is not.
pub fn yes_no(value: bool) -> (w: &'static str)
    ensures
        w@ == presence_word(value),
        w@ == if value {
            "ready"@
        } else {
            "missing"@
        },
{
    if value {
        "ready"
    } else {
        "missing"
    }
}

/// The status report: a heading, whether the VAPID key and a subscription
/// exist, and when the subscription was saved.
pub open spec fn status_lines(vapid_ready: bool, subscription: Option<PushSubscription>) -> Seq<
    Seq<char>,
> {
    let head = seq![
        "VibePing iOS Push PoC status"@,
        "VAPID key:     "@ + presence_word(vapid_ready),
        "Subscription:  "@ + presence_word(subscription is Some),
    ];
    match subscription {
        Some(s) => head.push(
            "Created at:    "@ + rfc3339_utc(
                s.created_at.spec_secs(),
                s.created_at.spec_nanos(),
            ).unwrap(),
        ),
        None => head,
    }
}

/// The report's lines, each decided by its own input: the heading, the VAPID
/// line by `vapid_ready` alone, the subscription line by whether there is a
/// subscription alone, and a fourth line exactly when there is one.
pub proof fn lemma_status_lines_per_input(vapid_ready: bool, subscription: Option<PushSubscription>)
    ensures
        status_lines(vapid_ready, subscription).len() == if subscription is Some {
            4int
        } else {
            3int
        },
        status_lines(vapid_ready, subscription)[0] == "VibePing iOS Push PoC status"@,
        status_lines(vapid_ready, subscription)[1] == "VAPID key:     "@ + if vapid_ready {
            "ready"@
        } else {
            "missing"@
        },
        status_lines(vapid_ready, subscription)[2] == "Subscription:  "@ + if subscription is Some {
            "ready"@
        } else {
            "missing"@
        },
{
}

/// Renders the status report, one line per element.
pub fn status_report(vapid_ready: bool, subscription: Option<&PushSubscription>) -> (lines: Vec<
    String,
>)
    ensures
        lines@.map_values(|l: String| l@) == status_lines(
            vapid_ready,
            match subscription {
                Some(s) => Some(*s),
                None => None,
            },
        ),
        lines@.len() == if subscription is Some {
            4int
        } else {
            3int
        },
        lines@[0]@ == "VibePing iOS Push PoC status"@,
        lines@[1]@ == "VAPID key:     "@ + if vapid_ready {
            "ready"@
        } else {
            "missing"@
        },
        lines@[2]@ == "Subscription:  "@ + if subscription is Some {
            "ready"@
        } else {
            "missing"@
        },
{
    let mut lines: Vec<String> = Vec::new();
    lines.push("VibePing iOS Push PoC status".to_owned());
    let mut vapid = "VAPID key:     ".to_owned();
    vapid.append(yes_no(vapid_ready));
    lines.push(vapid);
    let mut sub = "Subscription:  ".to_owned();
    sub.append(yes_no(subscription.is_some()));
    lines.push(sub);
    if let Some(s) = subscription {
        let mut created = "Created at:    ".to_owned();
        let text = s.created_at.to_rfc3339();
        created.append(text.as_str());
        lines.push(created);
    }
    let ghost expected = status_lines(
        vapid_ready,
        match subscription {
            Some(s) => Some(*s),
            None => None,
        },
    );
    assert(lines@.map_values(|l: String| l@) =~= expected);
    proof {
        lemma_status_lines_per_input(
            vapid_ready,
            match subscription {
                Some(s) => Some(*s),
                None => None,
            },
        );
        assert(lines@.map_values(|l: String| l@)[1] == lines@[1]@);
        assert(lines@.map_values(|l: String| l@)[0] == lines@[0]@);
        assert(lines@.map_values(|l: String| l@)[2] == lines@[2]@);
    }
    lines
}

/// What became of one file that was to be removed.
#[derive(Debug, Clone, Copy, PartialEq, Eq, Structural)]
pub enum RemovalOutcome {
    /// The file was removed.
    Removed,
    /// There was no such file.
    Missing,
    /// The file could not be removed.
    Failed,
}

/// Progress through removing the local state files.
#[derive(Debug)]
pub struct ResetProgress {
    /// How many files were removed so far.
    pub removed: u32,
}

/// The closing message of a reset.
pub open spec fn reset_message(removed: u32) -> Seq<char> {
    "Removed "@ + decimal(removed as nat)
        + " local state file(s). A new VAPID key will be created on serve."@
}

/// The reset message names the number of files removed: it reads
/// `Removed <numeral> local state file(s). …` and the numeral denotes the count.
pub proof fn lemma_reset_message_count(removed: u32)
    ensures
        exists|numeral: Seq<char>|
            reset_message(removed) == "Removed "@ + numeral
                + " local state file(s). A new VAPID key will be created on serve."@
                && #[trigger] decimal_value(numeral) == removed,
{
    lemma_decimal_round_trip(removed as nat);
    let numeral = decimal(removed as nat);
    assert(decimal_value(numeral) == removed);
}

impl ResetProgress {
    /// Nothing removed yet.
    pub fn new() -> (p: ResetProgress)
        ensures
            p.removed == 0,
    {
        ResetProgress { removed: 0 }
    }

    /// Records what happened to one file; a removed file is counted, a
    /// missing one is skipped, a failure ends the reset.
    pub fn record(&mut self, outcome: RemovalOutcome) -> (go_on: bool)
        requires
            old(self).removed < u32::MAX,
        ensures
            final(self).removed == old(self).removed + if outcome == RemovalOutcome::Removed {
                1u32
            } else {
                0u32
            },
            go_on == (outcome != RemovalOutcome::Failed),
    {
        match outcome {
            RemovalOutcome::Removed => {
                self.removed = self.removed + 1;
                true
            },
            RemovalOutcome::Missing => true,
            RemovalOutcome::Failed => false,
        }
    }

    /// The message that closes a completed reset.
    pub fn summary(&self) -> (m: String)
        ensures
            m@ == reset_message(self.removed),
            exists|numeral: Seq<char>|
                m@ == "Removed "@ + numeral
                    + " local state file(s). A new VAPID key will be created on serve."@
                    && #[trigger] decimal_value(numeral) == self.removed,
    {
        proof {
            lemma_reset_message_count(self.removed);
        }
        let mut m = "Removed ".to_owned();
        push_decimal(&mut m, self.removed as u64);
        m.append(" local state file(s). A new VAPID key will be created on serve.");
        m
    }
}

} // verus!
