use vstd::prelude::*;
use vstd::string::*;
use crate::text::{push_signed_decimal, signed_decimal};

verus! {

/// A subscription of the local node, and whether a process serves it.
#[derive(Debug, Clone, PartialEq, Eq)]
pub struct SubscriptionStatus {
    pub name: String,
    pub status: String,
}

/// A client the local node replicates to, its state and how far it lags.
#[derive(Debug, Clone, PartialEq, Eq)]
pub struct ServingStatus {
    pub client: String,
    pub status: String,
    pub lag_bytes: i64,
}

/// The replication state of the local node.
#[derive(Debug, Clone, PartialEq, Eq)]
pub struct SyncStatus {
    pub subscriptions: Vec<SubscriptionStatus>,
    pub serving: Vec<ServingStatus>,
    pub is_fully_synced: bool,
}

/// A row of `pg_stat_subscription`: the subscription and its worker's pid.
pub type SubscriptionRow = (String, Option<i32>);

/// A row of `pg_stat_replication`: client name, state and lag in bytes.
pub type ReplicationRow = (Option<String>, Option<String>, Option<i64>);

/// `connected` when a process serves the subscription, `disconnected` otherwise.
pub open spec fn subscription_state(pid: Option<i32>) -> Seq<char> {
    if pid is Some {
        "connected"@
    } else {
        "disconnected"@
    }
}

pub open spec fn opt_text(s: Option<String>) -> Seq<char> {
    match s {
        Some(t) => t@,
        None => Seq::empty(),
    }
}

/// The lag of a replication row, 0 when unknown.
pub open spec fn row_lag(r: ReplicationRow) -> i64 {
    match r.2 {
        Some(l) => l,
        None => 0,
    }
}

/// Whether every subscription is served and no client lags.
pub open spec fn fully_synced(subs: Seq<SubscriptionRow>, reps: Seq<ReplicationRow>) -> bool {
    (forall|i: int| 0 <= i < subs.len() ==> (#[trigger] subs[i]).1 is Some) && (forall|j: int|
        0 <= j < reps.len() ==> row_lag(#[trigger] reps[j]) <= 0)
}

fn text_or_empty(s: &Option<String>) -> (t: String)
    ensures
        t@ == opt_text(*s),
{
    match s {
        Some(t) => t.clone(),
        None => String::new(),
    }
}

/// The replication report from the rows of `pg_stat_subscription` and
/// `pg_stat_replication`: one entry per row, in order, and fully synced
/// exactly when every subscription has a worker and no client lags.
pub fn sync_status(subs: &Vec<SubscriptionRow>, reps: &Vec<ReplicationRow>) -> (r: SyncStatus)
    ensures
        r.subscriptions.len() == subs.len(),
        forall|i: int|
            0 <= i < subs.len() ==> (#[trigger] r.subscriptions@[i]).name@ == subs@[i].0@
                && r.subscriptions@[i].status@ == subscription_state(subs@[i].1),
        r.serving.len() == reps.len(),
        forall|j: int|
            0 <= j < reps.len() ==> (#[trigger] r.serving@[j]).client@ == opt_text(reps@[j].0)
                && r.serving@[j].status@ == opt_text(reps@[j].1) && r.serving@[j].lag_bytes
                == row_lag(reps@[j]),
        r.is_fully_synced == fully_synced(subs@, reps@),
{
    let mut synced = true;
    let mut subscriptions: Vec<SubscriptionStatus> = Vec::new();
    let mut i: usize = 0;
    while i < subs.len()
        invariant
            i <= subs.len(),
            subscriptions.len() == i,
            forall|k: int|
                0 <= k < i ==> (#[trigger] subscriptions@[k]).name@ == subs@[k].0@
                    && subscriptions@[k].status@ == subscription_state(subs@[k].1),
            synced == forall|k: int| 0 <= k < i ==> (#[trigger] subs@[k]).1 is Some,
        decreases subs.len() - i,
    {
        let row = &subs[i];
        let status = if row.1.is_some() {
            String::from_str("connected")
        } else {
            synced = false;
            String::from_str("disconnected")
        };
        subscriptions.push(SubscriptionStatus { name: row.0.clone(), status });
        i = i + 1;
    }
    let ghost subs_synced = synced;
    let mut serving: Vec<ServingStatus> = Vec::new();
    let mut j: usize = 0;
    while j < reps.len()
        invariant
            j <= reps.len(),
            serving.len() == j,
            forall|k: int|
                0 <= k < j ==> (#[trigger] serving@[k]).client@ == opt_text(reps@[k].0)
                    && serving@[k].status@ == opt_text(reps@[k].1) && serving@[k].lag_bytes
                    == row_lag(reps@[k]),
            synced == (subs_synced && forall|k: int| 0 <= k < j ==> row_lag(#[trigger] reps@[k])
                <= 0),
        decreases reps.len() - j,
    {
        let row = &reps[j];
        let lag = match row.2 {
            Some(l) => l,
            None => 0,
        };
        if lag > 0 {
            synced = false;
        }
        serving.push(
            ServingStatus {
                client: text_or_empty(&row.0),
                status: text_or_empty(&row.1),
                lag_bytes: lag,
            },
        );
        j = j + 1;
    }
    SyncStatus { subscriptions, serving, is_fully_synced: synced }
}

/// The lines of the human-readable report, each ending with a line break.
pub open spec fn report_text(s: SyncStatus) -> Seq<char> {
    "Sync Status: "@ + (if s.is_fully_synced {
        "✅ Fully Synced"@
    } else {
        "🔄 Syncing/Disconnected"@
    }) + "\n"@ + "\nSubscriptions (Pulling):\n"@ + (if s.subscriptions.len() == 0 {
        "  (none)\n"@
    } else {
        subscription_lines(s.subscriptions@, s.subscriptions.len() as int)
    }) + "\nServing (Pushing):\n"@ + (if s.serving.len() == 0 {
        "  (none)\n"@
    } else {
        serving_lines(s.serving@, s.serving.len() as int)
    })
}

/// `  - <name> [<status>]` for the first `k` subscriptions.
pub open spec fn subscription_lines(subs: Seq<SubscriptionStatus>, k: int) -> Seq<char>
    decreases k,
{
    if k <= 0 {
        Seq::empty()
    } else {
        subscription_lines(subs, k - 1) + "  - "@ + subs[k - 1].name@ + " ["@ + subs[k
            - 1].status@ + "]\n"@
    }
}

/// `  - <client> [<status>] (lag: <n> bytes)` for the first `k` clients.
pub open spec fn serving_lines(serving: Seq<ServingStatus>, k: int) -> Seq<char>
    decreases k,
{
    if k <= 0 {
        Seq::empty()
    } else {
        serving_lines(serving, k - 1) + "  - "@ + serving[k - 1].client@ + " ["@ + serving[k
            - 1].status@ + "] (lag: "@ + signed_decimal(serving[k - 1].lag_bytes as int)
            + " bytes)\n"@
    }
}

/// The human-readable replication report.
pub fn render_sync_status(s: &SyncStatus) -> (r: String)
    ensures
        r@ == report_text(*s),
{
    let mut r = String::from_str("Sync Status: ");
    if s.is_fully_synced {
        r.append("✅ Fully Synced");
    } else {
        r.append("🔄 Syncing/Disconnected");
    }
    r.append("\n");
    r.append("\nSubscriptions (Pulling):\n");
    let ghost head = r@;
    if s.subscriptions.len() == 0 {
        r.append("  (none)\n");
    } else {
        let mut i: usize = 0;
        while i < s.subscriptions.len()
            invariant
                i <= s.subscriptions.len(),
                r@ == head + subscription_lines(s.subscriptions@, i as int),
            decreases s.subscriptions.len() - i,
        {
            r.append("  - ");
            r.append(s.subscriptions[i].name.as_str());
            r.append(" [");
            r.append(s.subscriptions[i].status.as_str());
            r.append("]\n");
            i = i + 1;
        }
    }
    r.append("\nServing (Pushing):\n");
    let ghost head2 = r@;
    if s.serving.len() == 0 {
        r.append("  (none)\n");
    } else {
        let mut j: usize = 0;
        while j < s.serving.len()
            invariant
                j <= s.serving.len(),
                r@ == head2 + serving_lines(s.serving@, j as int),
            decreases s.serving.len() - j,
        {
            r.append("  - ");
            r.append(s.serving[j].client.as_str());
            r.append(" [");
            r.append(s.serving[j].status.as_str());
            r.append("] (lag: ");
            push_signed_decimal(&mut r, s.serving[j].lag_bytes);
            r.append(" bytes)\n");
            j = j + 1;
        }
    }
    r
}

/// The report says "fully synced" exactly when every subscription is served
/// and no client lags behind.
pub proof fn lemma_synced_iff_all_connected_and_caught_up(
    subs: Seq<SubscriptionRow>,
    reps: Seq<ReplicationRow>,
)
    ensures
        fully_synced(subs, reps) <==> (forall|i: int| 0 <= i < subs.len() ==> subscription_state(
            (#[trigger] subs[i]).1,
        ) == "connected"@) && (forall|j: int| 0 <= j < reps.len() ==> row_lag(#[trigger] reps[j])
            <= 0),
{
    reveal_strlit("connected");
    reveal_strlit("disconnected");
    assert("connected"@ != "disconnected"@) by {
        assert("connected"@.len() != "disconnected"@.len());
    }
}

} // verus!

verus! {

/// The line of a subscription in the report.
pub open spec fn subscription_line(x: SubscriptionStatus) -> Seq<char> {
    "  - "@ + x.name@ + " ["@ + x.status@ + "]\n"@
}

/// The line of a served client in the report.
pub open spec fn serving_line(x: ServingStatus) -> Seq<char> {
    "  - "@ + x.client@ + " ["@ + x.status@ + "] (lag: "@ + signed_decimal(x.lag_bytes as int)
        + " bytes)\n"@
}

proof fn lemma_subscription_lines(subs: Seq<SubscriptionStatus>, k: int)
    requires
        0 <= k <= subs.len(),
    ensures
        subscription_lines(subs, k) == subs.take(k).map_values(|x: SubscriptionStatus|
            subscription_line(x)).flatten(),
    decreases k,
{
    let lines = subs.take(k).map_values(|x: SubscriptionStatus| subscription_line(x));
    lines.lemma_flatten_and_flatten_alt_are_equivalent();
    if k > 0 {
        lemma_subscription_lines(subs, k - 1);
        let prev = subs.take(k - 1).map_values(|x: SubscriptionStatus| subscription_line(x));
        prev.lemma_flatten_and_flatten_alt_are_equivalent();
        assert(lines.drop_last() =~= prev);
    }
}

proof fn lemma_serving_lines(serving: Seq<ServingStatus>, k: int)
    requires
        0 <= k <= serving.len(),
    ensures
        serving_lines(serving, k) == serving.take(k).map_values(|x: ServingStatus| serving_line(x))
            .flatten(),
    decreases k,
{
    let lines = serving.take(k).map_values(|x: ServingStatus| serving_line(x));
    lines.lemma_flatten_and_flatten_alt_are_equivalent();
    if k > 0 {
        lemma_serving_lines(serving, k - 1);
        let prev = serving.take(k - 1).map_values(|x: ServingStatus| serving_line(x));
        prev.lemma_flatten_and_flatten_alt_are_equivalent();
        assert(lines.drop_last() =~= prev);
    }
}

/// The report lists the subscriptions, then the served clients, each in
/// order and each on a line of its own: the `i`-th line of a section names
/// the `i`-th entry, and an empty section reads `(none)`.
pub proof fn lemma_report_lists_entries_in_order(s: SyncStatus)
    ensures
        report_text(s) == "Sync Status: "@ + (if s.is_fully_synced {
            "✅ Fully Synced"@
        } else {
            "🔄 Syncing/Disconnected"@
        }) + "\n"@ + "\nSubscriptions (Pulling):\n"@ + (if s.subscriptions.len() == 0 {
            "  (none)\n"@
        } else {
            s.subscriptions@.map_values(|x: SubscriptionStatus| subscription_line(x)).flatten()
        }) + "\nServing (Pushing):\n"@ + (if s.serving.len() == 0 {
            "  (none)\n"@
        } else {
            s.serving@.map_values(|x: ServingStatus| serving_line(x)).flatten()
        }),
{
    lemma_subscription_lines(s.subscriptions@, s.subscriptions.len() as int);
    lemma_serving_lines(s.serving@, s.serving.len() as int);
    assert(s.subscriptions@.take(s.subscriptions.len() as int) =~= s.subscriptions@);
    assert(s.serving@.take(s.serving.len() as int) =~= s.serving@);
}

} // verus!
