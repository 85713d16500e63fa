use vstd::prelude::*;
use crate::config_model::history_unique;
use crate::system_info::{same_client, ClientInfo, ClientRecord};

verus! {

/// Some record of the history is for the client.
pub open spec fn has_record(h: Seq<ClientRecord>, c: ClientInfo) -> bool {
    exists|j: int| 0 <= j < h.len() && same_client(#[trigger] h[j].client_info, c)
}

/// Record `j` is the first one for the client.
pub open spec fn is_first_record(h: Seq<ClientRecord>, c: ClientInfo, j: int) -> bool {
    &&& 0 <= j < h.len()
    &&& same_client(h[j].client_info, c)
    &&& forall|k: int| 0 <= k < j ==> !same_client(#[trigger] h[k].client_info, c)
}

/// The history after the client is seen at time `now`: its first record gets
/// `last_seen = now`, or, when it has none, a record seen first and last at
/// `now` is appended.
pub open spec fn recorded(h: Seq<ClientRecord>, c: ClientInfo, now: i64) -> Seq<ClientRecord> {
    if has_record(h, c) {
        let j = choose|j: int| is_first_record(h, c, j);
        h.update(j, ClientRecord { last_seen: now, ..h[j] })
    } else {
        h.push(ClientRecord { client_info: c, connected_at: now, last_seen: now })
    }
}

proof fn lemma_first_record_unique(h: Seq<ClientRecord>, c: ClientInfo, i: int, j: int)
    requires
        is_first_record(h, c, i),
        is_first_record(h, c, j),
    ensures
        i == j,
{
    if i < j {
        assert(!same_client(h[i].client_info, c));
    } else if j < i {
        assert(!same_client(h[j].client_info, c));
    }
}

proof fn lemma_first_record_exists(h: Seq<ClientRecord>, c: ClientInfo)
    requires
        has_record(h, c),
    ensures
        exists|j: int| is_first_record(h, c, j),
    decreases h.len(),
{
    let w = choose|j: int| 0 <= j < h.len() && same_client(#[trigger] h[j].client_info, c);
    let p = h.subrange(0, w);
    if has_record(p, c) {
        lemma_first_record_exists(p, c);
        let j = choose|j: int| is_first_record(p, c, j);
        assert forall|k: int| 0 <= k < j implies !same_client(#[trigger] h[k].client_info, c) by {
            assert(p[k] == h[k]);
        }
        assert(p[j] == h[j]);
        assert(is_first_record(h, c, j));
    } else {
        assert forall|k: int| 0 <= k < w implies !same_client(#[trigger] h[k].client_info, c) by {
            assert(p[k] == h[k]);
        }
        assert(is_first_record(h, c, w));
    }
}

/// Notes in the history that the client was seen at time `now`.
pub fn record_client(history: &mut Vec<ClientRecord>, client: &ClientInfo, now: i64)
    ensures
        final(history)@ == recorded(old(history)@, *client, now),
{
    let mut i: usize = 0;
    while i < history.len()
        invariant
            i <= history@.len(),
            history@ == old(history)@,
            forall|k: int| 0 <= k < i ==> !same_client(#[trigger] history@[k].client_info, *client),
        decreases history@.len() - i,
    {
        if history[i].client_info.same_client_as(client) {
            proof {
                let h = old(history)@;
                assert(is_first_record(h, *client, i as int));
                assert(has_record(h, *client));
                let j = choose|j: int| is_first_record(h, *client, j);
                lemma_first_record_unique(h, *client, i as int, j);
            }
            let mut record = history[i].duplicate();
            record.last_seen = now;
            history.set(i, record);
            return;
        }
        i += 1;
    }
    history.push(ClientRecord { client_info: client.duplicate(), connected_at: now, last_seen: now });
}

/// Seeing a client keeps at most one record per (name, version) pair.
pub proof fn lemma_recorded_keeps_unique(h: Seq<ClientRecord>, c: ClientInfo, now: i64)
    requires
        history_unique(h),
    ensures
        history_unique(recorded(h, c, now)),
{
    if has_record(h, c) {
        lemma_first_record_exists(h, c);
        let j = choose|j: int| is_first_record(h, c, j);
        let h2 = recorded(h, c, now);
        assert forall|a: int, b: int|
            0 <= a < h2.len() && 0 <= b < h2.len() && a != b implies !same_client(
            #[trigger] h2[a].client_info,
            #[trigger] h2[b].client_info,
        ) by {
            assert(h2[a].client_info == h[a].client_info);
            assert(h2[b].client_info == h[b].client_info);
        }
    } else {
        let h2 = recorded(h, c, now);
        assert forall|a: int, b: int|
            0 <= a < h2.len() && 0 <= b < h2.len() && a != b implies !same_client(
            #[trigger] h2[a].client_info,
            #[trigger] h2[b].client_info,
        ) by {
            if a == h.len() {
                assert(!same_client(h[b].client_info, c));
            } else if b == h.len() {
                assert(!same_client(h[a].client_info, c));
            } else {
                assert(h2[a] == h[a]);
                assert(h2[b] == h[b]);
            }
        }
    }
}


proof fn lemma_recorded_has_record(h: Seq<ClientRecord>, c: ClientInfo, now: i64)
    ensures
        has_record(recorded(h, c, now), c),
        recorded(h, c, now).len() >= h.len(),
        forall|i: int|
            0 <= i < h.len() ==> (#[trigger] recorded(h, c, now)[i]).connected_at
                == h[i].connected_at,
{
    let h1 = recorded(h, c, now);
    if has_record(h, c) {
        lemma_first_record_exists(h, c);
        let j = choose|j: int| is_first_record(h, c, j);
        assert(same_client(h1[j].client_info, c));
    } else {
        assert(same_client(h1[h.len() as int].client_info, c));
    }
}

/// Seeing the same (name, version) pair twice keeps one record for it: the
/// second sighting appends nothing, keeps every `connected_at`, and sets the
/// record's `last_seen` to the second time.
pub proof fn law_same_client_seen_twice(
    h: Seq<ClientRecord>,
    c1: ClientInfo,
    c2: ClientInfo,
    t1: i64,
    t2: i64,
)
    requires
        same_client(c1, c2),
    ensures
        ({
            let h1 = recorded(h, c1, t1);
            let h2 = recorded(h1, c2, t2);
            &&& h2.len() == h1.len()
            &&& forall|i: int|
                0 <= i < h2.len() ==> (#[trigger] h2[i]).connected_at == h1[i].connected_at
            &&& exists|j: int|
                0 <= j < h2.len() && same_client(#[trigger] h2[j].client_info, c1)
                    && h2[j].last_seen == t2
        }),
{
    let h1 = recorded(h, c1, t1);
    lemma_recorded_has_record(h, c1, t1);
    assert(has_record(h1, c2));
    lemma_first_record_exists(h1, c2);
    let j = choose|j: int| is_first_record(h1, c2, j);
    let h2 = recorded(h1, c2, t2);
    assert(same_client(h2[j].client_info, c1) && h2[j].last_seen == t2);
}

/// Seeing two different (name, version) pairs, neither recorded before,
/// appends one record for each, in order, each with its own `connected_at`.
pub proof fn law_distinct_clients_recorded_apart(
    h: Seq<ClientRecord>,
    c1: ClientInfo,
    c2: ClientInfo,
    t1: i64,
    t2: i64,
)
    requires
        !same_client(c1, c2),
        !has_record(h, c1),
        !has_record(h, c2),
    ensures
        ({
            let h2 = recorded(recorded(h, c1, t1), c2, t2);
            &&& h2.len() == h.len() + 2
            &&& h2[h.len() as int].client_info == c1
            &&& h2[h.len() as int].connected_at == t1
            &&& h2[h.len() + 1int].client_info == c2
            &&& h2[h.len() + 1int].connected_at == t2
        }),
{
    let h1 = recorded(h, c1, t1);
    assert forall|j: int| 0 <= j < h1.len() implies !same_client(
        #[trigger] h1[j].client_info,
        c2,
    ) by {
        if j < h.len() {
            assert(h1[j] == h[j]);
        }
    }
}


/// The history with every record dropped whose client an earlier record
/// already holds.
pub open spec fn distinct_records(h: Seq<ClientRecord>) -> Seq<ClientRecord>
    decreases h.len(),
{
    if h.len() == 0 {
        Seq::<ClientRecord>::empty()
    } else {
        let r = distinct_records(h.drop_last());
        if has_record(r, h.last().client_info) {
            r
        } else {
            r.push(h.last())
        }
    }
}

/// Whether some record of the history is for the client.
pub fn has_client(history: &Vec<ClientRecord>, client: &ClientInfo) -> (r: bool)
    ensures
        r == has_record(history@, *client),
{
    let mut i: usize = 0;
    while i < history.len()
        invariant
            i <= history@.len(),
            forall|k: int| 0 <= k < i ==> !same_client(#[trigger] history@[k].client_info, *client),
        decreases history@.len() - i,
    {
        if history[i].client_info.same_client_as(client) {
            return true;
        }
        i += 1;
    }
    false
}

/// Keeps the first record of each client, in order.
pub fn distinct_history(history: &Vec<ClientRecord>) -> (r: Vec<ClientRecord>)
    ensures
        r@ == distinct_records(history@),
        history_unique(r@),
{
    let mut out: Vec<ClientRecord> = Vec::new();
    let mut i: usize = 0;
    while i < history.len()
        invariant
            i <= history@.len(),
            out@ == distinct_records(history@.take(i as int)),
            history_unique(out@),
        decreases history@.len() - i,
    {
        proof {
            assert(history@.take(i + 1).drop_last() =~= history@.take(i as int));
        }
        let known = has_client(&out, &history[i].client_info);
        if !known {
            let ghost before = out@;
            out.push(history[i].duplicate());
            proof {
                let c = history@[i as int].client_info;
                assert forall|a: int, b: int|
                    0 <= a < out@.len() && 0 <= b < out@.len() && a != b implies !same_client(
                    #[trigger] out@[a].client_info,
                    #[trigger] out@[b].client_info,
                ) by {
                    if a == before.len() {
                        assert(!same_client(before[b].client_info, c));
                    } else if b == before.len() {
                        assert(!same_client(before[a].client_info, c));
                    } else {
                        assert(out@[a] == before[a]);
                        assert(out@[b] == before[b]);
                    }
                }
            }
        }
        i += 1;
    }
    proof {
        assert(history@.take(history@.len() as int) =~= history@);
    }
    out
}

} // verus!
