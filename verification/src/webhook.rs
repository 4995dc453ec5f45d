//! The webhook notifier: per-event decisions and exact notification bodies.
//!
//! The notifier owns the frozen configuration (destination, identity,
//! enabled) and decides, for each event envelope, what is to be done: skip,
//! deliver a JSON body to the destination, or first query the host for a
//! block. The caller performs the outside half of each decision — the
//! detached HTTP POST it never waits on, and the host query — and, for a
//! query, hands the answer back to `handle_block_response`.

use vstd::prelude::*;
use vstd::utf8::encode_utf8;
use crate::envelope::{Action, Block, Envelope};
use crate::hasher::{block_hash_spec, calculate_block_hash, BlockHeader};
use crate::json::{
    append_bytes, append_hex, append_json_opt_string, append_json_string, append_str,
    append_u64_dec, dec_digits, hex_string, json_opt_string, json_string, opt_bytes,
};

verus! {

/// The notification body for a governance event: the event type tag, the
/// event's own data object, the configured identity or null, and the
/// delivery timestamp in unix seconds.
pub open spec fn notification_body(
    event_type: Seq<char>,
    data: Seq<u8>,
    node_id: Option<Seq<u8>>,
    timestamp: u64,
) -> Seq<u8> {
    encode_utf8("{\"event_type\":"@) + json_string(encode_utf8(event_type)) + encode_utf8(
        ",\"data\":"@,
    ) + data + encode_utf8(",\"node_id\":"@) + json_opt_string(node_id) + encode_utf8(
        ",\"timestamp\":"@,
    ) + dec_digits(timestamp as nat) + encode_utf8("}"@)
}

/// The data object of a ProposalCreated notification.
pub open spec fn proposal_created_data(
    proposal_id: Seq<char>,
    tier: Seq<char>,
    author: Seq<char>,
    block_height: u64,
) -> Seq<u8> {
    encode_utf8("{\"proposal_id\":"@) + json_string(encode_utf8(proposal_id)) + encode_utf8(
        ",\"tier\":"@,
    ) + json_string(encode_utf8(tier)) + encode_utf8(",\"author\":"@) + json_string(
        encode_utf8(author),
    ) + encode_utf8(",\"block_height\":"@) + dec_digits(block_height as nat) + encode_utf8("}"@)
}

/// The data object of a ProposalVoted notification.
pub open spec fn proposal_voted_data(
    proposal_id: Seq<char>,
    voter: Seq<char>,
    vote: Seq<char>,
    block_height: u64,
) -> Seq<u8> {
    encode_utf8("{\"proposal_id\":"@) + json_string(encode_utf8(proposal_id)) + encode_utf8(
        ",\"voter\":"@,
    ) + json_string(encode_utf8(voter)) + encode_utf8(",\"vote\":"@) + json_string(
        encode_utf8(vote),
    ) + encode_utf8(",\"block_height\":"@) + dec_digits(block_height as nat) + encode_utf8("}"@)
}

/// The data object of a ProposalMerged notification.
pub open spec fn proposal_merged_data(
    proposal_id: Seq<char>,
    merged_at: u64,
    block_height: u64,
) -> Seq<u8> {
    encode_utf8("{\"proposal_id\":"@) + json_string(encode_utf8(proposal_id)) + encode_utf8(
        ",\"merged_at\":"@,
    ) + dec_digits(merged_at as nat) + encode_utf8(",\"block_height\":"@) + dec_digits(
        block_height as nat,
    ) + encode_utf8("}"@)
}

/// The JSON object for a block header, field names fixed, hashes as
/// lowercase hex strings.
pub open spec fn header_json(h: BlockHeader) -> Seq<u8> {
    encode_utf8("{\"version\":"@) + dec_digits(h.version as nat) + encode_utf8(
        ",\"prev_block_hash\":"@,
    ) + hex_string(h.prev_block_hash@) + encode_utf8(",\"merkle_root\":"@) + hex_string(
        h.merkle_root@,
    ) + encode_utf8(",\"timestamp\":"@) + dec_digits(h.timestamp as nat) + encode_utf8(
        ",\"bits\":"@,
    ) + dec_digits(h.bits as nat) + encode_utf8(",\"nonce\":"@) + dec_digits(h.nonce as nat)
        + encode_utf8("}"@)
}

/// The transactions of a block as a comma-separated list of hex strings.
pub open spec fn tx_list_json(txs: Seq<Seq<u8>>) -> Seq<u8>
    decreases txs.len(),
{
    if txs.len() == 0 {
        Seq::empty()
    } else if txs.len() == 1 {
        hex_string(txs[0])
    } else {
        tx_list_json(txs.drop_last()) + encode_utf8(","@) + hex_string(txs.last())
    }
}

/// The full block record as JSON: its header and its raw transactions.
pub open spec fn block_json(b: Block) -> Seq<u8> {
    encode_utf8("{\"header\":"@) + header_json(b.header) + encode_utf8(",\"transactions\":["@)
        + tx_list_json(b.transactions.deep_view()) + encode_utf8("]}"@)
}

/// The notification body for a new block: its double-SHA-256 hash in hex,
/// its height, the full block record, and the configured identity or null.
pub open spec fn block_body(b: Block, height: u64, node_id: Option<Seq<u8>>) -> Seq<u8> {
    encode_utf8("{\"block_hash\":"@) + hex_string(block_hash_spec(b.header)) + encode_utf8(
        ",\"block_height\":"@,
    ) + dec_digits(height as nat) + encode_utf8(",\"block\":"@) + block_json(b) + encode_utf8(
        ",\"contributor_id\":"@,
    ) + json_opt_string(node_id) + encode_utf8("}"@)
}

/// Builds a complete governance notification body around a data object.
pub fn build_notification_body(
    event_type: &str,
    data: &[u8],
    node_id: &Option<String>,
    timestamp: u64,
) -> (r: Vec<u8>)
    ensures
        r@ == notification_body(event_type@, data@, opt_bytes(*node_id), timestamp),
{
    let mut out: Vec<u8> = Vec::new();
    append_str(&mut out, "{\"event_type\":");
    append_json_string(&mut out, event_type);
    append_str(&mut out, ",\"data\":");
    append_bytes(&mut out, data);
    append_str(&mut out, ",\"node_id\":");
    append_json_opt_string(&mut out, node_id);
    append_str(&mut out, ",\"timestamp\":");
    append_u64_dec(&mut out, timestamp);
    append_str(&mut out, "}");
    proof {
        assert(out@ =~= notification_body(event_type@, data@, opt_bytes(*node_id), timestamp));
    }
    out
}

/// Builds the data object of a ProposalCreated notification.
pub fn build_proposal_created_data(
    proposal_id: &str,
    tier: &str,
    author: &str,
    block_height: u64,
) -> (r: Vec<u8>)
    ensures
        r@ == proposal_created_data(proposal_id@, tier@, author@, block_height),
{
    let mut out: Vec<u8> = Vec::new();
    append_str(&mut out, "{\"proposal_id\":");
    append_json_string(&mut out, proposal_id);
    append_str(&mut out, ",\"tier\":");
    append_json_string(&mut out, tier);
    append_str(&mut out, ",\"author\":");
    append_json_string(&mut out, author);
    append_str(&mut out, ",\"block_height\":");
    append_u64_dec(&mut out, block_height);
    append_str(&mut out, "}");
    proof {
        assert(out@ =~= proposal_created_data(proposal_id@, tier@, author@, block_height));
    }
    out
}

/// Builds the data object of a ProposalVoted notification.
pub fn build_proposal_voted_data(proposal_id: &str, voter: &str, vote: &str, block_height: u64) -> (r:
    Vec<u8>)
    ensures
        r@ == proposal_voted_data(proposal_id@, voter@, vote@, block_height),
{
    let mut out: Vec<u8> = Vec::new();
    append_str(&mut out, "{\"proposal_id\":");
    append_json_string(&mut out, proposal_id);
    append_str(&mut out, ",\"voter\":");
    append_json_string(&mut out, voter);
    append_str(&mut out, ",\"vote\":");
    append_json_string(&mut out, vote);
    append_str(&mut out, ",\"block_height\":");
    append_u64_dec(&mut out, block_height);
    append_str(&mut out, "}");
    proof {
        assert(out@ =~= proposal_voted_data(proposal_id@, voter@, vote@, block_height));
    }
    out
}

/// Builds the data object of a ProposalMerged notification.
pub fn build_proposal_merged_data(proposal_id: &str, merged_at: u64, block_height: u64) -> (r: Vec<
    u8,
>)
    ensures
        r@ == proposal_merged_data(proposal_id@, merged_at, block_height),
{
    let mut out: Vec<u8> = Vec::new();
    append_str(&mut out, "{\"proposal_id\":");
    append_json_string(&mut out, proposal_id);
    append_str(&mut out, ",\"merged_at\":");
    append_u64_dec(&mut out, merged_at);
    append_str(&mut out, ",\"block_height\":");
    append_u64_dec(&mut out, block_height);
    append_str(&mut out, "}");
    proof {
        assert(out@ =~= proposal_merged_data(proposal_id@, merged_at, block_height));
    }
    out
}

/// Appends a JSON string token of lowercase hex digits.
fn append_hex_string(out: &mut Vec<u8>, bytes: &[u8])
    ensures
        final(out)@ == old(out)@ + hex_string(bytes@),
{
    out.push(0x22);
    append_hex(out, bytes);
    out.push(0x22);
    proof {
        assert(out@ =~= old(out)@ + hex_string(bytes@));
    }
}

/// Appends the header's JSON object.
#[verifier::rlimit(100)]
fn append_header_json(out: &mut Vec<u8>, h: &BlockHeader)
    ensures
        final(out)@ == old(out)@ + header_json(*h),
{
    append_str(out, "{\"version\":");
    append_u64_dec(out, h.version as u64);
    append_str(out, ",\"prev_block_hash\":");
    append_hex_string(out, &h.prev_block_hash);
    append_str(out, ",\"merkle_root\":");
    append_hex_string(out, &h.merkle_root);
    append_str(out, ",\"timestamp\":");
    append_u64_dec(out, h.timestamp);
    append_str(out, ",\"bits\":");
    append_u64_dec(out, h.bits as u64);
    append_str(out, ",\"nonce\":");
    append_u64_dec(out, h.nonce);
    append_str(out, "}");
    proof {
        assert(out@ =~= old(out)@ + header_json(*h));
    }
}

/// Appends the comma-separated hex strings of the transactions.
fn append_tx_list(out: &mut Vec<u8>, txs: &Vec<Vec<u8>>)
    ensures
        final(out)@ == old(out)@ + tx_list_json(txs.deep_view()),
{
    let ghost dv = txs.deep_view();
    proof {
        assert(dv.len() == txs@.len());
    }
    let mut i: usize = 0;
    while i < txs.len()
        invariant
            i <= txs@.len(),
            dv == txs.deep_view(),
            dv.len() == txs@.len(),
            out@ == old(out)@ + tx_list_json(dv.take(i as int)),
        decreases txs@.len() - i,
    {
        if i > 0 {
            append_str(out, ",");
        }
        append_hex_string(out, txs[i].as_slice());
        proof {
            assert(dv[i as int] == txs@[i as int]@);
            assert(dv.take(i + 1).drop_last() =~= dv.take(i as int));
            assert(dv.take(i + 1).last() == dv[i as int]);
            assert(out@ =~= old(out)@ + tx_list_json(dv.take(i + 1)));
        }
        i += 1;
    }
    proof {
        assert(dv.take(dv.len() as int) =~= dv);
    }
}

/// Appends the block's JSON object.
fn append_block_json(out: &mut Vec<u8>, b: &Block)
    ensures
        final(out)@ == old(out)@ + block_json(*b),
{
    append_str(out, "{\"header\":");
    append_header_json(out, &b.header);
    append_str(out, ",\"transactions\":[");
    append_tx_list(out, &b.transactions);
    append_str(out, "]}");
    proof {
        assert(out@ =~= old(out)@ + block_json(*b));
    }
}

/// Builds the complete notification body for a new block.
pub fn build_block_body(block: &Block, height: u64, node_id: &Option<String>) -> (r: Vec<u8>)
    ensures
        r@ == block_body(*block, height, opt_bytes(*node_id)),
{
    let mut out: Vec<u8> = Vec::new();
    append_str(&mut out, "{\"block_hash\":");
    let hash = calculate_block_hash(&block.header);
    append_hex_string(&mut out, hash.as_slice());
    append_str(&mut out, ",\"block_height\":");
    append_u64_dec(&mut out, height);
    append_str(&mut out, ",\"block\":");
    append_block_json(&mut out, block);
    append_str(&mut out, ",\"contributor_id\":");
    append_json_opt_string(&mut out, node_id);
    append_str(&mut out, "}");
    proof {
        assert(out@ =~= block_body(*block, height, opt_bytes(*node_id)));
    }
    out
}

/// An owned copy of a byte slice.
fn copy_bytes(s: &[u8]) -> (r: Vec<u8>)
    ensures
        r@ == s@,
{
    let mut out: Vec<u8> = Vec::new();
    append_bytes(&mut out, s);
    out
}

/// The webhook notifier's frozen configuration: destination, identity, and
/// whether notification is enabled at all.
pub struct GovernanceWebhookClient {
    pub webhook_url: Option<String>,
    pub node_id: Option<String>,
    pub enabled: bool,
}

/// What `handle_event` decides for one envelope: nothing when disabled; a
/// delivery with the exact notification body for the three recognized
/// governance events; a host query for a new block; nothing for everything
/// else.
pub open spec fn decides(c: GovernanceWebhookClient, e: Envelope, now: u64, a: Action) -> bool {
    if !c.enabled {
        a is Skip
    } else {
        match e {
            Envelope::ProposalCreated { proposal_id, tier, author, block_height } => (a matches
                Action::Deliver { url, body } && url@ == c.webhook_url->0@ && body@
                == notification_body(
                "proposal_created"@,
                proposal_created_data(proposal_id@, tier@, author@, block_height),
                opt_bytes(c.node_id),
                now,
            )),
            Envelope::ProposalVoted { proposal_id, voter, vote, block_height } => (a matches
                Action::Deliver { url, body } && url@ == c.webhook_url->0@ && body@
                == notification_body(
                "proposal_voted"@,
                proposal_voted_data(proposal_id@, voter@, vote@, block_height),
                opt_bytes(c.node_id),
                now,
            )),
            Envelope::ProposalMerged { proposal_id, merged_at, block_height } => (a matches
                Action::Deliver { url, body } && url@ == c.webhook_url->0@ && body@
                == notification_body(
                "proposal_merged"@,
                proposal_merged_data(proposal_id@, merged_at, block_height),
                opt_bytes(c.node_id),
                now,
            )),
            Envelope::NewBlock { block_hash, height } => (a matches Action::QueryBlock {
                block_hash: bh,
                height: ht,
            } && bh@ == block_hash@ && ht == height),
            Envelope::EconomicNodeRegistered { .. } => a is Skip,
            Envelope::EconomicNodeVeto { .. } => a is Skip,
            Envelope::Other => a is Skip,
        }
    }
}

/// What `handle_block_response` decides once the host has answered a block
/// query: nothing when disabled or when the block is absent; otherwise a
/// delivery with the exact block notification body.
pub open spec fn block_response_decides(
    c: GovernanceWebhookClient,
    block: Option<&Block>,
    height: u64,
    a: Action,
) -> bool {
    if !c.enabled {
        a is Skip
    } else {
        match block {
            Option::None => a is Skip,
            Option::Some(b) => (a matches Action::Deliver { url, body } && url@
                == c.webhook_url->0@ && body@ == block_body(*b, height, opt_bytes(c.node_id))),
        }
    }
}

impl GovernanceWebhookClient {
    /// Configuration well-formedness: enabled exactly when a destination is
    /// configured.
    pub open spec fn wf(&self) -> bool {
        self.enabled <==> self.webhook_url is Some
    }

    /// Builds the notifier from its configuration. Notification is enabled
    /// exactly when a destination is given; the identity may be absent.
    pub fn new(webhook_url: Option<String>, node_id: Option<String>) -> (c: Self)
        ensures
            c.wf(),
            c.webhook_url == webhook_url,
            c.node_id == node_id,
            c.enabled == (webhook_url is Some),
    {
        let enabled = webhook_url.is_some();
        GovernanceWebhookClient { webhook_url, node_id, enabled }
    }

    /// Decides what one envelope calls for. Never fails and never performs
    /// the network call itself: a `Deliver` is handed to the caller to run
    /// as a detached task, a `QueryBlock` to answer via the host.
    pub fn handle_event(&self, event: &Envelope, now: u64) -> (a: Action)
        requires
            self.wf(),
        ensures
            decides(*self, *event, now, a),
    {
        if !self.enabled {
            return Action::Skip;
        }
        let url = match &self.webhook_url {
            Option::Some(u) => u.clone(),
            // never reached: enabled means a destination is configured
            Option::None => {
                return Action::Skip;
            },
        };
        match event {
            Envelope::ProposalCreated { proposal_id, tier, author, block_height } => {
                let data = build_proposal_created_data(
                    proposal_id.as_str(),
                    tier.as_str(),
                    author.as_str(),
                    *block_height,
                );
                let body = build_notification_body(
                    "proposal_created",
                    data.as_slice(),
                    &self.node_id,
                    now,
                );
                Action::Deliver { url, body }
            },
            Envelope::ProposalVoted { proposal_id, voter, vote, block_height } => {
                let data = build_proposal_voted_data(
                    proposal_id.as_str(),
                    voter.as_str(),
                    vote.as_str(),
                    *block_height,
                );
                let body = build_notification_body(
                    "proposal_voted",
                    data.as_slice(),
                    &self.node_id,
                    now,
                );
                Action::Deliver { url, body }
            },
            Envelope::ProposalMerged { proposal_id, merged_at, block_height } => {
                let data = build_proposal_merged_data(
                    proposal_id.as_str(),
                    *merged_at,
                    *block_height,
                );
                let body = build_notification_body(
                    "proposal_merged",
                    data.as_slice(),
                    &self.node_id,
                    now,
                );
                Action::Deliver { url, body }
            },
            Envelope::NewBlock { block_hash, height } => {
                let bh = copy_bytes(block_hash.as_slice());
                Action::QueryBlock { block_hash: bh, height: *height }
            },
            Envelope::EconomicNodeRegistered { .. } => Action::Skip,
            Envelope::EconomicNodeVeto { .. } => Action::Skip,
            Envelope::Other => Action::Skip,
        }
    }

    /// Decides what the host's answer to a block query calls for: a block
    /// notification when the block is there, silence when it is absent —
    /// absence is not an error, the event may reference a block no longer
    /// available.
    pub fn handle_block_response(&self, block: Option<&Block>, height: u64) -> (a: Action)
        requires
            self.wf(),
        ensures
            block_response_decides(*self, block, height, a),
    {
        if !self.enabled {
            return Action::Skip;
        }
        let url = match &self.webhook_url {
            Option::Some(u) => u.clone(),
            // never reached: enabled means a destination is configured
            Option::None => {
                return Action::Skip;
            },
        };
        match block {
            Option::Some(b) => {
                let body = build_block_body(b, height, &self.node_id);
                Action::Deliver { url, body }
            },
            Option::None => Action::Skip,
        }
    }
}

/// Law (disabled invariant): with no destination configured the notifier is
/// a no-op — whatever the envelope and however the handler was invoked, the
/// decided action is Skip, so no network call is ever attempted.
pub proof fn lemma_disabled_never_delivers(
    c: GovernanceWebhookClient,
    e: Envelope,
    now: u64,
    a: Action,
)
    requires
        c.wf(),
        c.webhook_url is None,
        decides(c, e, now, a),
    ensures
        a is Skip,
{
}

/// Law (silent skip): when the host reports the requested block absent,
/// nothing is delivered and nothing fails — the decided action is Skip.
pub proof fn lemma_absent_block_skips(c: GovernanceWebhookClient, height: u64, a: Action)
    requires
        c.wf(),
        block_response_decides(c, Option::None, height, a),
    ensures
        a is Skip,
{
}

/// Law (handler isolation): the notifier's decision is a function of its
/// own frozen configuration, the envelope and the timestamp alone — there is
/// nothing else it could read. Whatever any collaborator handling the same
/// envelope did or failed to do, two decisions for the same envelope agree:
/// same variant, same destination, same body.
pub proof fn lemma_decision_isolated(
    c: GovernanceWebhookClient,
    e: Envelope,
    now: u64,
    a1: Action,
    a2: Action,
)
    requires
        c.wf(),
        decides(c, e, now, a1),
        decides(c, e, now, a2),
    ensures
        a1 is Skip <==> a2 is Skip,
        a1 is Deliver <==> a2 is Deliver,
        a1 is QueryBlock <==> a2 is QueryBlock,
        a1 is Deliver ==> a1->url@ == a2->url@ && a1->body@ == a2->body@,
        a1 is QueryBlock ==> a1->block_hash@ == a2->block_hash@ && a1->height == a2->height,
{
}

/// The envelopes an enabled notifier answers with an immediate delivery.
pub open spec fn is_proposal_event(e: Envelope) -> bool {
    ||| e is ProposalCreated
    ||| e is ProposalVoted
    ||| e is ProposalMerged
}

/// Law (unbounded fan-out): N qualifying events decided in a row give N
/// deliveries — every one of the N actions is its own `Deliver` with its own
/// copy of destination and body, so no delivery depends on, or can hold
/// back, any other.
pub proof fn lemma_unbounded_fan_out(
    c: GovernanceWebhookClient,
    events: Seq<Envelope>,
    actions: Seq<Action>,
    now: u64,
)
    requires
        c.wf(),
        c.enabled,
        actions.len() == events.len(),
        forall|i: int| 0 <= i < events.len() ==> decides(c, events[i], now, actions[i]),
        forall|i: int| 0 <= i < events.len() ==> is_proposal_event(events[i]),
    ensures
        forall|i: int| 0 <= i < actions.len() ==> actions[i] is Deliver,
{
    assert forall|i: int| 0 <= i < actions.len() implies actions[i] is Deliver by {
        assert(decides(c, events[i], now, actions[i]));
        assert(is_proposal_event(events[i]));
    }
}

} // verus!
