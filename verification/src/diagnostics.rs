//! What the packet logs print: byte dumps, compression and observation
//! labels, and per-packet-id frequencies of a batch.

use vstd::prelude::*;
use crate::compression::Compression;
use crate::names::{bedrock_packet_name, packet_name};
use crate::observe::ObservedPacket;
use crate::candidates::{chars_less, chars_lt, lemma_chars_lt_total, lemma_chars_lt_transitive, strictly_sorted};
use crate::text::{chars_equal, chars_to_string, str_chars};

verus! {

pub open spec fn hex_digit(v: u8) -> char {
    if v < 10 {
        (('0' as u8) + v) as char
    } else {
        (('a' as u8) + (v - 10)) as char
    }
}

/// The two lower-case hex digits of a byte.
pub open spec fn hex_byte(b: u8) -> Seq<char> {
    seq![hex_digit(b / 16), hex_digit(b % 16)]
}

/// The bytes as lower-case hex pairs separated by single spaces.
pub open spec fn hex_text(bytes: Seq<u8>) -> Seq<char>
    decreases bytes.len(),
{
    if bytes.len() == 0 {
        Seq::empty()
    } else if bytes.len() == 1 {
        hex_byte(bytes[0])
    } else {
        hex_text(bytes.drop_last()) + seq![' '] + hex_byte(bytes.last())
    }
}

fn hex_digit_exec(v: u8) -> (c: char)
    requires
        v < 16,
    ensures
        c == hex_digit(v),
{
    if v < 10 {
        (('0' as u8) + v) as char
    } else {
        (('a' as u8) + (v - 10)) as char
    }
}

pub fn hex_dump(bytes: &[u8]) -> (r: String)
    ensures
        r@ == hex_text(bytes@),
{
    let mut out: Vec<char> = Vec::new();
    let mut i: usize = 0;
    while i < bytes.len()
        invariant
            i <= bytes@.len(),
            out@ == hex_text(bytes@.subrange(0, i as int)),
        decreases bytes@.len() - i,
    {
        let b: u8 = bytes[i];
        let ghost before = out@;
        if i > 0 {
            out.push(' ');
        }
        out.push(hex_digit_exec(b / 16));
        out.push(hex_digit_exec(b % 16));
        proof {
            let next = bytes@.subrange(0, i + 1);
            assert(next.drop_last() =~= bytes@.subrange(0, i as int));
            if i == 0 {
                assert(out@ =~= hex_byte(b));
            } else {
                assert(out@ =~= before + seq![' '] + hex_byte(b));
            }
        }
        i = i + 1;
    }
    assert(bytes@.subrange(0, i as int) =~= bytes@);
    chars_to_string(out.as_slice())
}

/// The name a log gives a batch compression.
pub open spec fn compression_label(compression: Option<Compression>) -> &'static str {
    match compression {
        Some(Compression::Zlib { .. }) => "zlib",
        Some(Compression::Snappy { .. }) => "snappy",
        _ => "none",
    }
}

pub fn compression_name(compression: Option<&Compression>) -> (r: &'static str)
    ensures
        r == compression_label(match compression {
            Some(c) => Some(*c),
            None => None,
        }),
{
    match compression {
        Some(Compression::Zlib { .. }) => "zlib",
        Some(Compression::Snappy { .. }) => "snappy",
        Some(Compression::NoCompression) => "none",
        None => "none",
    }
}

/// The decimal digits of a number.
pub open spec fn decimal(n: nat) -> Seq<char>
    decreases n,
{
    if n < 10 {
        seq![hex_digit(n as u8)]
    } else {
        decimal(n / 10) + seq![hex_digit((n % 10) as u8)]
    }
}

/// Appends the decimal digits of `n`.
pub fn push_decimal(n: u64, out: &mut Vec<char>)
    ensures
        final(out)@ == old(out)@ + decimal(n as nat),
    decreases n,
{
    if n >= 10 {
        push_decimal(n / 10, out);
    }
    out.push(hex_digit_exec((n % 10) as u8));
    assert(out@ =~= old(out)@ + decimal(n as nat));
}

/// The label of an observation in packet summaries.
pub open spec fn observed_label(packet: ObservedPacket) -> Seq<char> {
    match packet {
        ObservedPacket::PlayStatus(_) => "play_status"@,
        ObservedPacket::ResourcePacksInfo => "resource_packs_info"@,
        ObservedPacket::ResourcePackStack => "resource_pack_stack"@,
        ObservedPacket::StartGame(_) => "start_game"@,
        ObservedPacket::Disconnect(_) => "disconnect"@,
        ObservedPacket::NetworkStackLatency { .. } => "network_stack_latency"@,
        ObservedPacket::Text(_) => "text"@,
        ObservedPacket::ModalFormRequest => "modal_form_request"@,
        ObservedPacket::AddItemEntity(_) => "add_item_entity"@,
        ObservedPacket::TakeItemEntity { .. } => "take_item_entity"@,
        ObservedPacket::InventoryContent { .. } => "inventory_content"@,
        ObservedPacket::InventorySlot { .. } => "inventory_slot"@,
        ObservedPacket::ItemStackResponse { .. } => "item_stack_response"@,
        ObservedPacket::LevelChunk { .. } => "level_chunk"@,
        ObservedPacket::NetworkChunkPublisherUpdate { .. } => "network_chunk_publisher_update"@,
        ObservedPacket::UpdateBlock { .. } => "update_block"@,
        ObservedPacket::ContainerOpen { .. } => "container_open"@,
        ObservedPacket::UpdateSoftEnum => "update_soft_enum"@,
        ObservedPacket::RegistryKnown(id) => packet_name(id)@,
        ObservedPacket::Other(id) => "other("@ + decimal(id as nat) + ")"@,
    }
}

pub fn observed_packet_label(packet: &ObservedPacket) -> (r: String)
    ensures
        r@ == observed_label(*packet),
{
    match packet {
        ObservedPacket::PlayStatus(_) => String::from_str("play_status"),
        ObservedPacket::ResourcePacksInfo => String::from_str("resource_packs_info"),
        ObservedPacket::ResourcePackStack => String::from_str("resource_pack_stack"),
        ObservedPacket::StartGame(_) => String::from_str("start_game"),
        ObservedPacket::Disconnect(_) => String::from_str("disconnect"),
        ObservedPacket::NetworkStackLatency { .. } => String::from_str("network_stack_latency"),
        ObservedPacket::Text(_) => String::from_str("text"),
        ObservedPacket::ModalFormRequest => String::from_str("modal_form_request"),
        ObservedPacket::AddItemEntity(_) => String::from_str("add_item_entity"),
        ObservedPacket::TakeItemEntity { .. } => String::from_str("take_item_entity"),
        ObservedPacket::InventoryContent { .. } => String::from_str("inventory_content"),
        ObservedPacket::InventorySlot { .. } => String::from_str("inventory_slot"),
        ObservedPacket::ItemStackResponse { .. } => String::from_str("item_stack_response"),
        ObservedPacket::LevelChunk { .. } => String::from_str("level_chunk"),
        ObservedPacket::NetworkChunkPublisherUpdate { .. } => String::from_str("network_chunk_publisher_update"),
        ObservedPacket::UpdateBlock { .. } => String::from_str("update_block"),
        ObservedPacket::ContainerOpen { .. } => String::from_str("container_open"),
        ObservedPacket::UpdateSoftEnum => String::from_str("update_soft_enum"),
        ObservedPacket::RegistryKnown(id) => String::from_str(bedrock_packet_name(*id)),
        ObservedPacket::Other(id) => {
            let mut out: Vec<char> = Vec::new();
            out.push('o');
            out.push('t');
            out.push('h');
            out.push('e');
            out.push('r');
            out.push('(');
            push_decimal(*id as u64, &mut out);
            out.push(')');
            proof {
                reveal_strlit("other(");
                reveal_strlit(")");
            }
            assert(out@ =~= "other("@ + decimal(*id as nat) + ")"@);
            chars_to_string(out.as_slice())
        },
    }
}


/// How many of the observations carry the label `l`.
pub open spec fn count_label(obs: Seq<ObservedPacket>, l: Seq<char>) -> nat
    decreases obs.len(),
{
    if obs.len() == 0 {
        0
    } else {
        count_label(obs.drop_last(), l) + if observed_label(obs.last()) == l {
            1nat
        } else {
            0nat
        }
    }
}

/// `labels` (sorted, each once) with `counts` are the label frequencies of `obs`.
pub open spec fn frequencies_of(labels: Seq<Seq<char>>, counts: Seq<nat>, obs: Seq<ObservedPacket>) -> bool {
    &&& labels.len() == counts.len()
    &&& strictly_sorted(labels)
    &&& forall|j: int| 0 <= j < labels.len() ==> #[trigger] counts[j] == count_label(obs, labels[j]) && counts[j] > 0
    &&& forall|k: int| 0 <= k < obs.len() ==> labels.contains(#[trigger] observed_label(obs[k]))
}

/// One summary entry: the label, `=`, and its count.
pub open spec fn entry_text(label: Seq<char>, count: nat) -> Seq<char> {
    label + "="@ + decimal(count)
}

/// The entries separated by single spaces.
pub open spec fn entries_text(labels: Seq<Seq<char>>, counts: Seq<nat>) -> Seq<char>
    decreases labels.len(),
{
    if labels.len() == 0 {
        Seq::empty()
    } else if labels.len() == 1 {
        entry_text(labels[0], counts[0])
    } else {
        entries_text(labels.drop_last(), counts.drop_last()) + seq![' '] + entry_text(labels.last(), counts.last())
    }
}

/// The summary line: "none", or each label with its count in label order.
pub open spec fn summary_text(labels: Seq<Seq<char>>, counts: Seq<nat>) -> Seq<char> {
    if labels.len() == 0 {
        "none"@
    } else {
        entries_text(labels, counts)
    }
}

proof fn lemma_count_label_push(obs: Seq<ObservedPacket>, p: ObservedPacket, l: Seq<char>)
    ensures
        count_label(obs.push(p), l) == count_label(obs, l) + if observed_label(p) == l {
            1nat
        } else {
            0nat
        },
{
    assert(obs.push(p).drop_last() =~= obs);
}

proof fn lemma_count_label_absent(obs: Seq<ObservedPacket>, l: Seq<char>)
    requires
        forall|k: int| 0 <= k < obs.len() ==> observed_label(#[trigger] obs[k]) != l,
    ensures
        count_label(obs, l) == 0,
    decreases obs.len(),
{
    if obs.len() > 0 {
        assert(observed_label(obs[obs.len() - 1]) != l);
        assert forall|k: int| 0 <= k < obs.drop_last().len() implies observed_label(#[trigger] obs.drop_last()[k]) != l by {
            assert(obs.drop_last()[k] == obs[k]);
        }
        lemma_count_label_absent(obs.drop_last(), l);
    }
}

pub open spec fn nat_counts(counts: Seq<usize>) -> Seq<nat> {
    counts.map_values(|c: usize| c as nat)
}

pub open spec fn label_views(labels: Seq<Vec<char>>) -> Seq<Seq<char>> {
    labels.map_values(|l: Vec<char>| l@)
}

/// Counts the observations by label: one entry per label, in label order.
pub fn observed_packet_summary(observed: &[ObservedPacket]) -> (r: String)
    ensures
        exists|labels: Seq<Seq<char>>, counts: Seq<nat>| #[trigger] frequencies_of(labels, counts, observed@) && r@ == summary_text(labels, counts),
{
    let mut labels: Vec<Vec<char>> = Vec::new();
    let mut counts: Vec<usize> = Vec::new();
    let mut i: usize = 0;
    assert(label_views(labels@) =~= Seq::<Seq<char>>::empty());
    while i < observed.len()
        invariant
            i <= observed@.len(),
            labels@.len() == counts@.len(),
            forall|j: int| 0 <= j < counts@.len() ==> #[trigger] counts@[j] <= i,
            frequencies_of(label_views(labels@), nat_counts(counts@), observed@.subrange(0, i as int)),
        decreases observed@.len() - i,
    {
        let ghost prefix = observed@.subrange(0, i as int);
        let ghost old_labels = label_views(labels@);
        let ghost old_counts = nat_counts(counts@);
        let text: String = observed_packet_label(&observed[i]);
        let label: Vec<char> = str_chars(text.as_str());
        let ghost l = label@;
        assert(l == observed_label(observed@[i as int]));
        assert(observed@.subrange(0, i + 1) =~= prefix.push(observed@[i as int]));
        let mut p: usize = 0;
        while p < labels.len() && chars_less(&labels[p], &label)
            invariant
                p <= labels@.len(),
                l == label@,
                old_labels == label_views(labels@),
                strictly_sorted(old_labels),
                forall|j: int| 0 <= j < p ==> chars_lt(#[trigger] old_labels[j], l),
            decreases labels@.len() - p,
        {
            p = p + 1;
        }
        if p < labels.len() && chars_equal(&labels[p], &label) {
            let c: usize = counts[p];
            counts.set(p, c + 1);
            proof {
                let nl = label_views(labels@);
                let nc = nat_counts(counts@);
                assert(nl == old_labels);
                assert(nl[p as int] == l);
                assert(nc =~= old_counts.update(p as int, old_counts[p as int] + 1));
                assert forall|j: int| 0 <= j < nl.len() implies #[trigger] nc[j] == count_label(prefix.push(observed@[i as int]), nl[j]) && nc[j] > 0 by {
                    lemma_count_label_push(prefix, observed@[i as int], nl[j]);
                    if j != p {
                        assert(nl[j] != l) by {
                            if j < p {
                                crate::candidates::lemma_chars_lt_irreflexive(l);
                            } else {
                                assert(chars_lt(old_labels[p as int], old_labels[j]));
                                crate::candidates::lemma_chars_lt_irreflexive(l);
                            }
                        }
                    }
                }
                assert forall|k: int| 0 <= k < i + 1 implies nl.contains(#[trigger] observed_label(observed@.subrange(0, i + 1)[k])) by {
                    if k < i {
                        assert(observed@.subrange(0, i + 1)[k] == prefix[k]);
                    } else {
                        assert(nl[p as int] == l);
                    }
                }
            }
        } else {
            proof {
                if p < old_labels.len() {
                    lemma_chars_lt_total(old_labels[p as int], l);
                    assert forall|j: int| p <= j < old_labels.len() implies chars_lt(l, #[trigger] old_labels[j]) by {
                        if j > p {
                            lemma_chars_lt_transitive(l, old_labels[p as int], old_labels[j]);
                        }
                    }
                }
                assert(!old_labels.contains(l)) by {
                    if old_labels.contains(l) {
                        let j = choose|j: int| 0 <= j < old_labels.len() && old_labels[j] == l;
                        crate::candidates::lemma_chars_lt_irreflexive(l);
                        assert(chars_lt(old_labels[j], l) || chars_lt(l, old_labels[j]));
                    }
                }
                assert forall|k: int| 0 <= k < prefix.len() implies observed_label(#[trigger] prefix[k]) != l by {
                    assert(old_labels.contains(observed_label(prefix[k])));
                }
                lemma_count_label_absent(prefix, l);
                lemma_count_label_push(prefix, observed@[i as int], l);
            }
            labels.insert(p, label);
            counts.insert(p, 1);
            proof {
                let nl = label_views(labels@);
                let nc = nat_counts(counts@);
                assert(nl =~= old_labels.insert(p as int, l));
                assert(nc =~= old_counts.insert(p as int, 1nat));
                assert forall|a: int, b: int| 0 <= a < b < nl.len() implies chars_lt(#[trigger] nl[a], #[trigger] nl[b]) by {
                    if b < p {
                    } else if b == p {
                    } else if a < p {
                        assert(nl[b] == old_labels[b - 1]);
                        lemma_chars_lt_transitive(nl[a], l, nl[b]);
                    } else if a == p {
                        assert(nl[b] == old_labels[b - 1]);
                    } else {
                        assert(nl[a] == old_labels[a - 1]);
                        assert(nl[b] == old_labels[b - 1]);
                    }
                }
                assert forall|j: int| 0 <= j < nl.len() implies #[trigger] nc[j] == count_label(prefix.push(observed@[i as int]), nl[j]) && nc[j] > 0 by {
                    if j == p {
                    } else {
                        let oj = if j < p { j } else { j - 1 };
                        assert(nl[j] == old_labels[oj]);
                        assert(nc[j] == old_counts[oj]);
                        lemma_count_label_push(prefix, observed@[i as int], nl[j]);
                        assert(old_labels.contains(old_labels[oj]));
                    }
                }
                assert forall|k: int| 0 <= k < i + 1 implies nl.contains(#[trigger] observed_label(observed@.subrange(0, i + 1)[k])) by {
                    if k < i {
                        assert(observed@.subrange(0, i + 1)[k] == prefix[k]);
                        let x = observed_label(prefix[k]);
                        assert(old_labels.contains(x));
                        let j = choose|j: int| 0 <= j < old_labels.len() && old_labels[j] == x;
                        if j < p {
                            assert(nl[j] == x);
                        } else {
                            assert(nl[j + 1] == x);
                        }
                    } else {
                        assert(nl[p as int] == l);
                    }
                }
            }
        }
        i = i + 1;
    }
    assert(observed@.subrange(0, i as int) =~= observed@);
    let mut out: Vec<char> = Vec::new();
    if labels.len() == 0 {
        out.push('n');
        out.push('o');
        out.push('n');
        out.push('e');
        proof {
            reveal_strlit("none");
        }
        assert(out@ =~= "none"@);
    } else {
        let mut k: usize = 0;
        while k < labels.len()
            invariant
                k <= labels@.len(),
                labels@.len() == counts@.len(),
                out@ == entries_text(label_views(labels@).take(k as int), nat_counts(counts@).take(k as int)),
            decreases labels@.len() - k,
        {
            let ghost before = out@;
            if k > 0 {
                out.push(' ');
            }
            let mut j: usize = 0;
            while j < labels[k].len()
                invariant
                    k < labels@.len(),
                    j <= labels@[k as int]@.len(),
                    out@ == (if k > 0 { before + seq![' '] } else { before }) + labels@[k as int]@.take(j as int),
                decreases labels@[k as int]@.len() - j,
            {
                out.push(labels[k][j]);
                j = j + 1;
                assert(out@ =~= (if k > 0 { before + seq![' '] } else { before }) + labels@[k as int]@.take(j as int));
            }
            out.push('=');
            push_decimal(counts[k] as u64, &mut out);
            proof {
                reveal_strlit("=");
                let lv = label_views(labels@);
                let cv = nat_counts(counts@);
                assert(labels@[k as int]@.take(j as int) =~= lv[k as int]);
                assert(lv.take(k + 1).drop_last() =~= lv.take(k as int));
                assert(cv.take(k + 1).drop_last() =~= cv.take(k as int));
                if k == 0 {
                    assert(before =~= Seq::<char>::empty());
                }
                assert(out@ =~= entries_text(lv.take(k + 1), cv.take(k + 1)));
            }
            k = k + 1;
        }
        assert(label_views(labels@).take(k as int) =~= label_views(labels@));
        assert(nat_counts(counts@).take(k as int) =~= nat_counts(counts@));
    }
    assert(frequencies_of(label_views(labels@), nat_counts(counts@), observed@));
    chars_to_string(out.as_slice())
}

} // verus!
