//! The open project: its location and its audio packs.
//!
//! Packs are kept sorted by name.  Opening, saving and choosing projects
//! touch the filesystem and live at the application edge; the bookkeeping
//! they rely on lives here.

use vstd::prelude::*;
use vstd::string::StringExecFns;
use crate::awc::{AwcPack, AwcStream, AwcXML, stream_built};
use crate::lexord::{name_le, str_le, lemma_lex_le_total, lemma_lex_le_trans};
use crate::paths::ProjPath;
use crate::xml;

verus! {

/// A project on disk: where it lives and the audio packs it holds.
#[derive(Debug)]
pub struct Project {
    /// The project directory.
    pub location: ProjPath,
    /// The audio packs, sorted by name.
    pub awc_info: Vec<AwcPack>,
}

/// The packs stand in non-decreasing name order.
pub open spec fn sorted_by_name(packs: Seq<AwcPack>) -> bool {
    forall|i: int, j: int| 0 <= i < j < packs.len() ==> name_le(
        (#[trigger] packs[i]).name@,
        (#[trigger] packs[j]).name@,
    )
}

/// Inserting an element anywhere in a sequence adds exactly it to the
/// sequence's multiset of elements.
proof fn lemma_to_multiset_insert<A>(s: Seq<A>, i: int, v: A)
    requires
        0 <= i <= s.len(),
    ensures
        s.insert(i, v).to_multiset() == s.to_multiset().insert(v),
{
    broadcast use vstd::seq_lib::group_to_multiset_ensures;

    let s2 = s.insert(i, v);
    assert(s2.remove(i) =~= s);
    assert(s2[i] == v);
    assert(s2.contains(v));
    assert(s2.to_multiset().count(v) > 0);
    assert(s.to_multiset() =~= s2.to_multiset().remove(v));
    assert(s2.to_multiset() =~= s.to_multiset().insert(v));
}

/// Sorts packs by name: the result is in name order and holds exactly the
/// packs it was given.
pub fn sort_packs_by_name(v: &mut Vec<AwcPack>)
    ensures
        final(v)@.len() == old(v)@.len(),
        final(v)@.to_multiset() == old(v)@.to_multiset(),
        sorted_by_name(final(v)@),
{
    if v.len() <= 1 {
        return;
    }
    let mut i: usize = 1;
    while i < v.len()
        invariant
            1 <= i <= v@.len(),
            v@.len() == old(v)@.len(),
            v@.to_multiset() == old(v)@.to_multiset(),
            sorted_by_name(v@.subrange(0, i as int)),
        decreases v@.len() - i,
    {
        let ghost pre = v@;
        let x: AwcPack = v.remove(i);
        proof {
            assert(v@.subrange(0, i as int) =~= pre.subrange(0, i as int));
        }
        let mut pos: usize = i;
        loop
            invariant
                pos <= i,
                i < pre.len(),
                v@ == pre.remove(i as int),
                v@.len() == pre.len() - 1,
                x == pre[i as int],
                sorted_by_name(v@.subrange(0, i as int)),
                forall|k: int| pos as int <= k < i as int ==> !name_le(
                    (#[trigger] v@[k]).name@,
                    x.name@,
                ),
            ensures
                pos <= i,
                v@ == pre.remove(i as int),
                pos as int == 0 || name_le(v@[pos as int - 1].name@, x.name@),
                forall|k: int| pos as int <= k < i as int ==> !name_le(
                    (#[trigger] v@[k]).name@,
                    x.name@,
                ),
            decreases pos,
        {
            if pos == 0 {
                break;
            }
            let le: bool = str_le(v[pos - 1].name.as_str(), x.name.as_str());
            if le {
                break;
            }
            proof {
                assert(v@.subrange(0, i as int)[pos as int - 1] == v@[pos as int - 1]);
            }
            pos = pos - 1;
        }
        let ghost mid = v@;
        v.insert(pos, x);
        proof {
            broadcast use vstd::seq_lib::group_to_multiset_ensures;

            lemma_to_multiset_insert(mid, pos as int, x);
            assert(mid.to_multiset() =~= pre.to_multiset().remove(pre[i as int]));
            assert(pre.contains(pre[i as int]));
            assert(pre.to_multiset().count(pre[i as int]) > 0);
            assert(v@.to_multiset() =~= pre.to_multiset());

            let p = pos as int;
            let n = i as int;
            let ghost sorted_prefix = mid.subrange(0, n);
            assert forall|a: int, b: int| 0 <= a < b < n + 1 implies name_le(
                (#[trigger] v@[a]).name@,
                (#[trigger] v@[b]).name@,
            ) by {
                assert(forall|k: int| 0 <= k < p ==> v@[k] == mid[k]);
                assert(v@[p] == x);
                assert(forall|k: int| p < k <= n ==> v@[k] == mid[k - 1]);
                assert(forall|k: int| 0 <= k < n ==> sorted_prefix[k] == mid[k]);
                if b < p {
                    assert(name_le(sorted_prefix[a].name@, sorted_prefix[b].name@));
                } else if b == p {
                    if a == p - 1 {
                        assert(name_le(v@[a].name@, x.name@));
                    } else {
                        assert(name_le(sorted_prefix[a].name@, sorted_prefix[p - 1].name@));
                        assert(name_le(mid[p - 1].name@, x.name@));
                        lemma_lex_le_trans(
                            vstd::utf8::encode_utf8(mid[a].name@),
                            vstd::utf8::encode_utf8(mid[p - 1].name@),
                            vstd::utf8::encode_utf8(x.name@),
                        );
                    }
                } else if a == p {
                    assert(!name_le(mid[b - 1].name@, x.name@));
                    lemma_lex_le_total(
                        vstd::utf8::encode_utf8(x.name@),
                        vstd::utf8::encode_utf8(mid[b - 1].name@),
                    );
                } else if a < p {
                    assert(name_le(sorted_prefix[a].name@, sorted_prefix[b - 1].name@));
                } else {
                    assert(name_le(sorted_prefix[a - 1].name@, sorted_prefix[b - 1].name@));
                }
            }
            assert forall|a: int, b: int| 0 <= a < b < (i as int) + 1 implies name_le(
                (#[trigger] v@.subrange(0, i as int + 1)[a]).name@,
                (#[trigger] v@.subrange(0, i as int + 1)[b]).name@,
            ) by {
                assert(v@.subrange(0, i as int + 1)[a] == v@[a]);
                assert(v@.subrange(0, i as int + 1)[b] == v@[b]);
            }
        }
        i = i + 1;
    }
    proof {
        assert(v@.subrange(0, v@.len() as int) =~= v@);
    }
}

impl Project {
    /// Mutable access to the pack list.
    pub fn get_mut_entries_slice(&mut self) -> (r: &mut Vec<AwcPack>)
        ensures
            *r == old(self).awc_info,
            final(self).awc_info == *final(r),
            final(self).location == old(self).location,
    {
        &mut self.awc_info
    }

    /// Adds a pack and restores name order.  The new list holds exactly
    /// the old packs plus the new one.
    pub fn add_awc_pack(&mut self, pack: AwcPack)
        ensures
            final(self).awc_info@.len() == old(self).awc_info@.len() + 1,
            final(self).awc_info@.to_multiset() == old(self).awc_info@.to_multiset().insert(pack),
            sorted_by_name(final(self).awc_info@),
            final(self).location == old(self).location,
    {
        proof {
            broadcast use vstd::seq_lib::group_to_multiset_ensures;
        }
        self.awc_info.push(pack);
        sort_packs_by_name(&mut self.awc_info);
    }

    /// Assembles the container descriptor of one pack: version 1, chunk
    /// indices on, and for every entry its two lane streams in order.
    /// Only simple (not-streamed) packs can be generated.
    pub fn build_awc_xml(&self, awc_pack_index: usize) -> (r: AwcXML)
        requires
            awc_pack_index < self.awc_info@.len(),
            self.awc_info@[awc_pack_index as int].pack_type is Simple,
            forall|i: int| 0 <= i < self.awc_info@[awc_pack_index as int].entries@.len() ==> 0 <= (
            #[trigger] self.awc_info@[awc_pack_index as int].entries@[i]).samples,
        ensures
            r.version.value == 1,
            r.chunk_indices.value@ == "True"@,
            r.streams.item@.len() == 2 * self.awc_info@[awc_pack_index as int].entries@.len(),
            forall|k: int| 0 <= k < r.streams.item@.len() ==> stream_for_entry(
                #[trigger] r.streams.item@[k],
                self.awc_info@[awc_pack_index as int].entries@[k / 2],
                k % 2 == 1,
            ),
    {
        let pack: &AwcPack = &self.awc_info[awc_pack_index];
        let ghost entries0 = self.awc_info@[awc_pack_index as int].entries@;
        let mut streams: Vec<AwcStream> = Vec::new();
        let n: usize = pack.entries.len();
        let mut i: usize = 0;
        while i < n
            invariant
                i <= n,
                n == entries0.len(),
                pack.entries@ == entries0,
                forall|t: int| 0 <= t < entries0.len() ==> 0 <= (#[trigger] entries0[t]).samples,
                streams@.len() == 2 * i,
                forall|k: int| 0 <= k < streams@.len() ==> stream_for_entry(
                    #[trigger] streams@[k],
                    entries0[k / 2],
                    k % 2 == 1,
                ),
            decreases n - i,
        {
            let mut entry_streams: Vec<AwcStream> = pack.entries[i].to_xml_stream();
            let ghost before = streams@;
            streams.append(&mut entry_streams);
            proof {
                assert forall|k: int| 0 <= k < streams@.len() implies stream_for_entry(
                    #[trigger] streams@[k],
                    entries0[k / 2],
                    k % 2 == 1,
                ) by {
                    if k < before.len() {
                        assert(streams@[k] == before[k]);
                    } else if k == 2 * (i as int) {
                        assert(k / 2 == i as int && k % 2 == 0);
                    } else {
                        assert(k == 2 * (i as int) + 1);
                        assert(k / 2 == i as int && k % 2 == 1);
                    }
                }
            }
            i = i + 1;
        }
        AwcXML {
            version: xml::Value::new(1),
            chunk_indices: xml::Value::new(String::from_str("True")),
            streams: xml::ItemList { item: streams },
        }
    }
}

/// The stream at an even position describes its entry's left lane, the
/// one at an odd position the right lane.
pub open spec fn stream_for_entry(s: AwcStream, e: crate::awc::AwcEntry, right: bool) -> bool {
    if right {
        stream_built(s, e.name@ + "_right"@, (e.name@ + "_right"@) + ".wav"@, e.samples as u64,
            e.sample_rate)
    } else {
        stream_built(s, e.name@ + "_left"@, (e.name@ + "_left"@) + ".wav"@, e.samples as u64,
            e.sample_rate)
    }
}

} // verus!
