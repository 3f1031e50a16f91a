//! The shared state cache: the current default-sink name plus a mapping
//! from device name to the last sink snapshot the server reported, and the
//! two callbacks that are the only code allowed to mutate it.
//!
//! Entries are replaced wholesale, never partially mutated, and device
//! names are unique keys.

use vstd::prelude::*;

use crate::volume::ChannelLevels;

verus! {

/// The server-recognized alias naming the default sink before the first
/// successful server-info reply resolves a concrete name.
pub open spec fn spec_default_alias() -> Seq<char> {
    "@DEFAULT_SINK@"@
}

/// The name view of an optional owned name.
pub open spec fn opt_name_view(o: Option<String>) -> Option<Seq<char>> {
    match o {
        Some(n) => Some(n@),
        None => None,
    }
}

/// The default-sink name after a server-info reply: the reported name if
/// the server gave one, the previous name otherwise.
pub open spec fn default_after_server_reply(
    prev: Seq<char>,
    reported: Option<Seq<char>>,
) -> Seq<char> {
    match reported {
        Some(n) => n,
        None => prev,
    }
}

/// Immutable snapshot of one sink's state, copied out of the cache for
/// consumers.
pub struct SinkInfo {
    pub volume: ChannelLevels,
    pub mute: bool,
}

impl SinkInfo {
    pub open spec fn wf(&self) -> bool {
        self.volume.wf()
    }
}

struct SinkEntry {
    name: String,
    info: SinkInfo,
}

/// One item of a sink-info reply: the server's name for the sink (absent
/// on some anonymous devices), its channel levels and its mute flag.
pub struct SinkItem {
    pub name: Option<String>,
    pub volume: ChannelLevels,
    pub mute: bool,
}

impl SinkItem {
    pub open spec fn wf(&self) -> bool {
        self.volume.wf()
    }
}

/// The tri-state a sink-info callback receives from the protocol: one
/// item of the listing, the end of the listing, or a listing error.
pub enum SinkInfoReply {
    Item(SinkItem),
    End,
    Error,
}

impl SinkInfoReply {
    pub open spec fn wf(&self) -> bool {
        match self {
            SinkInfoReply::Item(item) => item.wf(),
            _ => true,
        }
    }
}

spec fn seq_find(s: Seq<SinkEntry>, name: Seq<char>) -> Option<SinkInfo>
    decreases s.len(),
{
    if s.len() == 0 {
        None
    } else if s.last().name@ == name {
        Some(s.last().info)
    } else {
        seq_find(s.drop_last(), name)
    }
}

spec fn unique_names(s: Seq<SinkEntry>) -> bool {
    forall|i: int, j: int| 0 <= i < j < s.len() ==> s[i].name@ != s[j].name@
}

proof fn lemma_find_at(s: Seq<SinkEntry>, name: Seq<char>, i: int)
    requires
        unique_names(s),
        0 <= i < s.len(),
        s[i].name@ == name,
    ensures
        seq_find(s, name) == Some(s[i].info),
    decreases s.len(),
{
    if i < s.len() - 1 {
        assert(s.last().name@ != name);
        assert(s.drop_last()[i] == s[i]);
        lemma_find_at(s.drop_last(), name, i);
    }
}

proof fn lemma_find_absent(s: Seq<SinkEntry>, name: Seq<char>)
    requires
        forall|j: int| 0 <= j < s.len() ==> s[j].name@ != name,
    ensures
        seq_find(s, name) is None,
    decreases s.len(),
{
    if s.len() > 0 {
        lemma_find_absent(s.drop_last(), name);
    }
}

proof fn lemma_find_update(s: Seq<SinkEntry>, i: int, e: SinkEntry, k: Seq<char>)
    requires
        unique_names(s),
        0 <= i < s.len(),
        s[i].name@ == e.name@,
    ensures
        seq_find(s.update(i, e), k) == if k == e.name@ {
            Some(e.info)
        } else {
            seq_find(s, k)
        },
    decreases s.len(),
{
    let t = s.update(i, e);
    if i == s.len() - 1 {
        assert(t.last() == e);
        assert(t.drop_last() =~= s.drop_last());
        if k != e.name@ {
            assert(s.last().name@ == e.name@);
        }
    } else {
        assert(t.last() == s.last());
        assert(s.last().name@ != e.name@);
        assert(t.drop_last() =~= s.drop_last().update(i, e));
        assert(forall|a: int| 0 <= a < s.len() - 1 ==> s.drop_last()[a] == s[a]);
        lemma_find_update(s.drop_last(), i, e, k);
    }
}

proof fn lemma_find_push(s: Seq<SinkEntry>, e: SinkEntry, k: Seq<char>)
    ensures
        seq_find(s.push(e), k) == if k == e.name@ {
            Some(e.info)
        } else {
            seq_find(s, k)
        },
{
    let t = s.push(e);
    assert(t.last() == e);
    assert(t.drop_last() =~= s);
}

/// A mutex-guarded copy of this cache is shared by every worker; all the
/// code that reads or writes it is right here.
pub struct StateCache {
    default_sink: String,
    sinks: Vec<SinkEntry>,
}

impl StateCache {
    /// Device names are unique keys and every stored snapshot is
    /// well-formed.
    pub closed spec fn wf(&self) -> bool {
        &&& unique_names(self.sinks@)
        &&& forall|i: int| 0 <= i < self.sinks@.len() ==> (#[trigger] self.sinks@[i]).info.wf()
    }

    /// The current default-sink name.
    pub closed spec fn spec_default(&self) -> Seq<char> {
        self.default_sink@
    }

    /// The snapshot stored for a device name, if any.
    pub closed spec fn spec_get(&self, name: Seq<char>) -> Option<SinkInfo> {
        seq_find(self.sinks@, name)
    }

    /// A fresh cache: no sinks, and the default-sink alias standing in for
    /// the yet-unknown default device.
    pub fn new() -> (c: StateCache)
        ensures
            c.wf(),
            c.spec_default() == spec_default_alias(),
            forall|n: Seq<char>| c.spec_get(n) is None,
    {
        StateCache { default_sink: "@DEFAULT_SINK@".to_owned(), sinks: Vec::new() }
    }

    /// The current default-sink name, as an owned string.
    pub fn default_sink(&self) -> (r: String)
        ensures
            r@ == self.spec_default(),
    {
        self.default_sink.clone()
    }

    /// Borrows the snapshot stored for `name`, if one exists.
    pub fn get_sink(&self, name: &String) -> (r: Option<&SinkInfo>)
        requires
            self.wf(),
        ensures
            match r {
                Some(info) => self.spec_get(name@) == Some(*info) && info.wf(),
                None => self.spec_get(name@) is None,
            },
    {
        let n = self.sinks.len();
        let mut i: usize = 0;
        while i < n
            invariant
                self.wf(),
                n == self.sinks@.len(),
                0 <= i <= n,
                forall|j: int| 0 <= j < i ==> (#[trigger] self.sinks@[j]).name@ != name@,
            decreases n - i,
        {
            if self.sinks[i].name == *name {
                proof {
                    lemma_find_at(self.sinks@, name@, i as int);
                }
                return Some(&self.sinks[i].info);
            }
            i += 1;
        }
        proof {
            lemma_find_absent(self.sinks@, name@);
        }
        None
    }

    /// Records the server-info reply: a reported default-sink name
    /// replaces the current one; a reply without a name changes nothing.
    pub fn server_info_callback(&mut self, default_sink_name: Option<String>)
        requires
            old(self).wf(),
        ensures
            final(self).wf(),
            final(self).spec_default() == default_after_server_reply(
                old(self).spec_default(),
                opt_name_view(default_sink_name),
            ),
            forall|k: Seq<char>| final(self).spec_get(k) == old(self).spec_get(k),
    {
        match default_sink_name {
            Some(n) => {
                self.default_sink = n;
            },
            None => {},
        }
    }

    /// Replaces (or creates) the snapshot stored for `name`, leaving every
    /// other entry and the default-sink name unchanged.
    fn insert_sink(&mut self, name: String, info: SinkInfo)
        requires
            old(self).wf(),
            info.wf(),
        ensures
            final(self).wf(),
            final(self).spec_default() == old(self).spec_default(),
            final(self).spec_get(name@) == Some(info),
            forall|k: Seq<char>| k != name@ ==> final(self).spec_get(k) == old(self).spec_get(k),
    {
        let ghost info0 = info;
        let ghost nv = name@;
        let n = self.sinks.len();
        let mut i: usize = 0;
        while i < n
            invariant
                self.wf(),
                self == old(self),
                nv == name@,
                info0 == info,
                info0.wf(),
                n == self.sinks@.len(),
                0 <= i <= n,
                forall|j: int| 0 <= j < i ==> (#[trigger] self.sinks@[j]).name@ != nv,
            decreases n - i,
        {
            if self.sinks[i].name == name {
                let ghost pre = self.sinks@;
                let entry = SinkEntry { name, info };
                let ghost ge = entry;
                self.sinks.set(i, entry);
                proof {
                    let s2 = self.sinks@;
                    assert(s2 == pre.update(i as int, ge));
                    assert(pre[i as int].name@ == nv);
                    assert forall|k: Seq<char>| true implies seq_find(s2, k) == (if k == nv {
                        Some(ge.info)
                    } else {
                        seq_find(pre, k)
                    }) by {
                        lemma_find_update(pre, i as int, ge, k);
                    }
                    assert forall|a: int, b: int| 0 <= a < b < s2.len() implies s2[a].name@
                        != s2[b].name@ by {
                        assert(pre[a].name@ != pre[b].name@);
                    }
                    assert forall|a: int| 0 <= a < s2.len() implies (#[trigger] s2[a]).info.wf()
                        by {
                        if a != i {
                            assert(s2[a] == pre[a]);
                            assert(pre[a].info.wf());
                        } else {
                            assert(s2[a] == ge);
                            assert(ge.info == info0);
                            assert(info0.wf());
                        }
                    }
                }
                return;
            }
            i += 1;
        }
        let ghost pre = self.sinks@;
        let entry = SinkEntry { name, info };
        let ghost ge = entry;
        self.sinks.push(entry);
        proof {
            let s2 = self.sinks@;
            assert(s2 == pre.push(ge));
            assert forall|k: Seq<char>| true implies seq_find(s2, k) == (if k == nv {
                Some(ge.info)
            } else {
                seq_find(pre, k)
            }) by {
                lemma_find_push(pre, ge, k);
            }
            assert forall|a: int, b: int| 0 <= a < b < s2.len() implies s2[a].name@ != s2[b].name@
                by {
                if b < pre.len() {
                    assert(pre[a].name@ != pre[b].name@);
                } else {
                    assert(s2[b].name@ == nv);
                    assert(pre[a].name@ != nv);
                }
            }
            assert forall|a: int| 0 <= a < s2.len() implies (#[trigger] s2[a]).info.wf() by {
                if a < pre.len() {
                    assert(s2[a] == pre[a]);
                }
            }
        }
    }

    /// Records one sink-info reply. Only a listed item that carries a name
    /// touches the cache: its snapshot replaces the entry for that name
    /// wholesale. The result says whether the cache changed, so the caller
    /// can fire a change listener.
    pub fn sink_info_callback(&mut self, reply: SinkInfoReply) -> (updated: bool)
        requires
            old(self).wf(),
            reply.wf(),
        ensures
            final(self).wf(),
            final(self).spec_default() == old(self).spec_default(),
            match reply {
                SinkInfoReply::Item(item) => match item.name {
                    Some(n) => {
                        &&& updated
                        &&& final(self).spec_get(n@) matches Some(info)
                            && info.volume@ == item.volume@ && info.mute == item.mute
                        &&& forall|k: Seq<char>| k != n@
                            ==> final(self).spec_get(k) == old(self).spec_get(k)
                    },
                    None => !updated && *final(self) == *old(self),
                },
                _ => !updated && *final(self) == *old(self),
            },
    {
        match reply {
            SinkInfoReply::Item(item) => {
                match item.name {
                    Some(n) => {
                        let info = SinkInfo { volume: item.volume, mute: item.mute };
                        self.insert_sink(n, info);
                        true
                    },
                    None => false,
                }
            },
            SinkInfoReply::End => false,
            SinkInfoReply::Error => false,
        }
    }
}

} // verus!
