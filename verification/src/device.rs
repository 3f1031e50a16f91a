//! The device facade's state machine: the resolved device name, the
//! last-known volume snapshot and the last-known mute flag of one sound
//! device, together with the transitions the synchronous calls perform on
//! it. Mutating calls update this local state optimistically and hand the
//! caller the protocol request to enqueue; queries answer from it.

use vstd::prelude::*;

use crate::cache::StateCache;
use crate::request::ClientRequest;
use crate::volume::{spec_avg, spec_clamped, upper_limit, ChannelLevels};

verus! {

/// Why a facade call failed.
#[derive(Clone, Copy, PartialEq, Eq, Structural, Debug)]
pub enum AudioError {
    /// Bootstrap never reached a ready protocol context.
    ConnectionError,
    /// The dispatch worker is gone; its request queue is closed.
    DispatchUnavailable,
    /// A relative volume change was asked for before any volume snapshot
    /// had been read.
    StaleState,
}

/// The facade state as contracts see it.
pub ghost struct DeviceView {
    /// The concrete device name, if one was resolved at construction.
    pub name: Option<Seq<char>>,
    /// The last-known channel levels, absent until the first refresh.
    pub volume: Option<Seq<u32>>,
    /// The arithmetic mean of the last-known levels (zero before the
    /// first refresh).
    pub volume_avg: int,
    /// The last-known mute flag.
    pub muted: bool,
}

/// The name used for every per-sink request: the concrete device name
/// when one is known, else the current default-sink name.
pub open spec fn spec_resolved_name(name: Option<Seq<char>>, default_sink: Seq<char>) -> Seq<
    char,
> {
    match name {
        Some(n) => n,
        None => default_sink,
    }
}

/// Every channel level stepped by `step` and clamped to the cap.
pub open spec fn spec_stepped(levels: Seq<u32>, step: int, cap: Option<u32>) -> Seq<u32> {
    Seq::new(levels.len(), |i: int| spec_clamped(levels[i], step, upper_limit(cap)) as u32)
}

/// The facade state after a volume snapshot is recorded.
pub open spec fn spec_update_volume(v: DeviceView, levels: Seq<u32>) -> DeviceView {
    DeviceView { volume: Some(levels), volume_avg: spec_avg(levels), ..v }
}

/// The facade state after the mute flag is set.
pub open spec fn spec_set_muted(v: DeviceView, muted: bool) -> DeviceView {
    DeviceView { muted, ..v }
}

/// The facade state after a relative volume change (defined only when a
/// snapshot exists).
pub open spec fn spec_add_volume(v: DeviceView, step: int, cap: Option<u32>) -> DeviceView
    recommends
        v.volume is Some,
{
    spec_update_volume(v, spec_stepped(v.volume->0, step, cap))
}

/// One sound device as seen by synchronous callers.
pub struct PulseAudioSoundDevice {
    name: Option<String>,
    volume: Option<ChannelLevels>,
    volume_avg: u32,
    muted: bool,
}

impl View for PulseAudioSoundDevice {
    type V = DeviceView;

    closed spec fn view(&self) -> DeviceView {
        DeviceView {
            name: match self.name {
                Some(n) => Some(n@),
                None => None,
            },
            volume: match self.volume {
                Some(v) => Some(v@),
                None => None,
            },
            volume_avg: self.volume_avg as int,
            muted: self.muted,
        }
    }
}

impl PulseAudioSoundDevice {
    /// The cached average is always the mean of the cached levels, and
    /// the levels, when present, are ones the protocol can represent.
    pub open spec fn wf(&self) -> bool {
        match self@.volume {
            Some(l) => ChannelLevels::acceptable(l) && self@.volume_avg == spec_avg(l),
            None => self@.volume_avg == 0,
        }
    }

    /// A fresh facade: no snapshot yet, not muted, with the concrete
    /// device name when the caller resolved one.
    pub fn new(name: Option<String>) -> (d: PulseAudioSoundDevice)
        ensures
            d.wf(),
            d@.name == crate::cache::opt_name_view(name),
            d@.volume is None,
            d@.volume_avg == 0,
            !d@.muted,
    {
        PulseAudioSoundDevice { name, volume: None, volume_avg: 0, muted: false }
    }

    /// The name used for per-sink requests, falling back to the given
    /// default-sink name when no concrete name was resolved.
    pub fn name(&self, default_sink: &String) -> (r: String)
        ensures
            r@ == spec_resolved_name(self@.name, default_sink@),
    {
        match &self.name {
            Some(n) => n.clone(),
            None => default_sink.clone(),
        }
    }

    /// Records a volume snapshot and its average.
    pub fn update_volume(&mut self, volume: ChannelLevels)
        requires
            volume.wf(),
        ensures
            final(self).wf(),
            final(self)@ == spec_update_volume(old(self)@, volume@),
    {
        let avg = volume.avg();
        self.volume_avg = avg;
        self.volume = Some(volume);
    }

    /// The last cached average channel level, in raw protocol units.
    pub fn volume(&self) -> (r: u32)
        ensures
            r == self@.volume_avg,
    {
        self.volume_avg
    }

    /// The last cached mute flag.
    pub fn muted(&self) -> (r: bool)
        ensures
            r == self@.muted,
    {
        self.muted
    }

    /// Refreshes the local snapshot from the shared cache: if the cache
    /// holds an entry for this device's resolved name, its levels and
    /// mute flag are copied in wholesale; otherwise nothing changes.
    pub fn get_info(&mut self, cache: &StateCache)
        requires
            old(self).wf(),
            cache.wf(),
        ensures
            final(self).wf(),
            match cache.spec_get(
                spec_resolved_name(old(self)@.name, cache.spec_default()),
            ) {
                Some(info) => final(self)@ == spec_set_muted(
                    spec_update_volume(old(self)@, info.volume@),
                    info.mute,
                ),
                None => *final(self) == *old(self),
            },
    {
        let default_sink = cache.default_sink();
        let nm = self.name(&default_sink);
        match cache.get_sink(&nm) {
            None => {},
            Some(info) => {
                let levels = info.volume.duplicate();
                let mute = info.mute;
                self.update_volume(levels);
                self.muted = mute;
            },
        }
    }

    /// Applies a relative step to the cached levels, clamping each new
    /// level to `[0, upper_limit(cap)]`, records the result locally, and
    /// returns the set-volume request to enqueue. Fails with `StaleState`,
    /// changing nothing, exactly when no snapshot has been read yet.
    pub fn add_volume(&mut self, step: i32, cap: Option<u32>, default_sink: &String) -> (r:
        Result<ClientRequest, AudioError>)
        requires
            old(self).wf(),
        ensures
            final(self).wf(),
            match r {
                Ok(req) => {
                    &&& old(self)@.volume is Some
                    &&& final(self)@ == spec_add_volume(old(self)@, step as int, cap)
                    &&& req matches ClientRequest::SetSinkVolumeByName(n, lv)
                        && n@ == spec_resolved_name(old(self)@.name, default_sink@)
                        && lv@ == spec_stepped(old(self)@.volume->0, step as int, cap)
                },
                Err(e) => {
                    &&& old(self)@.volume is None
                    &&& e == AudioError::StaleState
                    &&& *final(self) == *old(self)
                },
            },
    {
        let cur = match &self.volume {
            Some(v) => v.duplicate(),
            None => {
                return Err(AudioError::StaleState);
            },
        };
        let stepped = cur.apply_step(step, cap);
        proof {
            assert(stepped@ =~= spec_stepped(old(self)@.volume->0, step as int, cap));
        }
        let nm = self.name(default_sink);
        let for_request = stepped.duplicate();
        self.update_volume(stepped);
        Ok(ClientRequest::SetSinkVolumeByName(nm, for_request))
    }

    /// Sets the cached mute flag optimistically and returns the set-mute
    /// request to enqueue; it does not wait for a re-read.
    pub fn set_muted(&mut self, muted: bool, default_sink: &String) -> (r: ClientRequest)
        ensures
            final(self)@ == spec_set_muted(old(self)@, muted),
            old(self).wf() ==> final(self).wf(),
            r matches ClientRequest::SetSinkMuteByName(n, m)
                && n@ == spec_resolved_name(old(self)@.name, default_sink@) && m == muted,
    {
        self.muted = muted;
        let nm = self.name(default_sink);
        ClientRequest::SetSinkMuteByName(nm, muted)
    }
}

/// Setting the mute flag twice in a row leaves the flag the second call
/// asked for: setting it and clearing it, with no intervening event,
/// leaves the device unmuted, whatever its earlier state.
pub proof fn lemma_mute_round_trip(v: DeviceView)
    ensures
        !spec_set_muted(spec_set_muted(v, true), false).muted,
        forall|a: bool, b: bool| #[trigger] spec_set_muted(spec_set_muted(v, a), b).muted == b,
{
}

/// Single-caller read-after-write: a query issued after a mutating call
/// observes exactly what that call wrote — the mute flag it set, or the
/// levels and average it recorded.
pub proof fn lemma_read_after_write(v: DeviceView, m: bool, levels: Seq<u32>)
    ensures
        spec_set_muted(v, m).muted == m,
        spec_update_volume(v, levels).volume == Some(levels),
        spec_update_volume(v, levels).volume_avg == spec_avg(levels),
{
}

/// Stepping the cached volume by `step` and then by `-step`, when neither
/// application hits a clamp boundary, returns the snapshot to its
/// original levels exactly.
pub proof fn lemma_add_volume_round_trip(v: DeviceView, step: int, cap: Option<u32>)
    requires
        v.volume matches Some(l),
        forall|i: int| 0 <= i < v.volume->0.len() ==> v.volume->0[i] <= upper_limit(cap),
        forall|i: int| 0 <= i < v.volume->0.len()
            ==> 0 <= #[trigger] (v.volume->0[i] + step) <= upper_limit(cap),
    ensures
        spec_add_volume(spec_add_volume(v, step, cap), -step, cap).volume == v.volume,
{
    let l = v.volume->0;
    let once = spec_stepped(l, step, cap);
    let twice = spec_stepped(once, -step, cap);
    crate::volume::lemma_step_round_trip(l, step, cap);
    assert forall|i: int| 0 <= i < l.len() implies twice[i] == l[i] by {
        assert(once[i] == spec_clamped(l[i], step, upper_limit(cap)) as u32);
        assert(0 <= l[i] + step <= upper_limit(cap));
    }
    assert(twice =~= l);
}

} // verus!
