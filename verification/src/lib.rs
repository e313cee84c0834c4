//! Channel-allocation state for MIDI Polyphonic Expression (MPE).
//!
//! MPE splits the 16-channel MIDI 1.0 address space into up to two zones.
//! The Lower zone is managed from channel 0 and grows upward; the Upper zone
//! is managed from channel 15 and grows downward.  Each enabled zone owns its
//! manager channel plus a contiguous run of member channels, and the two runs
//! may never overlap.

use core::ops::Range;
use vstd::prelude::*;
use vstd::slice::slice_subrange;

pub mod note_collection;

use crate::note_collection::{DefaultNoteCollection, NoteCollection};

verus! {

/// MIDI channel mode messages, as numbered by the MIDI 1.0 specification.
pub enum Mode {
    Mode1,
    Mode2,
    // Poly Mode
    Mode3,
    // Mono Mode
    Mode4,
    Mode5,
}

/// One of the two fixed MPE zones.
#[derive(Clone, Copy)]
pub enum Zone {
    Lower,
    Upper,
}

impl Zone {
    /// The manager channel index of a zone: 0 for Lower, 15 for Upper.
    pub open spec fn spec_manager_channel(self) -> int {
        match self {
            Zone::Lower => 0,
            Zone::Upper => 15,
        }
    }

    /// The opposite zone.
    pub open spec fn spec_other(self) -> Zone {
        match self {
            Zone::Lower => Zone::Upper,
            Zone::Upper => Zone::Lower,
        }
    }

    /// The zone managed from the given channel index, if any.
    pub fn new(manager_channel: u8) -> (r: Option<Self>)
        ensures
            r == (if manager_channel == 0 {
                Some(Zone::Lower)
            } else if manager_channel == 15 {
                Some(Zone::Upper)
            } else {
                None::<Zone>
            }),
    {
        match manager_channel {
            0 => Some(Self::Lower),
            15 => Some(Self::Upper),
            _ => None,
        }
    }

    /// The opposite zone: Lower for Upper and Upper for Lower.
    pub fn get_other(&self) -> (r: Self)
        ensures
            r == self.spec_other(),
    {
        match self {
            Self::Lower => Self::Upper,
            Self::Upper => Self::Lower,
        }
    }

    /// The zone managed from the given channel index, if any.
    pub fn get_by_manager(&self, manager: u8) -> (r: Option<Zone>)
        ensures
            r == (if manager == 0 {
                Some(Zone::Lower)
            } else if manager == 15 {
                Some(Zone::Upper)
            } else {
                None::<Zone>
            }),
    {
        match manager {
            0 => Some(Self::Lower),
            15 => Some(Self::Upper),
            _ => None,
        }
    }

    /// The manager channel index of this zone.
    pub fn manager_channel(&self) -> (r: u8)
        ensures
            r == self.spec_manager_channel(),
    {
        match self {
            Self::Lower => 0,
            Self::Upper => 15,
        }
    }
}

/// The role a physical MIDI channel holds at a given time.
pub enum ChannelType {
    Manager,
    Member,
    Conventional,
}

/// The mutable per-channel expression state.
///
/// The continuous controllers (pitch bend, channel pressure, timbre) are held
/// as raw signed controller values; all of them reset to 0 whenever a channel
/// changes role.  The pitch-bend sensitivity is a semitone count: channels
/// default to 2 semitones, while a freshly created member channel starts at
/// the MPE default of 48 semitones.
#[derive(Clone)]
pub struct MIDIChannel<C = DefaultNoteCollection> where C: NoteCollection {
    pub pitch_bend_sensitivity: u8,
    pub pitch_bend: i32,
    pub channel_pressure: i32,
    pub timbre_control: i32,
    pub notes: C,
}

impl<C> MIDIChannel<C> where C: NoteCollection {
    /// A freshly constructed channel state: the given sensitivity, all
    /// continuous controllers at 0, and no active notes.
    pub open spec fn is_fresh(self, sensitivity: u8) -> bool {
        &&& self.pitch_bend_sensitivity == sensitivity
        &&& self.pitch_bend == 0
        &&& self.channel_pressure == 0
        &&& self.timbre_control == 0
        &&& self.notes.spec_is_empty()
    }

    /// Constructs the state for a channel that newly takes the given role.
    pub fn new(channel_type: ChannelType) -> (r: Self)
        ensures
            r.is_fresh(
                match channel_type {
                    ChannelType::Member => 48,
                    _ => 2,
                },
            ),
    {
        match channel_type {
            ChannelType::Member => Self {
                pitch_bend_sensitivity: 48,
                pitch_bend: 0,
                channel_pressure: 0,
                timbre_control: 0,
                notes: C::new(),
            },
            _ => Self::default(),
        }
    }

    /// Returns the current pitch-bend sensitivity, in semitones.
    pub fn pitch_bend_sensitivity(&self) -> (r: u8)
        ensures
            r == self.pitch_bend_sensitivity,
    {
        self.pitch_bend_sensitivity
    }
}

impl<C> Default for MIDIChannel<C> where C: NoteCollection {
    /// The state of a plain MIDI 1.0 channel: sensitivity 2, controllers 0,
    /// no notes.
    fn default() -> (r: Self)
        ensures
            r.is_fresh(2),
    {
        Self {
            pitch_bend_sensitivity: 2,
            pitch_bend: 0,
            channel_pressure: 0,
            timbre_control: 0,
            notes: C::new(),
        }
    }
}

/// One slot of the 16-channel array: a channel together with its role.
#[derive(Clone)]
pub enum Channel<C = DefaultNoteCollection> where C: NoteCollection {
    Manager { member_channels: u8, channel: MIDIChannel<C> },
    Member { channel: MIDIChannel<C> },
    Conventional { channel: MIDIChannel<C> },
}

impl<C> Channel<C> where C: NoteCollection {
    /// The per-channel expression state carried by any role.
    pub open spec fn payload(self) -> MIDIChannel<C> {
        match self {
            Channel::Manager { channel, .. } => channel,
            Channel::Member { channel } => channel,
            Channel::Conventional { channel } => channel,
        }
    }

    /// The member-channel count recorded by a manager; 0 for other roles.
    pub open spec fn manager_count(self) -> u8 {
        match self {
            Channel::Manager { member_channels, .. } => member_channels,
            _ => 0,
        }
    }

    /// A freshly constructed member channel.
    pub open spec fn is_fresh_member(self) -> bool {
        self is Member && self.payload().is_fresh(48)
    }

    /// A freshly constructed conventional channel.
    pub open spec fn is_fresh_conventional(self) -> bool {
        self is Conventional && self.payload().is_fresh(2)
    }

    /// A new member channel with fresh state.
    pub fn new_member() -> (r: Self)
        ensures
            r.is_fresh_member(),
    {
        Self::Member { channel: MIDIChannel::<C>::new(ChannelType::Member) }
    }

    /// A new conventional channel with fresh state.
    pub fn new_conventional() -> (r: Self)
        ensures
            r.is_fresh_conventional(),
    {
        Self::Conventional { channel: MIDIChannel::<C>::new(ChannelType::Conventional) }
    }

    /// A new manager channel with fresh state and the given member count.
    pub fn new_manager(member_channels: u8) -> (r: Self)
        ensures
            r is Manager,
            r.manager_count() == member_channels,
            r.payload().is_fresh(2),
    {
        Self::Manager { channel: MIDIChannel::<C>::new(ChannelType::Manager), member_channels }
    }
}

/// The zone-relative offset of an absolute channel index, and equally the
/// absolute index of a zone-relative offset: the distance from the zone's
/// manager channel.  The mapping is its own inverse.
pub open spec fn zone_offset(zone: Zone, i: int) -> int {
    match zone {
        Zone::Lower => i,
        Zone::Upper => 15 - i,
    }
}

/// Whether a zone is enabled: its manager slot holds a manager channel.
pub open spec fn zone_enabled<C: NoteCollection>(s: Seq<Channel<C>>, zone: Zone) -> bool {
    s[zone.spec_manager_channel()] is Manager
}

/// The number of member channels a zone currently owns; 0 when disabled.
pub open spec fn zone_member_count<C: NoteCollection>(s: Seq<Channel<C>>, zone: Zone) -> int {
    if zone_enabled(s, zone) {
        s[zone.spec_manager_channel()].manager_count() as int
    } else {
        0
    }
}

/// Whether absolute index `i` lies in a zone's member run: the zone is
/// enabled and `i` is between 1 and the member count away from the manager.
pub open spec fn in_zone_members<C: NoteCollection>(
    s: Seq<Channel<C>>,
    zone: Zone,
    i: int,
) -> bool {
    zone_enabled(s, zone) && 1 <= zone_offset(zone, i) <= zone_member_count(s, zone)
}

/// Whether absolute index `i` lies in a zone's full range: its manager slot
/// or its member run.
pub open spec fn in_zone<C: NoteCollection>(s: Seq<Channel<C>>, zone: Zone, i: int) -> bool {
    zone_enabled(s, zone) && 0 <= zone_offset(zone, i) <= zone_member_count(s, zone)
}

/// The role held at index `i` agrees with the zone structure: a slot is a
/// member exactly when some zone's member run covers it, and a manager
/// exactly when it is the manager slot of an enabled zone.  Everything else
/// is conventional.
pub open spec fn channel_role_ok<C: NoteCollection>(s: Seq<Channel<C>>, i: int) -> bool {
    &&& (s[i] is Member <==> in_zone_members(s, Zone::Lower, i) || in_zone_members(
        s,
        Zone::Upper,
        i,
    ))
    &&& (s[i] is Manager <==> (i == 0 && zone_enabled(s, Zone::Lower)) || (i == 15
        && zone_enabled(s, Zone::Upper)))
}

/// Well-formedness of the 16-slot channel array.
///
/// An enabled zone records between 1 and 15 member channels; when both zones
/// are enabled their runs must fit beside the two manager slots, so the
/// counts sum to at most 14 and the runs never overlap.  Every slot's role
/// agrees with the zone structure: member runs are contiguous to their
/// manager with no gaps, and all channels outside the zones are conventional.
pub open spec fn wf_channels<C: NoteCollection>(s: Seq<Channel<C>>) -> bool {
    &&& s.len() == 16
    &&& zone_enabled(s, Zone::Lower) ==> 1 <= zone_member_count(s, Zone::Lower) <= 15
    &&& zone_enabled(s, Zone::Upper) ==> 1 <= zone_member_count(s, Zone::Upper) <= 15
    &&& zone_enabled(s, Zone::Lower) && zone_enabled(s, Zone::Upper) ==> zone_member_count(
        s,
        Zone::Lower,
    ) + zone_member_count(s, Zone::Upper) <= 14
    &&& forall|i: int| 0 <= i < 16 ==> #[trigger] channel_role_ok(s, i)
}

/// The absolute channel index of a zone-relative offset.
fn zone_index(zone: Zone, offset: u8) -> (r: u8)
    requires
        offset <= 15,
    ensures
        r as int == zone_offset(zone, offset as int),
        r <= 15,
{
    match zone {
        Zone::Lower => offset,
        Zone::Upper => 15 - offset,
    }
}

/// The result of disabling an enabled zone: every slot of the zone's full
/// range (manager and members) is reset to a fresh conventional channel, and
/// every other slot is untouched.
pub open spec fn disable_post<C: NoteCollection>(
    pre: Seq<Channel<C>>,
    post: Seq<Channel<C>>,
    zone: Zone,
) -> bool {
    let prev = zone_member_count(pre, zone);
    &&& post.len() == 16
    &&& forall|i: int|
        0 <= i < 16 ==> if zone_offset(zone, i) <= prev {
            (#[trigger] post[i]).is_fresh_conventional()
        } else {
            post[i] == pre[i]
        }
}

/// The result of growing a zone to `req` member channels.
///
/// The manager slot records the new count, keeping its expression state if
/// the zone was already enabled and taking fresh state otherwise.  The slots
/// at offsets `max(prev, 1)` through `req` are initialized to fresh member
/// channels; members below that range keep their state.  The opposite
/// manager slot is then resolved: a growth to 15 members swallows it into
/// the member run; otherwise, if the opposite zone is enabled and the room
/// left for it is a single channel, it is disabled; if its channels no
/// longer fit, its count shrinks to the room left minus its own manager
/// slot; and if it still fits, it is untouched.
pub open spec fn grow_post<C: NoteCollection>(
    pre: Seq<Channel<C>>,
    post: Seq<Channel<C>>,
    zone: Zone,
    req: int,
) -> bool {
    let prev = zone_member_count(pre, zone);
    let m = zone.spec_manager_channel();
    let om = zone.spec_other().spec_manager_channel();
    let fill_lo = if prev < 1 { 1 } else { prev };
    &&& post.len() == 16
    &&& post[m] is Manager
    &&& post[m].manager_count() == req
    &&& if zone_enabled(pre, zone) {
        post[m].payload() == pre[m].payload()
    } else {
        post[m].payload().is_fresh(2)
    }
    &&& forall|i: int|
        0 <= i < 16 && i != m && i != om ==> if fill_lo <= zone_offset(zone, i) <= req {
            (#[trigger] post[i]).is_fresh_member()
        } else {
            post[i] == pre[i]
        }
    &&& if req == 15 {
        post[om].is_fresh_member()
    } else if zone_enabled(pre, zone.spec_other()) {
        let other = zone_member_count(pre, zone.spec_other());
        let remaining = 15 - req;
        if remaining == 1 {
            post[om].is_fresh_conventional()
        } else if other + 1 > remaining {
            post[om] is Manager && post[om].manager_count() == remaining - 1 && post[om].payload()
                == pre[om].payload()
        } else {
            post[om] == pre[om]
        }
    } else {
        post[om] == pre[om]
    }
}

/// The result of shrinking an enabled zone to `req` member channels
/// (`1 <= req < prev`): the manager keeps its expression state and records
/// the new count, the members that drop out of the run (offsets `req + 1`
/// through `prev`) are reset to fresh conventional channels, and every other
/// slot is untouched.
pub open spec fn shrink_post<C: NoteCollection>(
    pre: Seq<Channel<C>>,
    post: Seq<Channel<C>>,
    zone: Zone,
    req: int,
) -> bool {
    let prev = zone_member_count(pre, zone);
    let m = zone.spec_manager_channel();
    &&& post.len() == 16
    &&& post[m] is Manager
    &&& post[m].manager_count() == req
    &&& post[m].payload() == pre[m].payload()
    &&& forall|i: int|
        0 <= i < 16 && i != m ==> if req + 1 <= zone_offset(zone, i) <= prev {
            (#[trigger] post[i]).is_fresh_conventional()
        } else {
            post[i] == pre[i]
        }
}

/// How one `config` call transforms the channel array.
///
/// Requesting 0 member channels disables the zone (a no-op when it already
/// is disabled); requesting more members than the zone currently has grows
/// it, possibly shrinking or disabling the opposite zone; requesting fewer
/// shrinks it; requesting the current count changes nothing.
pub open spec fn config_rel<C: NoteCollection>(
    pre: Seq<Channel<C>>,
    post: Seq<Channel<C>>,
    zone: Zone,
    requested: u8,
) -> bool {
    let prev = zone_member_count(pre, zone);
    if requested == 0 {
        if zone_enabled(pre, zone) {
            disable_post(pre, post, zone)
        } else {
            post == pre
        }
    } else if requested > prev {
        grow_post(pre, post, zone, requested as int)
    } else if requested < prev {
        shrink_post(pre, post, zone, requested as int)
    } else {
        post == pre
    }
}

/// The absolute index range that a zone-relative offset range maps to:
/// the identity for the Lower zone, and the mirrored range for the Upper
/// zone, so that ascending offsets still give an ascending absolute range.
pub open spec fn spec_compute_range(zone: Zone, start: int, end: int) -> (int, int) {
    match zone {
        Zone::Lower => (start, end),
        Zone::Upper => (16 - end, 16 - start),
    }
}

/// The first absolute index of a zone's full range (manager and members),
/// for a zone with `mc` member channels.
pub open spec fn zone_range_lo(zone: Zone, mc: int) -> int {
    spec_compute_range(zone, 0, mc + 1).0
}

/// One past the last absolute index of a zone's full range.
pub open spec fn zone_range_end(zone: Zone, mc: int) -> int {
    spec_compute_range(zone, 0, mc + 1).1
}

/// The first absolute index of a zone's member run.
pub open spec fn member_range_lo(zone: Zone, mc: int) -> int {
    spec_compute_range(zone, 1, mc + 1).0
}

/// One past the last absolute index of a zone's member run.
pub open spec fn member_range_end(zone: Zone, mc: int) -> int {
    spec_compute_range(zone, 1, mc + 1).1
}

/// The two channels agree on role and manager count, the second carries the
/// given pitch-bend sensitivity, and every other part of the expression
/// state is the same.
pub open spec fn same_except_sensitivity<C: NoteCollection>(
    c1: Channel<C>,
    c2: Channel<C>,
    v: u8,
) -> bool {
    &&& (c2 is Manager <==> c1 is Manager)
    &&& (c2 is Member <==> c1 is Member)
    &&& c2.manager_count() == c1.manager_count()
    &&& c2.payload().pitch_bend_sensitivity == v
    &&& c2.payload().pitch_bend == c1.payload().pitch_bend
    &&& c2.payload().channel_pressure == c1.payload().channel_pressure
    &&& c2.payload().timbre_control == c1.payload().timbre_control
    &&& c2.payload().notes == c1.payload().notes
}

/// Whether the member channel at zone-relative offset `o` has no active
/// notes.
pub open spec fn member_notes_empty<C: NoteCollection>(
    s: Seq<Channel<C>>,
    zone: Zone,
    o: int,
) -> bool {
    s[zone_offset(zone, o)].payload().notes.spec_is_empty()
}

/// An array whose slots all keep their role and manager count stays
/// well-formed: well-formedness only looks at roles and counts.
proof fn lemma_same_roles_wf<C: NoteCollection>(pre: Seq<Channel<C>>, post: Seq<Channel<C>>)
    requires
        wf_channels(pre),
        post.len() == 16,
        forall|i: int|
            #![trigger post[i]]
            0 <= i < 16 ==> (post[i] is Manager <==> pre[i] is Manager) && (post[i] is Member
                <==> pre[i] is Member) && post[i].manager_count() == pre[i].manager_count(),
    ensures
        wf_channels(post),
{
    assert(post[0] is Manager <==> pre[0] is Manager);
    assert(post[15] is Manager <==> pre[15] is Manager);
    assert(post[0].manager_count() == pre[0].manager_count());
    assert(post[15].manager_count() == pre[15].manager_count());
    assert forall|i: int| 0 <= i < 16 implies #[trigger] channel_role_ok(post, i) by {
        assert(channel_role_ok(pre, i));
    }
}

/// Disabling an enabled zone leaves a well-formed array: the zone's whole
/// range turns conventional and the opposite zone, whose run never reached
/// into that range, is untouched.
proof fn lemma_disable_preserves_wf<C: NoteCollection>(
    pre: Seq<Channel<C>>,
    post: Seq<Channel<C>>,
    zone: Zone,
)
    requires
        wf_channels(pre),
        zone_enabled(pre, zone),
        disable_post(pre, post, zone),
    ensures
        wf_channels(post),
        !zone_enabled(post, zone),
{
    assert(channel_role_ok(pre, 0));
    assert(channel_role_ok(pre, 15));
    assert(!(post[zone.spec_manager_channel()] is Manager));
    assert forall|i: int| 0 <= i < 16 implies #[trigger] channel_role_ok(post, i) by {
        assert(channel_role_ok(pre, i));
        assert(channel_role_ok(pre, 0));
        assert(channel_role_ok(pre, 15));
    }
}

/// Growing a zone leaves a well-formed array: the new run is contiguous,
/// and the opposite zone is shrunk or disabled exactly as far as the new
/// run requires.
proof fn lemma_grow_preserves_wf<C: NoteCollection>(
    pre: Seq<Channel<C>>,
    post: Seq<Channel<C>>,
    zone: Zone,
    req: int,
)
    requires
        wf_channels(pre),
        zone_member_count(pre, zone) < req <= 15,
        grow_post(pre, post, zone, req),
    ensures
        wf_channels(post),
        zone_enabled(post, zone),
        zone_member_count(post, zone) == req,
{
    assert(channel_role_ok(pre, 0));
    assert(channel_role_ok(pre, 15));
    assert forall|i: int| 0 <= i < 16 implies #[trigger] channel_role_ok(post, i) by {
        assert(channel_role_ok(pre, i));
        assert(channel_role_ok(pre, 0));
        assert(channel_role_ok(pre, 15));
    }
}

/// Shrinking a zone leaves a well-formed array: the members that drop out
/// turn conventional and everything else, the opposite zone included, is
/// untouched.
proof fn lemma_shrink_preserves_wf<C: NoteCollection>(
    pre: Seq<Channel<C>>,
    post: Seq<Channel<C>>,
    zone: Zone,
    req: int,
)
    requires
        wf_channels(pre),
        1 <= req < zone_member_count(pre, zone),
        shrink_post(pre, post, zone, req),
    ensures
        wf_channels(post),
        zone_enabled(post, zone),
        zone_member_count(post, zone) == req,
{
    assert(channel_role_ok(pre, 0));
    assert(channel_role_ok(pre, 15));
    assert forall|i: int| 0 <= i < 16 implies #[trigger] channel_role_ok(post, i) by {
        assert(channel_role_ok(pre, i));
        assert(channel_role_ok(pre, 0));
        assert(channel_role_ok(pre, 15));
    }
}

/// In a well-formed array the two zones are mutually exclusive: no channel
/// index lies in both zones' ranges, and the channels they occupy, managers
/// included, never exceed the 16 available.
pub proof fn lemma_zones_never_overlap<C: NoteCollection>(s: Seq<Channel<C>>)
    requires
        wf_channels(s),
    ensures
        forall|i: int|
            0 <= i < 16 ==> !(#[trigger] in_zone(s, Zone::Lower, i) && in_zone(
                s,
                Zone::Upper,
                i,
            )),
        (if zone_enabled(s, Zone::Lower) {
            zone_member_count(s, Zone::Lower) + 1
        } else {
            0
        }) + (if zone_enabled(s, Zone::Upper) {
            zone_member_count(s, Zone::Upper) + 1
        } else {
            0
        }) <= 16,
{
    assert(channel_role_ok(s, 0));
    assert(channel_role_ok(s, 15));
}

/// Configuring a zone to 0 member channels, from any well-formed state,
/// fully reverts that zone: the zone ends up disabled, every channel it
/// occupied is reset to a fresh conventional channel, and every channel it
/// did not occupy — the opposite zone included — is untouched.
pub proof fn lemma_disable_fully_reverts<C: NoteCollection>(
    pre: Seq<Channel<C>>,
    post: Seq<Channel<C>>,
    zone: Zone,
)
    requires
        wf_channels(pre),
        config_rel(pre, post, zone, 0),
    ensures
        !zone_enabled(post, zone),
        forall|i: int|
            0 <= i < 16 && in_zone(pre, zone, i) ==> (#[trigger] post[i]).is_fresh_conventional(),
        forall|i: int|
            #![trigger post[i]]
            0 <= i < 16 && !in_zone(pre, zone, i) ==> post[i] == pre[i],
{
}

/// In a well-formed array, MPE mode is active exactly when not both
/// manager slots hold conventional channels: each manager slot is either a
/// manager of its enabled zone, conventional, or — only while the other
/// zone spans all 16 channels — one of that zone's members.
pub proof fn lemma_active_iff_managers<C: NoteCollection>(s: Seq<Channel<C>>)
    requires
        wf_channels(s),
    ensures
        (zone_enabled(s, Zone::Lower) || zone_enabled(s, Zone::Upper)) <==> !(s[0]
            is Conventional && s[15] is Conventional),
{
    assert(channel_role_ok(s, 0));
    assert(channel_role_ok(s, 15));
}

/// Growing a zone never changes channel indices outside its own new range,
/// except that the opposite zone's manager slot may be shrunk or disabled
/// when the growth forces it; when the opposite zone still fits — or is
/// not enabled and the growth stops short of its manager slot — even that
/// slot is untouched.
pub proof fn lemma_grow_touches_only_its_range<C: NoteCollection>(
    pre: Seq<Channel<C>>,
    post: Seq<Channel<C>>,
    zone: Zone,
    req: u8,
)
    requires
        wf_channels(pre),
        zone_member_count(pre, zone) < req <= 15,
        config_rel(pre, post, zone, req),
    ensures
        forall|i: int|
            #![trigger post[i]]
            0 <= i < 16 && zone_offset(zone, i) > req && i != zone.spec_other().spec_manager_channel()
                ==> post[i] == pre[i],
        !zone_enabled(pre, zone.spec_other()) && req < 15 ==> post[zone.spec_other().spec_manager_channel()]
            == pre[zone.spec_other().spec_manager_channel()],
        zone_enabled(pre, zone.spec_other()) && zone_member_count(pre, zone.spec_other()) + req
            <= 14 ==> post[zone.spec_other().spec_manager_channel()] == pre[zone.spec_other().spec_manager_channel()],
{
    assert(channel_role_ok(pre, 0));
    assert(channel_role_ok(pre, 15));
}

/// The channel-allocation state: a fixed array of 16 channel slots.
///
/// All mutation goes through the methods; the well-formedness predicate
/// `wf` is established by the constructor and preserved by every method.
pub struct MPEState<C = DefaultNoteCollection> where C: NoteCollection {
    pub channels: Vec<Channel<C>>,
}

impl<C> MPEState<C> where C: NoteCollection {
    /// The state owns exactly 16 well-formed channel slots.
    pub open spec fn wf(self) -> bool {
        wf_channels(self.channels@)
    }

    /// Creates a new instance of MPEState.
    /// MPE status is disabled and all channels are set to conventional.
    pub fn new() -> (r: Self)
        ensures
            r.wf(),
            r.channels@.len() == 16,
            forall|i: int| 0 <= i < 16 ==> (#[trigger] r.channels@[i]).is_fresh_conventional(),
    {
        let mut channels: Vec<Channel<C>> = Vec::new();
        let mut i: usize = 0;
        while i < 16
            invariant
                i <= 16,
                channels@.len() == i,
                forall|j: int| 0 <= j < i ==> (#[trigger] channels@[j]).is_fresh_conventional(),
            decreases 16 - i,
        {
            channels.push(Channel::new_conventional());
            i = i + 1;
        }
        let r = Self { channels };
        proof {
            assert forall|i: int| 0 <= i < 16 implies #[trigger] channel_role_ok(r.channels@, i) by {
                assert(r.channels@[0].is_fresh_conventional());
                assert(r.channels@[15].is_fresh_conventional());
            }
        }
        r
    }

    /// Resets the slots at zone-relative offsets `lo` through `hi` to fresh
    /// conventional channels.
    fn fill_conventional(&mut self, zone: Zone, lo: u8, hi: u8)
        requires
            old(self).channels@.len() == 16,
            lo <= hi <= 15,
        ensures
            final(self).channels@.len() == 16,
            forall|i: int|
                0 <= i < 16 ==> if lo <= zone_offset(zone, i) <= hi {
                    (#[trigger] final(self).channels@[i]).is_fresh_conventional()
                } else {
                    final(self).channels@[i] == old(self).channels@[i]
                },
    {
        let mut o: u8 = lo;
        while o <= hi
            invariant
                self.channels@.len() == 16,
                lo <= o <= hi + 1,
                hi <= 15,
                forall|i: int|
                    0 <= i < 16 ==> if lo <= zone_offset(zone, i) < o {
                        (#[trigger] self.channels@[i]).is_fresh_conventional()
                    } else {
                        self.channels@[i] == old(self).channels@[i]
                    },
            decreases hi + 1 - o,
        {
            let idx = zone_index(zone, o);
            self.channels[idx as usize] = Channel::new_conventional();
            o = o + 1;
        }
    }

    /// Initializes the slots at zone-relative offsets `lo` through `hi` to
    /// fresh member channels.
    fn fill_members(&mut self, zone: Zone, lo: u8, hi: u8)
        requires
            old(self).channels@.len() == 16,
            1 <= lo <= hi <= 15,
        ensures
            final(self).channels@.len() == 16,
            forall|i: int|
                0 <= i < 16 ==> if lo <= zone_offset(zone, i) <= hi {
                    (#[trigger] final(self).channels@[i]).is_fresh_member()
                } else {
                    final(self).channels@[i] == old(self).channels@[i]
                },
    {
        let mut o: u8 = lo;
        while o <= hi
            invariant
                self.channels@.len() == 16,
                lo <= o <= hi + 1,
                hi <= 15,
                forall|i: int|
                    0 <= i < 16 ==> if lo <= zone_offset(zone, i) < o {
                        (#[trigger] self.channels@[i]).is_fresh_member()
                    } else {
                        self.channels@[i] == old(self).channels@[i]
                    },
            decreases hi + 1 - o,
        {
            let idx = zone_index(zone, o);
            self.channels[idx as usize] = Channel::new_member();
            o = o + 1;
        }
    }

    /// Records a new member count on the manager slot at `idx`, keeping the
    /// manager channel's own expression state.
    fn set_manager_count(&mut self, idx: usize, count: u8)
        requires
            old(self).channels@.len() == 16,
            idx < 16,
            old(self).channels@[idx as int] is Manager,
        ensures
            final(self).channels@.len() == 16,
            final(self).channels@[idx as int] is Manager,
            final(self).channels@[idx as int].manager_count() == count,
            final(self).channels@[idx as int].payload() == old(self).channels@[idx as int].payload(),
            forall|i: int|
                0 <= i < 16 && i != idx ==> final(self).channels@[i] == old(self).channels@[i],
    {
        match &mut self.channels[idx] {
            Channel::Manager { member_channels, .. } => {
                *member_channels = count;
            },
            _ => {
            },
        }
    }

    /// Configures the member channels of an MPE zone.
    /// Zero member channels disable the zone.
    ///
    /// Growth takes priority over the opposite zone's existing assignment:
    /// the opposite zone is shrunk, or disabled outright, when the growing
    /// run leaves it too little room.  The opposite zone is never grown by
    /// this call.
    pub fn config(&mut self, zone: Zone, member_channels: u8)
        requires
            old(self).wf(),
            member_channels <= 15,
        ensures
            final(self).wf(),
            config_rel(old(self).channels@, final(self).channels@, zone, member_channels),
    {
        let ghost pre = old(self).channels@;
        let m = zone.manager_channel();
        let prev: u8 = match &self.channels[m as usize] {
            Channel::Manager { member_channels: mc, .. } => *mc,
            _ => 0,
        };
        proof {
            assert(channel_role_ok(pre, zone.spec_manager_channel()));
            assert(prev as int == zone_member_count(pre, zone));
            assert(prev > 0 <==> zone_enabled(pre, zone));
        }
        if member_channels == 0 {
            if prev > 0 {
                self.fill_conventional(zone, 0, prev);
                proof {
                    assert(disable_post(pre, self.channels@, zone));
                    lemma_disable_preserves_wf(pre, self.channels@, zone);
                }
            }
        } else if member_channels > prev {
            if prev > 0 {
                self.set_manager_count(m as usize, member_channels);
            } else {
                self.channels[m as usize] = Channel::new_manager(member_channels);
            }
            let fill_lo: u8 = if prev < 1 {
                1
            } else {
                prev
            };
            self.fill_members(zone, fill_lo, member_channels);
            let ghost filled = self.channels@;
            let om = zone.get_other().manager_channel();
            proof {
                assert(zone_offset(zone, om as int) == 15);
                if member_channels < 15 {
                    assert(filled[om as int] == pre[om as int]);
                }
                assert(channel_role_ok(pre, om as int));
            }
            let other_prev: u8 = match &self.channels[om as usize] {
                Channel::Manager { member_channels: mc, .. } => *mc,
                _ => 0,
            };
            let other_is_manager = match &self.channels[om as usize] {
                Channel::Manager { .. } => true,
                _ => false,
            };
            if other_is_manager {
                proof {
                    assert(member_channels < 15);
                    assert(zone_enabled(pre, zone.spec_other()));
                    assert(other_prev as int == zone_member_count(pre, zone.spec_other()));
                    assert(other_prev <= 15);
                }
                let remaining: u8 = 15 - member_channels;
                if remaining == 1 {
                    self.channels[om as usize] = Channel::new_conventional();
                } else if other_prev + 1 > remaining {
                    self.set_manager_count(om as usize, remaining - 1);
                }
            }
            proof {
                assert(grow_post(pre, self.channels@, zone, member_channels as int));
                lemma_grow_preserves_wf(pre, self.channels@, zone, member_channels as int);
            }
        } else if member_channels < prev {
            self.set_manager_count(m as usize, member_channels);
            self.fill_conventional(zone, member_channels + 1, prev);
            proof {
                assert(shrink_post(pre, self.channels@, zone, member_channels as int));
                lemma_shrink_preserves_wf(pre, self.channels@, zone, member_channels as int);
            }
        }
    }

    /// Inverts a range of channel indexes, allowing the upper zone to be
    /// zero indexed: zone-relative offsets map to absolute array indices.
    /// Every slicing operation funnels through this translation.
    pub fn compute_range(zone: Zone, range: Range<usize>) -> (r: Range<usize>)
        requires
            range.start <= range.end <= 16,
        ensures
            r.start == spec_compute_range(zone, range.start as int, range.end as int).0,
            r.end == spec_compute_range(zone, range.start as int, range.end as int).1,
            r.start <= r.end <= 16,
    {
        match zone {
            Zone::Lower => range,
            Zone::Upper => (16 - range.end)..(16 - range.start),
        }
    }

    /// Returns a slice of channels, allowing the upper zone to be zero
    /// indexed.
    pub fn zone_slice(&self, zone: Zone, range: Range<usize>) -> (r: &[Channel<C>])
        requires
            self.channels@.len() == 16,
            range.start <= range.end <= 16,
        ensures
            r@ == self.channels@.subrange(
                spec_compute_range(zone, range.start as int, range.end as int).0,
                spec_compute_range(zone, range.start as int, range.end as int).1,
            ),
    {
        let r = Self::compute_range(zone, range);
        slice_subrange(self.channels.as_slice(), r.start, r.end)
    }

    /// Returns a mutable slice of channels, allowing the upper zone to be
    /// zero indexed.  The new array is the old one with the slice's final
    /// contents written over the addressed range.
    pub fn zone_slice_mut(&mut self, zone: Zone, range: Range<usize>) -> (r: &mut [Channel<C>])
        requires
            old(self).channels@.len() == 16,
            range.start <= range.end <= 16,
        ensures
            r@ == old(self).channels@.subrange(
                spec_compute_range(zone, range.start as int, range.end as int).0,
                spec_compute_range(zone, range.start as int, range.end as int).1,
            ),
            final(self).channels@ == old(self).channels@.subrange(
                0,
                spec_compute_range(zone, range.start as int, range.end as int).0,
            ) + final(r)@ + old(self).channels@.subrange(
                spec_compute_range(zone, range.start as int, range.end as int).1,
                16,
            ),
    {
        let rr = Self::compute_range(zone, range);
        let s = self.channels.as_mut_slice();
        let (_, rest) = s.split_at_mut(rr.start);
        let (mid, _) = rest.split_at_mut(rr.end - rr.start);
        mid
    }

    /// Returns a range containing the indexes of a given zone's member
    /// channels, or nothing when the zone is disabled.
    pub fn zone_member_channel_range(&self, zone: Zone) -> (r: Option<Range<usize>>)
        requires
            self.wf(),
        ensures
            r is Some <==> zone_enabled(self.channels@, zone),
            r matches Some(rng) ==> rng.start == member_range_lo(
                zone,
                zone_member_count(self.channels@, zone),
            ) && rng.end == member_range_end(zone, zone_member_count(self.channels@, zone)),
    {
        let m = zone.manager_channel();
        match &self.channels[m as usize] {
            Channel::Manager { member_channels: mc, .. } => {
                let manager_offset: usize = 1;
                Some(Self::compute_range(zone, manager_offset..(*mc as usize + manager_offset)))
            },
            _ => None,
        }
    }

    /// Returns a slice containing the member channels of a given zone, or
    /// nothing when the zone is disabled.
    pub fn zone_member_channels(&self, zone: Zone) -> (r: Option<&[Channel<C>]>)
        requires
            self.wf(),
        ensures
            r is Some <==> zone_enabled(self.channels@, zone),
            r matches Some(sl) ==> sl@ == self.channels@.subrange(
                member_range_lo(zone, zone_member_count(self.channels@, zone)),
                member_range_end(zone, zone_member_count(self.channels@, zone)),
            ) && sl@.len() == zone_member_count(self.channels@, zone),
    {
        match self.zone_member_channel_range(zone) {
            Some(range) => Some(slice_subrange(self.channels.as_slice(), range.start, range.end)),
            None => None,
        }
    }

    /// Returns a mutable slice containing the member channels of a given
    /// zone, or nothing when the zone is disabled.  The new array is the
    /// old one with the slice's final contents written over the member
    /// range.
    pub fn zone_member_channels_mut(&mut self, zone: Zone) -> (r: Option<&mut [Channel<C>]>)
        requires
            old(self).wf(),
        ensures
            r is Some <==> zone_enabled(old(self).channels@, zone),
            r is None ==> final(self).channels@ == old(self).channels@,
            r matches Some(sl) ==> sl@ == old(self).channels@.subrange(
                member_range_lo(zone, zone_member_count(old(self).channels@, zone)),
                member_range_end(zone, zone_member_count(old(self).channels@, zone)),
            ) && final(self).channels@ == old(self).channels@.subrange(
                0,
                member_range_lo(zone, zone_member_count(old(self).channels@, zone)),
            ) + final(sl)@ + old(self).channels@.subrange(
                member_range_end(zone, zone_member_count(old(self).channels@, zone)),
                16,
            ),
    {
        match self.zone_member_channel_range(zone) {
            Some(range) => {
                let s = self.channels.as_mut_slice();
                let (_, rest) = s.split_at_mut(range.start);
                let (mid, _) = rest.split_at_mut(range.end - range.start);
                Some(mid)
            },
            None => None,
        }
    }

    /// Returns a range containing the indexes of all channels of a given
    /// zone (manager and members), or nothing when the zone is disabled.
    pub fn zone_channel_range(&self, zone: Zone) -> (r: Option<Range<usize>>)
        requires
            self.wf(),
        ensures
            r is Some <==> zone_enabled(self.channels@, zone),
            r matches Some(rng) ==> rng.start == zone_range_lo(
                zone,
                zone_member_count(self.channels@, zone),
            ) && rng.end == zone_range_end(zone, zone_member_count(self.channels@, zone)),
    {
        let m = zone.manager_channel();
        match &self.channels[m as usize] {
            Channel::Manager { member_channels: mc, .. } => {
                let manager_offset: usize = 1;
                Some(Self::compute_range(zone, 0..(*mc as usize + manager_offset)))
            },
            _ => None,
        }
    }

    /// Returns a slice containing all channels of a given zone, or nothing
    /// when the zone is disabled.
    pub fn zone_channels(&self, zone: Zone) -> (r: Option<&[Channel<C>]>)
        requires
            self.wf(),
        ensures
            r is Some <==> zone_enabled(self.channels@, zone),
            r matches Some(sl) ==> sl@ == self.channels@.subrange(
                zone_range_lo(zone, zone_member_count(self.channels@, zone)),
                zone_range_end(zone, zone_member_count(self.channels@, zone)),
            ) && sl@.len() == zone_member_count(self.channels@, zone) + 1,
    {
        match self.zone_channel_range(zone) {
            Some(range) => Some(slice_subrange(self.channels.as_slice(), range.start, range.end)),
            None => None,
        }
    }

    /// Returns a mutable slice containing all channels of a given zone, or
    /// nothing when the zone is disabled.  The new array is the old one
    /// with the slice's final contents written over the zone's range.
    pub fn zone_channels_mut(&mut self, zone: Zone) -> (r: Option<&mut [Channel<C>]>)
        requires
            old(self).wf(),
        ensures
            r is Some <==> zone_enabled(old(self).channels@, zone),
            r is None ==> final(self).channels@ == old(self).channels@,
            r matches Some(sl) ==> sl@ == old(self).channels@.subrange(
                zone_range_lo(zone, zone_member_count(old(self).channels@, zone)),
                zone_range_end(zone, zone_member_count(old(self).channels@, zone)),
            ) && final(self).channels@ == old(self).channels@.subrange(
                0,
                zone_range_lo(zone, zone_member_count(old(self).channels@, zone)),
            ) + final(sl)@ + old(self).channels@.subrange(
                zone_range_end(zone, zone_member_count(old(self).channels@, zone)),
                16,
            ),
    {
        match self.zone_channel_range(zone) {
            Some(range) => {
                let s = self.channels.as_mut_slice();
                let (_, rest) = s.split_at_mut(range.start);
                let (mid, _) = rest.split_at_mut(range.end - range.start);
                Some(mid)
            },
            None => None,
        }
    }

    /// Return the zone to which the given channel belongs, or nothing if it
    /// belongs to no zone.  The Lower zone is examined first.
    pub fn zone_by_channel(&self, channel: u8) -> (r: Option<Zone>)
        requires
            self.wf(),
        ensures
            r == (if in_zone(self.channels@, Zone::Lower, channel as int) {
                Some(Zone::Lower)
            } else if in_zone(self.channels@, Zone::Upper, channel as int) {
                Some(Zone::Upper)
            } else {
                None::<Zone>
            }),
    {
        match self.zone_channel_range(Zone::Lower) {
            Some(rng) => {
                if rng.start <= channel as usize && (channel as usize) < rng.end {
                    return Some(Zone::Lower);
                }
            },
            None => {
            },
        }
        match self.zone_channel_range(Zone::Upper) {
            Some(rng) => {
                if rng.start <= channel as usize && (channel as usize) < rng.end {
                    return Some(Zone::Upper);
                }
            },
            None => {
            },
        }
        None
    }

    /// Returns the channel state for the given channel index, or nothing
    /// for an index outside the 16-channel space.
    pub fn get_channel(&self, channel: u8) -> (r: Option<&MIDIChannel<C>>)
        requires
            self.channels@.len() == 16,
        ensures
            r is Some <==> channel < 16,
            r matches Some(p) ==> *p == self.channels@[channel as int].payload(),
    {
        if (channel as usize) < self.channels.len() {
            match &self.channels[channel as usize] {
                Channel::Conventional { channel } => Some(channel),
                Channel::Manager { channel, .. } => Some(channel),
                Channel::Member { channel } => Some(channel),
            }
        } else {
            None
        }
    }

    /// Returns the channel state for the given channel index, for updating
    /// pitch bend, pressure, timbre, and notes directly.  The channel's
    /// role and a manager's member count cannot change through it.
    pub fn get_channel_mut(&mut self, channel: u8) -> (r: &mut MIDIChannel<C>)
        requires
            old(self).channels@.len() == 16,
            channel < 16,
        ensures
            *r == old(self).channels@[channel as int].payload(),
            final(self).channels@.len() == 16,
            final(self).channels@[channel as int].payload() == *final(r),
            final(self).channels@[channel as int] is Manager <==> old(self).channels@[channel as int] is Manager,
            final(self).channels@[channel as int] is Member <==> old(self).channels@[channel as int] is Member,
            final(self).channels@[channel as int].manager_count() == old(self).channels@[channel as int].manager_count(),
            forall|i: int|
                0 <= i < 16 && i != channel ==> final(self).channels@[i] == old(self).channels@[i],
            old(self).wf() ==> final(self).wf(),
    {
        let r = match &mut self.channels[channel as usize] {
            Channel::Conventional { channel } => channel,
            Channel::Manager { channel, .. } => channel,
            Channel::Member { channel } => channel,
        };
        proof {
            if old(self).wf() {
                lemma_same_roles_wf(old(self).channels@, after_borrow(self).channels@);
            }
        }
        r
    }

    /// Sets the pitch-bend sensitivity stored at one slot, leaving the
    /// slot's role, manager count, and remaining state as they are.
    fn set_sensitivity_at(&mut self, idx: usize, v: u8)
        requires
            old(self).channels@.len() == 16,
            idx < 16,
        ensures
            final(self).channels@.len() == 16,
            same_except_sensitivity(
                old(self).channels@[idx as int],
                final(self).channels@[idx as int],
                v,
            ),
            forall|i: int|
                0 <= i < 16 && i != idx ==> final(self).channels@[i] == old(self).channels@[i],
    {
        match &mut self.channels[idx] {
            Channel::Conventional { channel } => {
                channel.pitch_bend_sensitivity = v;
            },
            Channel::Manager { channel, .. } => {
                channel.pitch_bend_sensitivity = v;
            },
            Channel::Member { channel } => {
                channel.pitch_bend_sensitivity = v;
            },
        }
    }

    /// Sets pitch bend sensitivity for a given channel, implementing MIDI
    /// 1.0 compatibility.  On a manager or conventional channel the value
    /// is stored on that channel alone, clamped to the floor of 2
    /// semitones.  On a member channel the value is applied, unclamped, to
    /// every member channel of its zone: the MPE specification requires
    /// receivers to apply the same pitch bend sensitivity to all member
    /// channels when it is changed on a single one.
    pub fn set_pitch_bend_sensitivity(&mut self, channel: u8, pitch_bend_sensitivity: u8)
        requires
            old(self).wf(),
            channel < 16,
        ensures
            final(self).wf(),
            ({
                let pre = old(self).channels@;
                let post = final(self).channels@;
                let ch = channel as int;
                if pre[ch] is Member {
                    let z = if in_zone_members(pre, Zone::Lower, ch) {
                        Zone::Lower
                    } else {
                        Zone::Upper
                    };
                    forall|i: int|
                        #![trigger post[i]]
                        0 <= i < 16 ==> if in_zone_members(pre, z, i) {
                            same_except_sensitivity(pre[i], post[i], pitch_bend_sensitivity)
                        } else {
                            post[i] == pre[i]
                        }
                } else {
                    &&& same_except_sensitivity(
                        pre[ch],
                        post[ch],
                        if pitch_bend_sensitivity < 2 {
                            2
                        } else {
                            pitch_bend_sensitivity
                        },
                    )
                    &&& forall|i: int|
                        #![trigger post[i]]
                        0 <= i < 16 && i != ch ==> post[i] == pre[i]
                }
            }),
    {
        let ghost pre = old(self).channels@;
        let is_member = match &self.channels[channel as usize] {
            Channel::Member { .. } => true,
            _ => false,
        };
        if !is_member {
            let v = if pitch_bend_sensitivity < 2 {
                2
            } else {
                pitch_bend_sensitivity
            };
            self.set_sensitivity_at(channel as usize, v);
            proof {
                lemma_same_roles_wf(pre, self.channels@);
            }
        } else {
            proof {
                assert(channel_role_ok(pre, channel as int));
            }
            let in_lower = match &self.channels[0] {
                Channel::Manager { member_channels: mc, .. } => channel <= *mc,
                _ => false,
            };
            let z = if in_lower {
                Zone::Lower
            } else {
                Zone::Upper
            };
            let mz = z.manager_channel();
            let mcz: u8 = match &self.channels[mz as usize] {
                Channel::Manager { member_channels: mc, .. } => *mc,
                _ => 0,
            };
            proof {
                assert(in_zone_members(pre, z, channel as int));
                assert(zone_enabled(pre, z));
                assert(mcz as int == zone_member_count(pre, z));
                assert(1 <= mcz <= 15);
            }
            let mut o: u8 = 1;
            while o <= mcz
                invariant
                    pre.len() == 16,
                    self.channels@.len() == 16,
                    1 <= o <= mcz + 1,
                    mcz <= 15,
                    pre[channel as int] is Member,
                    in_zone_members(pre, z, channel as int),
                    mcz as int == zone_member_count(pre, z),
                    z == Zone::Lower <==> in_zone_members(pre, Zone::Lower, channel as int),
                    forall|o2: int|
                        1 <= o2 < o ==> same_except_sensitivity(
                            pre[zone_offset(z, o2)],
                            #[trigger] self.channels@[zone_offset(z, o2)],
                            pitch_bend_sensitivity,
                        ),
                    forall|i: int|
                        #![trigger self.channels@[i]]
                        0 <= i < 16 && !(1 <= zone_offset(z, i) < o) ==> self.channels@[i]
                            == pre[i],
                decreases mcz + 1 - o,
            {
                let idx = zone_index(z, o);
                proof {
                    assert(idx as int == zone_offset(z, o as int));
                    assert(self.channels@[idx as int] == pre[idx as int]);
                }
                self.set_sensitivity_at(idx as usize, pitch_bend_sensitivity);
                o = o + 1;
            }
            proof {
                assert forall|i: int| #![trigger self.channels@[i]] 0 <= i < 16 implies
                    (self.channels@[i] is Manager <==> pre[i] is Manager) && (self.channels@[i]
                        is Member <==> pre[i] is Member) && self.channels@[i].manager_count()
                        == pre[i].manager_count() by {
                    if 1 <= zone_offset(z, i) < o {
                        assert(same_except_sensitivity(
                            pre[zone_offset(z, zone_offset(z, i))],
                            self.channels@[zone_offset(z, zone_offset(z, i))],
                            pitch_bend_sensitivity,
                        ));
                    }
                }
                lemma_same_roles_wf(pre, self.channels@);
                assert forall|i: int| #![trigger self.channels@[i]] 0 <= i < 16 implies (if in_zone_members(
                    pre,
                    z,
                    i,
                ) {
                    same_except_sensitivity(pre[i], self.channels@[i], pitch_bend_sensitivity)
                } else {
                    self.channels@[i] == pre[i]
                }) by {
                    let o2 = zone_offset(z, i);
                    if in_zone_members(pre, z, i) {
                        assert(same_except_sensitivity(
                            pre[zone_offset(z, o2)],
                            self.channels@[zone_offset(z, o2)],
                            pitch_bend_sensitivity,
                        ));
                        assert(zone_offset(z, o2) == i);
                    }
                }
            }
        }
    }

    /// Returns the absolute index of the first member channel of the zone,
    /// in ascending zone-relative order, whose note collection is empty;
    /// nothing when the zone is disabled or every member channel is
    /// occupied.  Used by a caller to allocate a new MPE voice.
    pub fn unoccupied_channel(&self, zone: Zone) -> (r: Option<u8>)
        requires
            self.wf(),
        ensures
            !zone_enabled(self.channels@, zone) ==> r is None,
            zone_enabled(self.channels@, zone) ==> match r {
                Some(idx) => {
                    let o = zone_offset(zone, idx as int);
                    &&& idx < 16
                    &&& 1 <= o <= zone_member_count(self.channels@, zone)
                    &&& member_notes_empty(self.channels@, zone, o)
                    &&& forall|o2: int|
                        1 <= o2 < o ==> !member_notes_empty(self.channels@, zone, o2)
                },
                None => forall|o2: int|
                    1 <= o2 <= zone_member_count(self.channels@, zone) ==> !member_notes_empty(
                        self.channels@,
                        zone,
                        o2,
                    ),
            },
    {
        let m = zone.manager_channel();
        let mc: u8 = match &self.channels[m as usize] {
            Channel::Manager { member_channels: mc, .. } => *mc,
            _ => {
                return None;
            },
        };
        proof {
            assert(zone_enabled(self.channels@, zone));
            assert(1 <= mc <= 15);
        }
        let mut o: u8 = 1;
        while o <= mc
            invariant
                self.channels@.len() == 16,
                1 <= o <= mc + 1,
                mc <= 15,
                mc as int == zone_member_count(self.channels@, zone),
                forall|o2: int|
                    1 <= o2 < o ==> !member_notes_empty(self.channels@, zone, o2),
            decreases mc + 1 - o,
        {
            let idx = zone_index(zone, o);
            let payload = match &self.channels[idx as usize] {
                Channel::Conventional { channel } => channel,
                Channel::Manager { channel, .. } => channel,
                Channel::Member { channel } => channel,
            };
            if payload.notes.is_empty() {
                return Some(idx);
            }
            o = o + 1;
        }
        None
    }

    /// Returns the status of MPE mode: whether either zone is enabled.
    pub fn active(&self) -> (r: bool)
        requires
            self.channels@.len() == 16,
        ensures
            r == (zone_enabled(self.channels@, Zone::Lower) || zone_enabled(
                self.channels@,
                Zone::Upper,
            )),
    {
        let lower = match &self.channels[0] {
            Channel::Manager { .. } => true,
            _ => false,
        };
        let upper = match &self.channels[15] {
            Channel::Manager { .. } => true,
            _ => false,
        };
        lower || upper
    }
}

impl<C> Default for MPEState<C> where C: NoteCollection {
    /// The disabled state: every channel conventional.
    fn default() -> (r: Self)
        ensures
            r.wf(),
            r.channels@.len() == 16,
            forall|i: int| 0 <= i < 16 ==> (#[trigger] r.channels@[i]).is_fresh_conventional(),
    {
        Self::new()
    }
}

} // verus!


