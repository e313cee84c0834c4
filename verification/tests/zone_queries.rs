use mpe_state::note_collection::DefaultNoteCollection;
use mpe_state::{Channel, MPEState, Zone};

#[test]
fn compute_range_lower_is_identity() {
    for start in 0..17usize {
        for end in start..17usize {
            let r = MPEState::<DefaultNoteCollection>::compute_range(Zone::Lower, start..end);
            assert_eq!(r, start..end);
        }
    }
}

#[test]
fn compute_range_upper_mirrors() {
    for start in 0..17usize {
        for end in start..17usize {
            let r = MPEState::<DefaultNoteCollection>::compute_range(Zone::Upper, start..end);
            assert_eq!(r, (16 - end)..(16 - start));
        }
    }
}

#[test]
fn zone_constructors() {
    assert!(matches!(Zone::new(0), Some(Zone::Lower)));
    assert!(matches!(Zone::new(15), Some(Zone::Upper)));
    assert!(Zone::new(7).is_none());
    assert!(matches!(Zone::Lower.get_by_manager(15), Some(Zone::Upper)));
    assert!(Zone::Upper.get_by_manager(3).is_none());
    assert_eq!(Zone::Lower.manager_channel(), 0);
    assert_eq!(Zone::Upper.manager_channel(), 15);
    assert!(matches!(Zone::Lower.get_other(), Zone::Upper));
    assert!(matches!(Zone::Upper.get_other(), Zone::Lower));
}

#[test]
fn ranges_of_disabled_zones_are_none() {
    let state: MPEState = MPEState::new();
    assert!(state.zone_channel_range(Zone::Lower).is_none());
    assert!(state.zone_channel_range(Zone::Upper).is_none());
    assert!(state.zone_member_channel_range(Zone::Lower).is_none());
    assert!(state.zone_member_channel_range(Zone::Upper).is_none());
    assert!(state.zone_channels(Zone::Lower).is_none());
    assert!(state.zone_member_channels(Zone::Upper).is_none());
    assert!(!state.active());
}

#[test]
fn ranges_of_enabled_zones() {
    let mut state: MPEState = MPEState::new();
    state.config(Zone::Lower, 6);
    state.config(Zone::Upper, 4);
    assert_eq!(state.zone_channel_range(Zone::Lower), Some(0..7));
    assert_eq!(state.zone_member_channel_range(Zone::Lower), Some(1..7));
    assert_eq!(state.zone_channel_range(Zone::Upper), Some(11..16));
    assert_eq!(state.zone_member_channel_range(Zone::Upper), Some(11..15));
    assert_eq!(state.zone_channels(Zone::Upper).unwrap().len(), 5);
    assert_eq!(state.zone_member_channels(Zone::Upper).unwrap().len(), 4);
}

#[test]
fn zone_by_channel_resolves_membership() {
    let mut state: MPEState = MPEState::new();
    state.config(Zone::Lower, 6);
    state.config(Zone::Upper, 7);
    assert!(matches!(state.zone_by_channel(0), Some(Zone::Lower)));
    assert!(matches!(state.zone_by_channel(6), Some(Zone::Lower)));
    assert!(state.zone_by_channel(7).is_none());
    assert!(matches!(state.zone_by_channel(8), Some(Zone::Upper)));
    assert!(matches!(state.zone_by_channel(15), Some(Zone::Upper)));
    assert!(state.zone_by_channel(16).is_none());
}

#[test]
fn unoccupied_channel_picks_lowest_offset() {
    let mut state: MPEState = MPEState::new();
    // disabled zones offer no channel
    assert!(state.unoccupied_channel(Zone::Lower).is_none());
    assert!(state.unoccupied_channel(Zone::Upper).is_none());
    state.config(Zone::Lower, 3);
    state.config(Zone::Upper, 4);
    // all member channels are empty, so the one nearest each manager wins:
    // channel 1 for the Lower zone, channel 14 for the Upper zone
    assert_eq!(state.unoccupied_channel(Zone::Lower), Some(1));
    assert_eq!(state.unoccupied_channel(Zone::Upper), Some(14));
}

#[test]
fn shrink_frees_only_excess_members() {
    let mut state: MPEState = MPEState::new();
    state.config(Zone::Lower, 5);
    state.config(Zone::Lower, 3);
    assert_eq!(state.zone_member_channels(Zone::Lower).unwrap().len(), 3);
    assert!(matches!(state.channels[3], Channel::Member { .. }));
    assert!(matches!(state.channels[4], Channel::Conventional { .. }));
    assert!(matches!(state.channels[5], Channel::Conventional { .. }));
}

#[test]
fn zone_slice_addresses_zone_relative_ranges() {
    let mut state: MPEState = MPEState::new();
    state.config(Zone::Upper, 4);
    // the whole array, from either zone's point of view
    assert_eq!(state.zone_slice(Zone::Lower, 0..16).len(), 16);
    assert_eq!(state.zone_slice(Zone::Upper, 0..16).len(), 16);
    // offsets 1..=4 of the Upper zone are its member run
    let members = state.zone_slice(Zone::Upper, 1..5);
    assert_eq!(members.len(), 4);
    assert!(members.iter().all(|c| matches!(c, Channel::Member { .. })));
    // offset 0 of the Upper zone is its manager
    assert!(matches!(state.zone_slice(Zone::Upper, 0..1)[0], Channel::Manager { .. }));
}

#[test]
fn get_channel_bounds() {
    let state: MPEState = MPEState::new();
    assert!(state.get_channel(15).is_some());
    assert!(state.get_channel(16).is_none());
    assert_eq!(state.get_channel(9).unwrap().pitch_bend, 0);
    assert_eq!(state.get_channel(9).unwrap().channel_pressure, 0);
    assert_eq!(state.get_channel(9).unwrap().timbre_control, 0);
}

#[test]
fn get_channel_mut_updates_expression_state() {
    let mut state: MPEState = MPEState::new();
    state.config(Zone::Lower, 2);
    state.get_channel_mut(1).pitch_bend = 128;
    state.get_channel_mut(1).timbre_control = 64;
    assert_eq!(state.get_channel(1).unwrap().pitch_bend, 128);
    assert_eq!(state.get_channel(1).unwrap().timbre_control, 64);
    assert_eq!(state.get_channel(2).unwrap().pitch_bend, 0);
    // the channel keeps its role
    assert!(matches!(state.channels[1], Channel::Member { .. }));
}

#[test]
fn mutable_zone_slices_address_the_zone() {
    let mut state: MPEState = MPEState::new();
    assert!(state.zone_channels_mut(Zone::Lower).is_none());
    assert!(state.zone_member_channels_mut(Zone::Upper).is_none());
    state.config(Zone::Upper, 4);
    assert_eq!(state.zone_channels_mut(Zone::Upper).unwrap().len(), 5);
    assert_eq!(state.zone_member_channels_mut(Zone::Upper).unwrap().len(), 4);
    assert_eq!(state.zone_slice_mut(Zone::Upper, 1..5).len(), 4);
}
