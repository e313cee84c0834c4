use mpe_state::{Channel, MPEState, Zone};

fn role(state: &MPEState, i: usize) -> &'static str {
    match &state.channels[i] {
        Channel::Manager { .. } => "manager",
        Channel::Member { .. } => "member",
        Channel::Conventional { .. } => "conventional",
    }
}

/// Checks that the channel array is structurally sound: manager slots only
/// at 0 and 15, member runs contiguous to their manager and exactly as long
/// as the manager records, everything else conventional, and the two zones
/// disjoint.
fn assert_well_formed(state: &MPEState) {
    assert_eq!(state.channels.len(), 16);
    let lower = match &state.channels[0] {
        Channel::Manager { member_channels, .. } => Some(*member_channels as usize),
        _ => None,
    };
    let upper = match &state.channels[15] {
        Channel::Manager { member_channels, .. } => Some(*member_channels as usize),
        _ => None,
    };
    if let (Some(l), Some(u)) = (lower, upper) {
        assert!(l + u <= 14, "zones overlap: {} + {} members", l, u);
    }
    for i in 0..16usize {
        let in_lower = lower.is_some_and(|l| 1 <= i && i <= l);
        let in_upper = upper.is_some_and(|u| 15 - u <= i && i <= 14);
        let expected = if (i == 0 && lower.is_some()) || (i == 15 && upper.is_some()) {
            "manager"
        } else if in_lower || in_upper {
            assert!(!(in_lower && in_upper), "channel {} claimed by both zones", i);
            "member"
        } else {
            "conventional"
        };
        assert_eq!(role(state, i), expected, "channel {}", i);
    }
}

#[test]
fn invariants_hold_after_every_config_call() {
    let calls: [(Zone, u8); 12] = [
        (Zone::Lower, 15),
        (Zone::Upper, 4),
        (Zone::Lower, 14),
        (Zone::Upper, 7),
        (Zone::Lower, 3),
        (Zone::Lower, 3),
        (Zone::Upper, 0),
        (Zone::Lower, 1),
        (Zone::Upper, 15),
        (Zone::Lower, 2),
        (Zone::Upper, 0),
        (Zone::Lower, 0),
    ];
    let mut state: MPEState = MPEState::new();
    assert_well_formed(&state);
    for (zone, count) in calls {
        state.config(zone, count);
        assert_well_formed(&state);
    }
}

#[test]
fn disabling_fully_reverts_a_zone() {
    let mut state: MPEState = MPEState::new();
    state.config(Zone::Lower, 9);
    state.config(Zone::Upper, 2);
    state.config(Zone::Lower, 4);
    state.config(Zone::Lower, 0);
    for i in 0..10usize {
        assert_eq!(role(&state, i), "conventional", "channel {}", i);
        assert_eq!(state.get_channel(i as u8).unwrap().pitch_bend_sensitivity(), 2);
    }
    // the other zone is untouched
    assert_eq!(role(&state, 15), "manager");
    assert_eq!(role(&state, 14), "member");
    assert_eq!(role(&state, 13), "member");
    assert!(state.active());
    state.config(Zone::Upper, 0);
    assert!(!state.active());
}

#[test]
fn growth_leaves_the_other_zone_alone_when_it_fits() {
    let mut state: MPEState = MPEState::new();
    state.config(Zone::Upper, 4);
    // give the Upper members a distinctive sensitivity
    state.set_pitch_bend_sensitivity(12, 30);
    state.config(Zone::Lower, 5);
    // 6 + 5 channels fit: the Upper zone must be exactly as before
    assert_eq!(role(&state, 15), "manager");
    for i in 11..15u8 {
        assert_eq!(role(&state, i as usize), "member");
        assert_eq!(state.get_channel(i).unwrap().pitch_bend_sensitivity(), 30);
    }
    // the channel between the zones stays conventional
    assert_eq!(role(&state, 10), "conventional");
}
