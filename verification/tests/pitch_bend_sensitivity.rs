use mpe_state::{MPEState, Zone};

#[test]
fn member_channel_pitch_bend_sensitivity() {
    let mut mpe: MPEState = MPEState::new();
    // config zones so channel 7 remains conventional
    mpe.config(Zone::Lower, 6);
    mpe.config(Zone::Upper, 7);
    // manager channel: the stored value is clamped to the floor of 2
    mpe.set_pitch_bend_sensitivity(0, 1);
    // conventional channel
    mpe.set_pitch_bend_sensitivity(7, 3);
    // member channel, the sensitivity should be applied
    // to all member channels of the zone
    mpe.set_pitch_bend_sensitivity(3, 12);
    // check manager channel
    assert_eq!(mpe.get_channel(0).unwrap().pitch_bend_sensitivity(), 2);
    // check conventional channel
    assert_eq!(mpe.get_channel(7).unwrap().pitch_bend_sensitivity(), 3);
    // check member channel
    assert_eq!(mpe.get_channel(3).unwrap().pitch_bend_sensitivity(), 12);
    // check another member channel of the same zone
    assert_eq!(mpe.get_channel(6).unwrap().pitch_bend_sensitivity(), 12);
    // check other zone member channel
    assert_eq!(mpe.get_channel(10).unwrap().pitch_bend_sensitivity(), 48);
    // check other zone manager channel
    assert_eq!(mpe.get_channel(15).unwrap().pitch_bend_sensitivity(), 2);
}

#[test]
fn conventional_channel_clamps_to_floor() {
    let mut mpe: MPEState = MPEState::new();
    mpe.set_pitch_bend_sensitivity(5, 0);
    assert_eq!(mpe.get_channel(5).unwrap().pitch_bend_sensitivity(), 2);
    mpe.set_pitch_bend_sensitivity(5, 1);
    assert_eq!(mpe.get_channel(5).unwrap().pitch_bend_sensitivity(), 2);
    mpe.set_pitch_bend_sensitivity(5, 7);
    assert_eq!(mpe.get_channel(5).unwrap().pitch_bend_sensitivity(), 7);
}

#[test]
fn new_member_channels_report_mpe_default() {
    let mut mpe: MPEState = MPEState::new();
    mpe.config(Zone::Lower, 3);
    assert_eq!(mpe.get_channel(0).unwrap().pitch_bend_sensitivity(), 2);
    assert_eq!(mpe.get_channel(1).unwrap().pitch_bend_sensitivity(), 48);
    assert_eq!(mpe.get_channel(2).unwrap().pitch_bend_sensitivity(), 48);
    assert_eq!(mpe.get_channel(3).unwrap().pitch_bend_sensitivity(), 48);
    assert_eq!(mpe.get_channel(4).unwrap().pitch_bend_sensitivity(), 2);
}

#[test]
fn growth_keeps_untouched_member_state() {
    let mut mpe: MPEState = MPEState::new();
    mpe.config(Zone::Lower, 3);
    // propagate a sensitivity to all three members through one of them
    mpe.set_pitch_bend_sensitivity(2, 20);
    assert_eq!(mpe.get_channel(1).unwrap().pitch_bend_sensitivity(), 20);
    assert_eq!(mpe.get_channel(3).unwrap().pitch_bend_sensitivity(), 20);
    // growing re-initializes the slots from offset max(prev, 1) upward;
    // members below that range keep their state
    mpe.config(Zone::Lower, 5);
    assert_eq!(mpe.get_channel(1).unwrap().pitch_bend_sensitivity(), 20);
    assert_eq!(mpe.get_channel(2).unwrap().pitch_bend_sensitivity(), 20);
    assert_eq!(mpe.get_channel(3).unwrap().pitch_bend_sensitivity(), 48);
    assert_eq!(mpe.get_channel(4).unwrap().pitch_bend_sensitivity(), 48);
    assert_eq!(mpe.get_channel(5).unwrap().pitch_bend_sensitivity(), 48);
}
