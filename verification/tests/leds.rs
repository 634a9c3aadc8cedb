use oro_link::leds::{
    board_channel_state, every_channel, frequency_frame, global_enable_frame,
    multi_grey_light_updates, multi_rgb_light_updates, reset_frame, rgb_light_updates,
    self_test_steps, shutdown_frame, update_frame, ChannelState, LedChip, LedCmd, LedRouter,
    MaxCurrent, OnOffLight, OutputFrequency, Rgb, CH_SD_CABLE_SENSE, CH_SD_CARD_ACTIVITY,
    IDLE_SHIFT, SELF_TEST_STEPS, SHIFT_CHANNEL,
};

#[test]
fn channel_state_bits() {
    assert_eq!(ChannelState::new().0, 0);
    assert_eq!(ChannelState::new().with_on().0, 1);
    assert_eq!(ChannelState(0xFF).with_off().0, 0xFE);
    assert_eq!(ChannelState::new().with_max_current(MaxCurrent::ImaxDiv4).0, 0b110);
    assert_eq!(ChannelState(0xFF).with_max_current(MaxCurrent::Imax).0, 0xF9);
    assert_eq!(ChannelState(0x01).with_max_current(MaxCurrent::ImaxDiv3).0, 0b101);
}

#[test]
fn board_channel_states() {
    assert_eq!(board_channel_state(true).0, 7);
    assert_eq!(board_channel_state(false).0, 6);
}

#[test]
fn chip_command_frames() {
    assert_eq!(update_frame(), [0x25, 0x00]);
    assert_eq!(shutdown_frame(false), [0x00, 0x01]);
    assert_eq!(shutdown_frame(true), [0x00, 0x00]);
    assert_eq!(reset_frame(), [0x4F, 0x00]);
    assert_eq!(global_enable_frame(true), [0x4A, 0x00]);
    assert_eq!(global_enable_frame(false), [0x4A, 0x01]);
    assert_eq!(frequency_frame(OutputFrequency::Khz3), [0x4B, 0]);
    assert_eq!(frequency_frame(OutputFrequency::Khz22), [0x4B, 1]);
}

#[test]
fn chip_frames_start_dark() {
    let chip = LedChip::new();
    let (frame, shown) = chip.pwm_frame();
    assert_eq!(frame.len(), 38);
    assert_eq!(frame[0], 0x01);
    assert!(frame[1..].iter().all(|&b| b == 0));
    assert_eq!(shown, vec![0u8; 36]);
    let state = chip.state_frame();
    assert_eq!(state.len(), 37);
    assert_eq!(state[0], 0x26);
    assert!(state[1..].iter().all(|&b| b == 0));
}

#[test]
fn chip_update_channel_switches_channel() {
    let mut chip = LedChip::new();
    chip.update_channel(5, 200);
    let (frame, _) = chip.pwm_frame();
    assert_eq!(frame[5], 200);
    assert_eq!(chip.state_frame()[5], 7);
    chip.update_channel(5, 0);
    let (frame, _) = chip.pwm_frame();
    assert_eq!(frame[5], 0);
    assert_eq!(chip.state_frame()[5], 6);
}

#[test]
fn chip_shift_dims_lit_channels() {
    let mut chip = LedChip::new();
    chip.update_channel(1, 255);
    chip.update_channel(2, 20);
    chip.update_channel(SHIFT_CHANNEL, IDLE_SHIFT);
    let (frame, shown) = chip.pwm_frame();
    // 255 >> 4 = 15; 20 >> 4 = 1, raised to the minimum of 2; dark stays dark.
    assert_eq!(frame[1], 15);
    assert_eq!(frame[2], 2);
    assert_eq!(frame[3], 0);
    assert_eq!(shown[0], 15);
    assert_eq!(shown[1], 2);
}

#[test]
fn rgb_updates_in_channel_order() {
    let c = Rgb::new(1, 2, 3);
    assert_eq!(rgb_light_updates(c, 34, 33, 35), vec![(34, 1), (33, 2), (35, 3)]);
    assert_eq!(
        multi_rgb_light_updates(c, &[19, 10], &[18], &[20, 11]),
        vec![(19, 1), (10, 1), (18, 2), (20, 3), (11, 3)]
    );
    assert_eq!(multi_grey_light_updates(9, &[7, 8, 3]), vec![(7, 9), (8, 9), (3, 9)]);
    assert_eq!(Rgb::grey(5), Rgb::new(5, 5, 5));
}

#[test]
fn on_off_light_sends_only_changes() {
    let mut light = OnOffLight::new(36);
    assert_eq!(light.receive(false), None);
    assert_eq!(light.receive(true), Some((36, 255)));
    assert_eq!(light.receive(true), None);
    assert_eq!(light.receive(false), Some((36, 0)));
}

#[test]
fn every_channel_covers_one_to_thirty_six() {
    let v = every_channel(0);
    assert_eq!(v.len(), 36);
    for (i, u) in v.iter().enumerate() {
        assert_eq!(*u, (i + 1, 0));
    }
}

#[test]
fn router_all_off_and_idle() {
    let mut router = LedRouter::new();
    assert_eq!(router.route(LedCmd::AllOff), every_channel(0));
    assert_eq!(router.route(LedCmd::SetIdle(true)), vec![(SHIFT_CHANNEL, IDLE_SHIFT)]);
    assert_eq!(router.route(LedCmd::SetIdle(false)), vec![(SHIFT_CHANNEL, 0)]);
    assert!(router.route(LedCmd::SelfTest).is_empty());
}

#[test]
fn router_indicators_and_backlight() {
    let mut router = LedRouter::new();
    let c = Rgb::new(10, 20, 30);
    assert_eq!(router.route(LedCmd::SetSystemIndicator(c)), vec![(34, 10), (33, 20), (35, 30)]);
    assert_eq!(router.route(LedCmd::SetRemoteIndicator(c)), vec![(31, 10), (30, 20), (32, 30)]);
    assert_eq!(router.route(LedCmd::SetJobIndicator(c)), vec![(28, 10), (29, 20), (27, 30)]);
    let backlight = router.route(LedCmd::SetBacklight { color: c, white: 40 });
    assert_eq!(backlight.len(), 24);
    assert_eq!(backlight[0], (19, 10));
    assert_eq!(backlight[7], (18, 20));
    assert_eq!(backlight[14], (20, 30));
    assert_eq!(&backlight[21..], &[(7, 40), (8, 40), (3, 40)]);
}

#[test]
fn router_sd_indicators_send_changes() {
    let mut router = LedRouter::new();
    assert!(router.route(LedCmd::SetSdCableIndicator(false)).is_empty());
    assert_eq!(
        router.route(LedCmd::SetSdCableIndicator(true)),
        vec![(CH_SD_CABLE_SENSE, 255)]
    );
    assert!(router.route(LedCmd::SetSdCableIndicator(true)).is_empty());
    assert_eq!(
        router.route(LedCmd::SetSdCardIndicator(true)),
        vec![(CH_SD_CARD_ACTIVITY, 255)]
    );
    assert_eq!(router.route(LedCmd::SetSdSenseIndicator(true)), vec![(1, 255)]);
    assert_eq!(router.route(LedCmd::SetSdSenseIndicator(false)), vec![(1, 0)]);
}

#[test]
fn router_manual_state() {
    let mut router = LedRouter::new();
    let mut state = [0u8; 36];
    for (i, s) in state.iter_mut().enumerate() {
        *s = i as u8 * 2;
    }
    let r = router.route(LedCmd::SetManualState { state });
    assert_eq!(r.len(), 36);
    assert_eq!(r[0], (1, 0));
    assert_eq!(r[35], (36, 70));
}

#[test]
fn self_test_sequence() {
    let steps = self_test_steps();
    assert_eq!(steps.len(), SELF_TEST_STEPS);
    assert_eq!(steps[0].updates, every_channel(255));
    assert_eq!(steps[0].wait_ms, 250);
    assert_eq!(steps[1].updates, every_channel(0));
    assert_eq!(steps[5].updates, every_channel(0));
    assert_eq!(steps[6].updates, vec![(1, 255)]);
    assert_eq!(steps[6].wait_ms, 50);
    assert_eq!(steps[7].updates, vec![(1, 0)]);
    assert_eq!(steps[7].wait_ms, 0);
    assert_eq!(steps[77].updates, vec![(36, 0)]);
}
