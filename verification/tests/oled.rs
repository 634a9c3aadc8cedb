use oro_link::oled::{
    checkers_frame, contrast_commands, curved_contrast, init_commands, logo_frame_period_ms,
    render_logo_frame, reset_cursor_commands, status_line_origin, DriverAction, LogoCommand,
    OledCmd, OledDriver, OledPower, OledService, PowerPhase, State, SceneTracker, Scene,
    ServiceAction, ServiceMsg, Wait,
};

#[test]
fn contrast_curve() {
    assert_eq!(curved_contrast(0), 0);
    assert_eq!(curved_contrast(255), 63);
    // 128 * 63 / 255 = 31 -> 15.
    assert_eq!(curved_contrast(128), 15);
    assert_eq!(contrast_commands(255), [0x81, 63]);
}

#[test]
fn init_sequence() {
    let flipped = init_commands(true);
    assert_eq!(flipped.len(), 38);
    assert_eq!(&flipped[..3], &[0xFD, 0x12, 0xAE]);
    assert_eq!(flipped[12], 0b01010010);
    assert_eq!(init_commands(false)[12], 0b11000011);
    assert_eq!(flipped[37], 0xAF);
    assert_eq!(reset_cursor_commands(), [0x15, 0x00, 0x7F, 0x75, 0x00, 0x3F]);
}

#[test]
fn checkerboard() {
    let f = checkers_frame();
    assert_eq!(f.len(), 8192);
    assert_eq!(&f[..4], &[0xFF, 0, 0xFF, 0]);
}

#[test]
fn driver_power_up_and_down() {
    let mut d = OledDriver::new();
    assert_eq!(d.handle(OledCmd::SetBrightness { brightness: 255 }), vec![]);
    let up = d.handle(OledCmd::SetPower { enabled: true });
    assert_eq!(up.len(), 6 + 38 + 7);
    assert_eq!(up[0], DriverAction::SetVreg(true));
    assert_eq!(up[2], DriverAction::SetReset(false));
    assert_eq!(up[6], DriverAction::Command(0xFD));
    assert_eq!(up[up.len() - 1], DriverAction::SendFrame);
    assert!(d.comms_enabled);
    assert_eq!(d.handle(OledCmd::SetPower { enabled: true }), vec![]);
    assert_eq!(
        d.handle(OledCmd::SetBrightness { brightness: 0 }),
        vec![DriverAction::Command(0x81), DriverAction::Command(0)]
    );
    let render = d.handle(OledCmd::Render);
    assert_eq!(render.len(), 8);
    assert_eq!(render[7], DriverAction::CountFrame);
    assert_eq!(
        d.handle(OledCmd::SetPower { enabled: false }),
        vec![DriverAction::SetVreg(false), DriverAction::DelayMs(10)]
    );
    assert_eq!(d.handle(OledCmd::Render), vec![DriverAction::CountFrame]);
}

#[test]
fn power_on_is_immediate() {
    let mut p = OledPower::new();
    assert!(!p.accepts(State::Off));
    assert!(p.accepts(State::On));
    let step = p.request(State::On);
    assert_eq!(
        step.commands,
        vec![OledCmd::SetPower { enabled: true }, OledCmd::SetBrightness { brightness: 255 }]
    );
    assert_eq!(step.wait, Wait::Forever);
    assert_eq!(p.current, State::On);
    assert_eq!(p.phase, PowerPhase::Done);
}

#[test]
fn power_off_waits_before_regulator() {
    let mut p = OledPower::new();
    p.request(State::On);
    let step = p.request(State::Off);
    assert_eq!(step.commands, vec![OledCmd::SetBrightness { brightness: 0 }]);
    assert_eq!(step.wait, Wait::Millis(10_000));
    let step = p.timeout();
    assert_eq!(step.commands, vec![OledCmd::SetPower { enabled: false }]);
    assert_eq!(step.wait, Wait::Forever);
    assert_eq!(p.current, State::Off);
}

#[test]
fn idle_cools_down_to_minimum_then_powers_off() {
    let mut p = OledPower::new();
    let step = p.request(State::Idle);
    assert_eq!(step.wait, Wait::Millis(10_000));
    let mut last = 255u8;
    let mut steps = 0;
    loop {
        let step = p.timeout();
        if step.commands.is_empty() {
            assert_eq!(step.wait, Wait::Millis(10_000));
            break;
        }
        match step.commands[0] {
            OledCmd::SetBrightness { brightness } => {
                assert_eq!(brightness, last - 5);
                last = brightness;
            },
            _ => panic!("unexpected command"),
        }
        assert_eq!(step.wait, Wait::Millis(100));
        steps += 1;
    }
    assert_eq!(steps, 35);
    assert_eq!(last, 80);
    let step = p.timeout();
    assert_eq!(step.commands, vec![OledCmd::SetPower { enabled: false }]);
    assert_eq!(p.current, State::Idle);
    assert_eq!(p.phase, PowerPhase::Done);
}

#[test]
fn interrupted_transition_counts_target_as_reached() {
    let mut p = OledPower::new();
    p.request(State::Idle);
    p.timeout();
    let step = p.request(State::Off);
    assert_eq!(step.commands, vec![OledCmd::SetBrightness { brightness: 0 }]);
    assert_eq!(p.current, State::Idle);
    assert_eq!(p.target, State::Off);
}

#[test]
fn power_state_names() {
    assert_eq!(State::On.name(), "on");
    assert_eq!(State::Idle.name(), "idle");
    assert_eq!(State::Off.name(), "off");
}

#[test]
fn logo_pixels() {
    let cmds = [
        LogoCommand::Draw { count: 2, lightness: 3 },
        LogoCommand::Skip { count: 61 },
        LogoCommand::Draw { count: 2, lightness: 1 },
        LogoCommand::End,
        LogoCommand::Draw { count: 5, lightness: 2 },
    ];
    let pixels = render_logo_frame(&cmds, 64);
    assert_eq!(pixels, vec![(96, 0, 0xF), (97, 0, 0xF), (159, 0, 0x5), (96, 1, 0x5)]);
    assert_eq!(logo_frame_period_ms(30), 33);
}

#[test]
fn status_lines() {
    assert_eq!(status_line_origin(0, 100), (78, 0));
    assert_eq!(status_line_origin(3, 0), (128, 48));
}

#[test]
fn scene_selection() {
    let mut s = SceneTracker::new();
    assert!(!s.select(Scene::Logo));
    s.force(Scene::Logo);
    assert_eq!(s.current, Scene::Logo);
}

#[test]
fn service_restarts_scene_after_power_up() {
    let mut svc = OledService::new();
    let r = svc.handle(ServiceMsg::SetPower(true));
    assert_eq!(r.first(), Some(&ServiceAction::Driver(DriverAction::SetVreg(true))));
    assert_eq!(r.last(), Some(&ServiceAction::ForceSetScene(Scene::Logo)));
    let expected_driver: Vec<ServiceAction> = OledDriver::new()
        .handle(OledCmd::SetPower { enabled: true })
        .into_iter()
        .map(ServiceAction::Driver)
        .collect();
    assert_eq!(&r[..r.len() - 1], &expected_driver[..]);
    assert!(svc.handle(ServiceMsg::SetPower(true)).is_empty());
    let down = svc.handle(ServiceMsg::SetPower(false));
    assert_eq!(
        down,
        vec![
            ServiceAction::Driver(DriverAction::SetVreg(false)),
            ServiceAction::Driver(DriverAction::DelayMs(10)),
        ]
    );
}

#[test]
fn service_scene_and_state_messages() {
    let mut svc = OledService::new();
    assert!(svc.handle(ServiceMsg::SetScene(Scene::Logo)).is_empty());
    assert_eq!(svc.handle(ServiceMsg::SetState(State::Idle)), vec![ServiceAction::SetPowerState(State::Idle)]);
    // Unpowered: the scene starts, nothing is sent to the display.
    assert_eq!(
        svc.handle(ServiceMsg::ForceSetScene(Scene::Logo)),
        vec![ServiceAction::StartScene(Scene::Logo)]
    );
    assert_eq!(svc.handle(ServiceMsg::Render), vec![ServiceAction::RenderScene]);
    assert!(svc.handle(ServiceMsg::SetBrightness(200)).is_empty());
    svc.handle(ServiceMsg::SetPower(true));
    let r = svc.handle(ServiceMsg::Render);
    assert_eq!(r[0], ServiceAction::RenderScene);
    assert_eq!(r.last(), Some(&ServiceAction::Driver(DriverAction::SendFrame)));
    assert_eq!(
        svc.handle(ServiceMsg::SetBrightness(255)),
        vec![
            ServiceAction::Driver(DriverAction::Command(contrast_commands(255)[0])),
            ServiceAction::Driver(DriverAction::Command(contrast_commands(255)[1])),
        ]
    );
}
