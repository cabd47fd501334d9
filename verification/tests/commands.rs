//! The control loop's command handling, end to end over plan and commit.

use jack_rust_mixer::errors::MixerCommandError;
use jack_rust_mixer::registry::{MixerCommand, MixerResponse, Registry};
use jack_rust_mixer::strip::{PortAction, PortDirection};

/// Runs one command to completion: decide, (the engine calls would run here,)
/// then make it permanent.
fn apply(
    reg: &mut Registry,
    cmd: &MixerCommand,
) -> Result<(MixerResponse, Vec<PortAction>), MixerCommandError> {
    let (resp, acts) = reg.plan(cmd)?;
    reg.commit(cmd);
    Ok((resp, acts))
}

fn state_lines(reg: &Registry) -> Vec<String> {
    match reg.plan(&MixerCommand::GetState) {
        Ok((MixerResponse::STATE(lines), acts)) => {
            assert!(acts.is_empty());
            lines
        }
        _ => panic!("state query failed"),
    }
}

fn reg_act(direction: PortDirection, index: usize) -> PortAction {
    PortAction::Register { direction, index }
}

fn unreg_act(direction: PortDirection, index: usize) -> PortAction {
    PortAction::Unregister { direction, index }
}

#[test]
fn empty_registry_reports_nothing() {
    let reg = Registry::new();
    assert_eq!(state_lines(&reg), Vec::<String>::new());
}

#[test]
fn add_strip_plans_default_pairs() {
    let mut reg = Registry::new();
    let (resp, acts) = apply(&mut reg, &MixerCommand::AddStrip("music".to_string())).unwrap();
    assert!(matches!(resp, MixerResponse::EMPTY));
    assert_eq!(
        acts,
        vec![
            reg_act(PortDirection::Input, 1),
            reg_act(PortDirection::Output, 1),
            reg_act(PortDirection::Input, 2),
            reg_act(PortDirection::Output, 2),
        ]
    );
    assert_eq!(state_lines(&reg), vec!["music: channels: 2 gain-factor: 1".to_string()]);
}

#[test]
fn gain_roundtrip_all_percentages() {
    // Every allowed gain, set and then read back through the state report.
    let mut reg = Registry::new();
    apply(&mut reg, &MixerCommand::AddStrip("music".to_string())).unwrap();
    for g in 0u32..=200 {
        apply(&mut reg, &MixerCommand::SetGainFactor("music".to_string(), g)).unwrap();
        let expected = format!("music: channels: 2 gain-factor: {}", g as f32 / 100.0);
        assert_eq!(state_lines(&reg), vec![expected], "gain {}", g);
    }
}

#[test]
fn gain_out_of_range_rejected() {
    let mut reg = Registry::new();
    apply(&mut reg, &MixerCommand::AddStrip("music".to_string())).unwrap();
    let r = reg.plan(&MixerCommand::SetGainFactor("music".to_string(), 201));
    assert!(matches!(r, Err(MixerCommandError::InvalidArgument)));
    // The registry is untouched.
    assert_eq!(state_lines(&reg), vec!["music: channels: 2 gain-factor: 1".to_string()]);
}

#[test]
fn gain_on_unknown_strip_rejected() {
    let mut reg = Registry::new();
    let r = reg.plan(&MixerCommand::SetGainFactor("music".to_string(), 50));
    match r {
        Err(MixerCommandError::UnknownStrip { name }) => assert_eq!(name, "music"),
        _ => panic!("expected an unknown-strip error"),
    }
}

#[test]
fn set_channels_is_idempotent() {
    let mut reg = Registry::new();
    apply(&mut reg, &MixerCommand::AddStrip("music".to_string())).unwrap();
    let cmd = MixerCommand::SetChannels("music".to_string(), 5);
    let (_, first) = apply(&mut reg, &cmd).unwrap();
    assert_eq!(first.len(), 6);
    // The second identical call performs zero register/unregister operations.
    let (_, second) = apply(&mut reg, &cmd).unwrap();
    assert_eq!(second, vec![]);
    assert_eq!(state_lines(&reg), vec!["music: channels: 5 gain-factor: 1".to_string()]);
}

#[test]
fn set_channels_out_of_range_rejected() {
    let mut reg = Registry::new();
    apply(&mut reg, &MixerCommand::AddStrip("music".to_string())).unwrap();
    let r = reg.plan(&MixerCommand::SetChannels("music".to_string(), -1));
    assert!(matches!(r, Err(MixerCommandError::InvalidArgument)));
    let r = reg.plan(&MixerCommand::SetChannels("music".to_string(), 101));
    assert!(matches!(r, Err(MixerCommandError::InvalidArgument)));
}

#[test]
fn set_channels_on_unknown_strip_rejected() {
    let reg = Registry::new();
    let r = reg.plan(&MixerCommand::SetChannels("music".to_string(), 2));
    match r {
        Err(MixerCommandError::UnknownStrip { name }) => assert_eq!(name, "music"),
        _ => panic!("expected an unknown-strip error"),
    }
}

#[test]
fn remove_strip_unregisters_every_pair() {
    let mut reg = Registry::new();
    apply(&mut reg, &MixerCommand::AddStrip("music".to_string())).unwrap();
    apply(&mut reg, &MixerCommand::SetChannels("music".to_string(), 3)).unwrap();
    let (_, acts) = apply(&mut reg, &MixerCommand::RemoveStrip("music".to_string())).unwrap();
    // Three pairs leave: exactly six unregistrations, last pair first.
    assert_eq!(
        acts,
        vec![
            unreg_act(PortDirection::Input, 3),
            unreg_act(PortDirection::Output, 3),
            unreg_act(PortDirection::Input, 2),
            unreg_act(PortDirection::Output, 2),
            unreg_act(PortDirection::Input, 1),
            unreg_act(PortDirection::Output, 1),
        ]
    );
    assert_eq!(state_lines(&reg), Vec::<String>::new());
}

#[test]
fn remove_unknown_strip_rejected() {
    let reg = Registry::new();
    let r = reg.plan(&MixerCommand::RemoveStrip("music".to_string()));
    match r {
        Err(MixerCommandError::UnknownStrip { name }) => assert_eq!(name, "music"),
        _ => panic!("expected an unknown-strip error"),
    }
}

#[test]
fn add_existing_strip_rejected_and_unchanged() {
    let mut reg = Registry::new();
    apply(&mut reg, &MixerCommand::AddStrip("music".to_string())).unwrap();
    apply(&mut reg, &MixerCommand::SetGainFactor("music".to_string(), 150)).unwrap();
    apply(&mut reg, &MixerCommand::SetChannels("music".to_string(), 7)).unwrap();
    let before = state_lines(&reg);
    let r = reg.plan(&MixerCommand::AddStrip("music".to_string()));
    match r {
        Err(MixerCommandError::AlreadyExists { name }) => assert_eq!(name, "music"),
        _ => panic!("expected an already-exists error"),
    }
    // The existing strip's gain and channels are unchanged.
    assert_eq!(state_lines(&reg), before);
    assert_eq!(before, vec!["music: channels: 7 gain-factor: 1.5".to_string()]);
}

#[test]
fn several_strips_report_in_order() {
    let mut reg = Registry::new();
    apply(&mut reg, &MixerCommand::AddStrip("music".to_string())).unwrap();
    apply(&mut reg, &MixerCommand::AddStrip("voice".to_string())).unwrap();
    apply(&mut reg, &MixerCommand::SetGainFactor("voice".to_string(), 75)).unwrap();
    assert_eq!(
        state_lines(&reg),
        vec![
            "music: channels: 2 gain-factor: 1".to_string(),
            "voice: channels: 2 gain-factor: 0.75".to_string(),
        ]
    );
    assert_eq!(reg.names(), vec!["music".to_string(), "voice".to_string()]);
}

#[test]
fn end_to_end_scenario() {
    // Start with one strip: music, gain 1.0, two channels.
    let mut reg = Registry::new();
    apply(&mut reg, &MixerCommand::AddStrip("music".to_string())).unwrap();
    assert_eq!(state_lines(&reg), vec!["music: channels: 2 gain-factor: 1".to_string()]);

    // Halve the gain.
    apply(&mut reg, &MixerCommand::SetGainFactor("music".to_string(), 50)).unwrap();
    assert_eq!(state_lines(&reg), vec!["music: channels: 2 gain-factor: 0.5".to_string()]);

    // Grow to four channels: exactly two new pairs are registered.
    let (_, acts) = apply(&mut reg, &MixerCommand::SetChannels("music".to_string(), 4)).unwrap();
    assert_eq!(
        acts,
        vec![
            reg_act(PortDirection::Input, 3),
            reg_act(PortDirection::Output, 3),
            reg_act(PortDirection::Input, 4),
            reg_act(PortDirection::Output, 4),
        ]
    );
    assert_eq!(state_lines(&reg), vec!["music: channels: 4 gain-factor: 0.5".to_string()]);

    // Remove the strip: all eight ports are unregistered, the registry is empty.
    let (_, acts) = apply(&mut reg, &MixerCommand::RemoveStrip("music".to_string())).unwrap();
    assert_eq!(acts.len(), 8);
    assert!(acts.iter().all(|a| matches!(a, PortAction::Unregister { .. })));
    assert_eq!(state_lines(&reg), Vec::<String>::new());

    // The name is gone: setting its gain now fails.
    let r = reg.plan(&MixerCommand::SetGainFactor("music".to_string(), 50));
    match r {
        Err(MixerCommandError::UnknownStrip { name }) => assert_eq!(name, "music"),
        _ => panic!("expected an unknown-strip error"),
    }
}

#[test]
fn counts_are_always_explicit_targets() {
    // After every completed command, each strip's reported channel count is a
    // value some command explicitly asked for: the add default or a
    // set-channels target, never an intermediate step.
    let mut reg = Registry::new();
    let targets = [2usize, 9, 1, 0, 100, 42];
    apply(&mut reg, &MixerCommand::AddStrip("music".to_string())).unwrap();
    let mut seen = vec![2usize];
    for t in [9i32, 1, 0, 100, 42] {
        apply(&mut reg, &MixerCommand::SetChannels("music".to_string(), t)).unwrap();
        seen.push(t as usize);
        let lines = state_lines(&reg);
        assert_eq!(lines.len(), 1);
        let count: usize = lines[0]
            .split("channels: ")
            .nth(1)
            .unwrap()
            .split(' ')
            .next()
            .unwrap()
            .parse()
            .unwrap();
        assert!(targets.contains(&count));
        assert_eq!(count, *seen.last().unwrap());
    }
}
