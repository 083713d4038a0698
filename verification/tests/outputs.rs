use compositor_policy::outputs::arrange_outputs;
use compositor_policy::outputs::classify;
use compositor_policy::outputs::Branch;
use compositor_policy::outputs::Connector;
use compositor_policy::outputs::OutputCommand;
use compositor_policy::outputs::Outputs;
use compositor_policy::outputs::Port;

fn connector(connected: bool, enabled: bool, x: i32, y: i32) -> Connector {
    Connector { connected, enabled, x, y }
}

fn arranged(mut outputs: Outputs) -> Outputs {
    let commands = arrange_outputs(&outputs);
    outputs.apply_all(&commands);
    outputs
}

#[test]
fn secondary_connects_while_primary_is_unplugged() {
    let before = Outputs {
        primary: connector(false, false, 0, 0),
        secondary: connector(true, false, 1920, 0),
    };
    let commands = arrange_outputs(&before);
    assert_eq!(
        commands,
        vec![
            OutputCommand::SetEnabled { port: Port::Secondary, enabled: true },
            OutputCommand::SetPosition { port: Port::Secondary, x: 0, y: 0 },
        ]
    );
    let after = arranged(before);
    assert_eq!(after.secondary, connector(true, true, 0, 0));
    assert!(!after.primary.enabled);
    assert!(!after.primary.is_lit());
}

#[test]
fn unplugged_primary_is_left_alone_but_dark() {
    let before = Outputs {
        primary: connector(false, true, 7, 9),
        secondary: connector(true, false, 1920, 0),
    };
    let after = arranged(before);
    assert_eq!(after.primary, connector(false, true, 7, 9));
    assert!(!after.primary.is_lit());
    assert!(after.secondary.is_lit());
}

#[test]
fn both_connected_secondary_wins() {
    let before = Outputs {
        primary: connector(true, true, 0, 0),
        secondary: connector(true, false, 1920, 40),
    };
    let commands = arrange_outputs(&before);
    assert_eq!(
        commands,
        vec![
            OutputCommand::SetEnabled { port: Port::Secondary, enabled: true },
            OutputCommand::SetPosition { port: Port::Secondary, x: 0, y: 0 },
            OutputCommand::SetEnabled { port: Port::Primary, enabled: false },
        ]
    );
    let after = arranged(before);
    assert_eq!(after.secondary, connector(true, true, 0, 0));
    assert_eq!(after.primary, connector(true, false, 0, 0));
}

#[test]
fn only_primary_connected() {
    let before = Outputs {
        primary: connector(true, false, 300, 200),
        secondary: connector(false, false, 5, 6),
    };
    let commands = arrange_outputs(&before);
    assert_eq!(
        commands,
        vec![
            OutputCommand::SetEnabled { port: Port::Primary, enabled: true },
            OutputCommand::SetPosition { port: Port::Primary, x: 0, y: 0 },
        ]
    );
    let after = arranged(before);
    assert_eq!(after.primary, connector(true, true, 0, 0));
    assert_eq!(after.secondary, connector(false, false, 5, 6));
}

#[test]
fn nothing_connected_nothing_done() {
    let before = Outputs {
        primary: connector(false, true, 1, 2),
        secondary: connector(false, true, 3, 4),
    };
    assert_eq!(arrange_outputs(&before), vec![]);
    assert_eq!(arranged(before), before);
}

#[test]
fn classify_covers_the_four_cases() {
    assert_eq!(classify(true, true), Branch::Both);
    assert_eq!(classify(true, false), Branch::PrimaryOnly);
    assert_eq!(classify(false, true), Branch::SecondaryOnly);
    assert_eq!(classify(false, false), Branch::Neither);
}

#[test]
fn arranging_twice_changes_nothing_more() {
    for primary_connected in [false, true] {
        for secondary_connected in [false, true] {
            for primary_enabled in [false, true] {
                for secondary_enabled in [false, true] {
                    let before = Outputs {
                        primary: connector(primary_connected, primary_enabled, 11, -4),
                        secondary: connector(secondary_connected, secondary_enabled, -8, 30),
                    };
                    let once = arranged(before);
                    let twice = arranged(once);
                    assert_eq!(once, twice);
                    assert_eq!(arrange_outputs(&before), arrange_outputs(&once));
                }
            }
        }
    }
}

#[test]
fn at_most_one_output_is_lit() {
    for primary_connected in [false, true] {
        for secondary_connected in [false, true] {
            for primary_enabled in [false, true] {
                for secondary_enabled in [false, true] {
                    let after = arranged(Outputs {
                        primary: connector(primary_connected, primary_enabled, 0, 0),
                        secondary: connector(secondary_connected, secondary_enabled, 0, 0),
                    });
                    let lit = [after.primary.is_lit(), after.secondary.is_lit()];
                    let count = lit.iter().filter(|l| **l).count();
                    if primary_connected || secondary_connected {
                        assert_eq!(count, 1);
                    } else {
                        assert_eq!(count, 0);
                    }
                }
            }
        }
    }
}

#[test]
fn settled_outputs_keep_at_most_one_enabled_flag() {
    for primary_connected in [false, true] {
        for secondary_connected in [false, true] {
            let after = arranged(Outputs {
                primary: connector(primary_connected, primary_connected, 0, 0),
                secondary: connector(secondary_connected, secondary_connected, 0, 0),
            });
            assert!(!(after.primary.enabled && after.secondary.enabled));
            if !primary_connected && !secondary_connected {
                assert!(!after.primary.enabled && !after.secondary.enabled);
            }
        }
    }
}

#[test]
fn apply_changes_one_connector_only() {
    let mut outputs = Outputs {
        primary: connector(true, true, 1, 2),
        secondary: connector(true, true, 3, 4),
    };
    outputs.apply(OutputCommand::SetPosition { port: Port::Primary, x: -5, y: 6 });
    assert_eq!(outputs.primary, connector(true, true, -5, 6));
    assert_eq!(outputs.secondary, connector(true, true, 3, 4));
    outputs.apply(OutputCommand::SetEnabled { port: Port::Secondary, enabled: false });
    assert_eq!(outputs.secondary, connector(true, false, 3, 4));
}

#[test]
fn branch_commands_are_the_arrangement() {
    for primary_connected in [false, true] {
        for secondary_connected in [false, true] {
            let outputs = Outputs {
                primary: connector(primary_connected, true, 1, 1),
                secondary: connector(secondary_connected, true, 2, 2),
            };
            assert_eq!(
                classify(primary_connected, secondary_connected).commands(),
                arrange_outputs(&outputs)
            );
        }
    }
    assert_eq!(Branch::Neither.commands(), vec![]);
    assert_eq!(Branch::PrimaryOnly.commands().len(), 2);
}

#[test]
fn port_names() {
    assert_eq!(Port::Primary.name(), "eDP-1");
    assert_eq!(Port::Secondary.name(), "HDMI-A-1");
}
