//! Arrangement of the two outputs of a dockable machine: the built-in panel
//! and the external display. At most one of them is lit at a time; when both
//! are plugged in, the external display wins.

use vstd::prelude::*;

verus! {

/// One of the two ports the policy knows by name.
#[derive(Clone, Copy, Debug, PartialEq, Eq, Structural)]
pub enum Port {
    /// The built-in panel.
    Primary,
    /// The external display.
    Secondary,
}

/// What the host reports about one connector.
#[derive(Clone, Copy, Debug, PartialEq, Eq, Structural)]
pub struct Connector {
    pub connected: bool,
    pub enabled: bool,
    pub x: i32,
    pub y: i32,
}

/// The state of both connectors, queried afresh before every arrangement.
#[derive(Clone, Copy, Debug, PartialEq, Eq, Structural)]
pub struct Outputs {
    pub primary: Connector,
    pub secondary: Connector,
}

/// A request to the host to change one connector.
#[derive(Clone, Copy, Debug, PartialEq, Eq, Structural)]
pub enum OutputCommand {
    SetEnabled { port: Port, enabled: bool },
    SetPosition { port: Port, x: i32, y: i32 },
}

/// Which rule of the policy applies to a pair of connection flags.
#[derive(Clone, Copy, Debug, PartialEq, Eq, Structural)]
pub enum Branch {
    /// Both connected: the secondary is lit, the primary is switched off.
    Both,
    /// Only the primary is connected: it is lit.
    PrimaryOnly,
    /// Only the secondary is connected: it is lit.
    SecondaryOnly,
    /// Nothing is connected: nothing is touched.
    Neither,
}

impl Port {
    /// The name under which the host knows the port.
    pub open spec fn name_spec(self) -> Seq<char> {
        match self {
            Port::Primary => "eDP-1"@,
            Port::Secondary => "HDMI-A-1"@,
        }
    }

    /// The name under which the host knows the port.
    pub fn name(self) -> (r: &'static str)
        ensures
            r@ == self.name_spec(),
    {
        match self {
            Port::Primary => "eDP-1",
            Port::Secondary => "HDMI-A-1",
        }
    }
}

impl Connector {
    /// A connector shows a picture when it is both plugged in and enabled.
    pub open spec fn lit(self) -> bool {
        self.connected && self.enabled
    }

    /// The connector with its enabled flag set as given.
    pub open spec fn with_enabled(self, enabled: bool) -> Connector {
        Connector { enabled, ..self }
    }

    /// The connector moved to a position.
    pub open spec fn at(self, x: i32, y: i32) -> Connector {
        Connector { x, y, ..self }
    }

    /// Whether the connector shows a picture.
    pub fn is_lit(&self) -> (r: bool)
        ensures
            r == self.lit(),
    {
        self.connected && self.enabled
    }
}

impl Branch {
    /// The rule for a pair of connection flags.
    pub open spec fn of(primary_connected: bool, secondary_connected: bool) -> Branch {
        if primary_connected && secondary_connected {
            Branch::Both
        } else if primary_connected {
            Branch::PrimaryOnly
        } else if secondary_connected {
            Branch::SecondaryOnly
        } else {
            Branch::Neither
        }
    }

    /// The commands of each rule, in the order in which they are issued.
    pub open spec fn plan(self) -> Seq<OutputCommand> {
        match self {
            Branch::Both => seq![
                OutputCommand::SetEnabled { port: Port::Secondary, enabled: true },
                OutputCommand::SetPosition { port: Port::Secondary, x: 0, y: 0 },
                OutputCommand::SetEnabled { port: Port::Primary, enabled: false },
            ],
            Branch::PrimaryOnly => seq![
                OutputCommand::SetEnabled { port: Port::Primary, enabled: true },
                OutputCommand::SetPosition { port: Port::Primary, x: 0, y: 0 },
            ],
            Branch::SecondaryOnly => seq![
                OutputCommand::SetEnabled { port: Port::Secondary, enabled: true },
                OutputCommand::SetPosition { port: Port::Secondary, x: 0, y: 0 },
            ],
            Branch::Neither => Seq::empty(),
        }
    }
}

/// Picks the rule for a pair of connection flags.
pub fn classify(primary_connected: bool, secondary_connected: bool) -> (r: Branch)
    ensures
        r == Branch::of(primary_connected, secondary_connected),
{
    if primary_connected && secondary_connected {
        Branch::Both
    } else if primary_connected {
        Branch::PrimaryOnly
    } else if secondary_connected {
        Branch::SecondaryOnly
    } else {
        Branch::Neither
    }
}

impl Outputs {
    /// The rule that applies to this state.
    pub open spec fn branch(self) -> Branch {
        Branch::of(self.primary.connected, self.secondary.connected)
    }

    /// The state once the host has carried out one command.
    pub open spec fn after(self, command: OutputCommand) -> Outputs {
        match command {
            OutputCommand::SetEnabled { port: Port::Primary, enabled } => Outputs {
                primary: self.primary.with_enabled(enabled),
                ..self
            },
            OutputCommand::SetEnabled { port: Port::Secondary, enabled } => Outputs {
                secondary: self.secondary.with_enabled(enabled),
                ..self
            },
            OutputCommand::SetPosition { port: Port::Primary, x, y } => Outputs {
                primary: self.primary.at(x, y),
                ..self
            },
            OutputCommand::SetPosition { port: Port::Secondary, x, y } => Outputs {
                secondary: self.secondary.at(x, y),
                ..self
            },
        }
    }

    /// The state once the host has carried out the commands from first to
    /// last.
    pub open spec fn after_all(self, commands: Seq<OutputCommand>) -> Outputs
        decreases commands.len(),
    {
        if commands.len() == 0 {
            self
        } else {
            self.after_all(commands.drop_last()).after(commands.last())
        }
    }

    /// The state the policy aims for, written out rule by rule.
    pub open spec fn arranged(self) -> Outputs {
        match self.branch() {
            Branch::Both => Outputs {
                primary: self.primary.with_enabled(false),
                secondary: self.secondary.with_enabled(true).at(0, 0),
            },
            Branch::PrimaryOnly => Outputs {
                primary: self.primary.with_enabled(true).at(0, 0),
                secondary: self.secondary,
            },
            Branch::SecondaryOnly => Outputs {
                primary: self.primary,
                secondary: self.secondary.with_enabled(true).at(0, 0),
            },
            Branch::Neither => self,
        }
    }

    /// How many of the two connectors show a picture.
    pub open spec fn lit_count(self) -> nat {
        (if self.primary.lit() { 1nat } else { 0nat })
            + (if self.secondary.lit() { 1nat } else { 0nat })
    }

    /// How many of the two connectors carry the enabled flag, plugged in or
    /// not.
    pub open spec fn enabled_count(self) -> nat {
        (if self.primary.enabled { 1nat } else { 0nat })
            + (if self.secondary.enabled { 1nat } else { 0nat })
    }

    /// No connector is enabled while unplugged.
    pub open spec fn settled(self) -> bool {
        &&& self.primary.enabled ==> self.primary.connected
        &&& self.secondary.enabled ==> self.secondary.connected
    }

    /// Carries out one command on this copy of the state, as the host would.
    pub fn apply(&mut self, command: OutputCommand)
        ensures
            *final(self) == old(self).after(command),
    {
        match command {
            OutputCommand::SetEnabled { port: Port::Primary, enabled } => {
                self.primary.enabled = enabled;
            },
            OutputCommand::SetEnabled { port: Port::Secondary, enabled } => {
                self.secondary.enabled = enabled;
            },
            OutputCommand::SetPosition { port: Port::Primary, x, y } => {
                self.primary.x = x;
                self.primary.y = y;
            },
            OutputCommand::SetPosition { port: Port::Secondary, x, y } => {
                self.secondary.x = x;
                self.secondary.y = y;
            },
        }
    }

    /// Carries out the commands from first to last.
    pub fn apply_all(&mut self, commands: &Vec<OutputCommand>)
        ensures
            *final(self) == old(self).after_all(commands@),
    {
        let ghost start = *self;
        let mut i: usize = 0;
        while i < commands.len()
            invariant
                i <= commands.len(),
                *self == start.after_all(commands@.take(i as int)),
            decreases commands.len() - i,
        {
            proof {
                let upto = commands@.take(i + 1);
                assert(upto.drop_last() == commands@.take(i as int));
                assert(upto.last() == commands@[i as int]);
            }
            self.apply(commands[i]);
            i += 1;
        }
        proof {
            assert(commands@.take(i as int) == commands@);
        }
    }
}

/// The effect of each rule's commands is the state the rule aims for.
pub proof fn lemma_plan_reaches_arranged(outputs: Outputs)
    ensures
        outputs.after_all(outputs.branch().plan()) == outputs.arranged(),
{
    let plan = outputs.branch().plan();
    reveal_with_fuel(Outputs::after_all, 4);
    if plan.len() == 3 {
        assert(plan.drop_last() == seq![plan[0], plan[1]]);
        assert(plan.drop_last().drop_last() == seq![plan[0]]);
        assert(plan.drop_last().drop_last().drop_last() == Seq::<OutputCommand>::empty());
    } else if plan.len() == 2 {
        assert(plan.drop_last() == seq![plan[0]]);
        assert(plan.drop_last().drop_last() == Seq::<OutputCommand>::empty());
    }
}

impl Branch {
    /// The commands of the rule, in the order in which they are issued.
    pub fn commands(self) -> (commands: Vec<OutputCommand>)
        ensures
            commands@ == self.plan(),
    {
        let lit_secondary = OutputCommand::SetEnabled { port: Port::Secondary, enabled: true };
        let place_secondary = OutputCommand::SetPosition { port: Port::Secondary, x: 0, y: 0 };
        let lit_primary = OutputCommand::SetEnabled { port: Port::Primary, enabled: true };
        let place_primary = OutputCommand::SetPosition { port: Port::Primary, x: 0, y: 0 };
        let dark_primary = OutputCommand::SetEnabled { port: Port::Primary, enabled: false };
        let commands = match self {
            Branch::Both => vec![lit_secondary, place_secondary, dark_primary],
            Branch::PrimaryOnly => vec![lit_primary, place_primary],
            Branch::SecondaryOnly => vec![lit_secondary, place_secondary],
            Branch::Neither => Vec::new(),
        };
        assert(commands@ =~= self.plan());
        commands
    }
}

/// Recomputes the layout from the connectors' current state.
///
/// The commands depend on the two connection flags alone, and carrying them
/// out leaves the connectors as the applicable rule prescribes.
pub fn arrange_outputs(outputs: &Outputs) -> (commands: Vec<OutputCommand>)
    ensures
        commands@ == outputs.branch().plan(),
        outputs.after_all(commands@) == outputs.arranged(),
{
    proof {
        lemma_plan_reaches_arranged(*outputs);
    }
    classify(outputs.primary.connected, outputs.secondary.connected).commands()
}

/// Arranging is idempotent: as long as no connector is plugged or unplugged
/// in between, a second arrangement issues the same commands as the first
/// and leaves every position and every enabled flag where the first put it.
pub proof fn lemma_arrangement_idempotent(outputs: Outputs)
    ensures
        outputs.arranged().branch() == outputs.branch(),
        outputs.arranged().arranged() == outputs.arranged(),
        outputs.arranged().after_all(outputs.arranged().branch().plan()) == outputs.arranged(),
{
    lemma_plan_reaches_arranged(outputs.arranged());
}

/// Arranging is total: whatever the two connection flags, exactly one of the
/// four rules applies, and afterwards at most one connector shows a picture:
/// exactly one when something is connected, none when nothing is.
pub proof fn lemma_arrangement_total(outputs: Outputs)
    ensures
        (outputs.branch() == Branch::Both) == (outputs.primary.connected
            && outputs.secondary.connected),
        (outputs.branch() == Branch::PrimaryOnly) == (outputs.primary.connected
            && !outputs.secondary.connected),
        (outputs.branch() == Branch::SecondaryOnly) == (!outputs.primary.connected
            && outputs.secondary.connected),
        (outputs.branch() == Branch::Neither) == (!outputs.primary.connected
            && !outputs.secondary.connected),
        outputs.arranged().lit_count() <= 1,
        outputs.arranged().lit_count() == 0 <==> outputs.branch() == Branch::Neither,
{
}

/// Counted by the enabled flag alone, at most one connector ends enabled,
/// and none when nothing is connected, provided that no connector was left
/// enabled while unplugged: the rules do not touch an unplugged connector.
pub proof fn lemma_at_most_one_enabled(outputs: Outputs)
    requires
        outputs.settled(),
    ensures
        outputs.arranged().settled(),
        outputs.arranged().enabled_count() <= 1,
        outputs.branch() == Branch::Neither ==> outputs.arranged().enabled_count() == 0,
{
}

} // verus!
