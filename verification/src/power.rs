//! Power actions and the commands that carry them out.

use vstd::prelude::*;
use vstd::string::*;

use crate::event::{Action, ActionView};
use crate::greeter::{content, lemma_fields, Greeter, GreeterView, Mode};
use crate::menu::MenuItem;
use crate::text::{clone_option, chain, spec_split, split};

verus! {

/// What the machine is asked to do.
#[derive(Debug, Clone, Copy, PartialEq, Eq, Hash, Structural)]
pub enum PowerOption {
    Shutdown,
    Reboot,
}

impl Default for PowerOption {
    fn default() -> (r: PowerOption)
        ensures
            r == PowerOption::Shutdown,
    {
        PowerOption::Shutdown
    }
}

/// An entry of the power menu: an action, its label, and the command that is
/// configured for it, if any.
pub struct Power {
    pub action: PowerOption,
    pub label: String,
    pub command: Option<String>,
}

/// The mathematical content of a [`Power`].
pub struct PowerView {
    pub action: PowerOption,
    pub label: Seq<char>,
    pub command: Option<Seq<char>>,
}

impl View for Power {
    type V = PowerView;

    open spec fn view(&self) -> PowerView {
        PowerView { action: self.action, label: self.label@, command: self.command.deep_view() }
    }
}

impl DeepView for Power {
    type V = PowerView;

    open spec fn deep_view(&self) -> PowerView {
        self@
    }
}

impl Default for Power {
    fn default() -> (r: Power)
        ensures
            r@ == (PowerView { action: PowerOption::Shutdown, label: Seq::empty(), command: None }),
    {
        Power { action: PowerOption::Shutdown, label: String::new(), command: None }
    }
}

impl MenuItem for Power {
    open spec fn label(&self) -> Seq<char> {
        self.label@
    }

    fn format(&self) -> (r: String) {
        self.label.clone()
    }
}

/// A command to run: a program and its arguments. Its input and outputs are
/// not connected to anything.
pub struct PowerCommand {
    pub program: String,
    pub args: Vec<String>,
}

/// The mathematical content of a [`PowerCommand`].
pub struct PowerCommandView {
    pub program: Seq<char>,
    pub args: Seq<Seq<char>>,
}

impl View for PowerCommand {
    type V = PowerCommandView;

    open spec fn view(&self) -> PowerCommandView {
        PowerCommandView { program: self.program@, args: self.args.deep_view() }
    }
}

impl DeepView for PowerCommand {
    type V = PowerCommandView;

    open spec fn deep_view(&self) -> PowerCommandView {
        self@
    }
}

impl Power {
    /// An independent copy.
    pub fn duplicate(&self) -> (r: Power)
        ensures
            r@ == self@,
    {
        Power { action: self.action, label: self.label.clone(), command: clone_option(&self.command) }
    }
}

/// The first entry of a power menu whose action is `option`.
pub open spec fn find_power(options: Seq<PowerView>, option: PowerOption) -> Option<PowerView>
    decreases options.len(),
{
    if options.len() == 0 {
        None
    } else if options.first().action == option {
        Some(options.first())
    } else {
        find_power(options.drop_first(), option)
    }
}

/// The command that carries out a power action.
///
/// A command that is configured for the action is split at its spaces; it
/// is run through `setsid` if `setsid` is true, else its first word is the
/// program. With no command configured, `shutdown` is run with `-h` to shut
/// down or `-r` to reboot, and `now`.
pub open spec fn command_for(power: PowerView, option: PowerOption, setsid: bool) -> PowerCommandView {
    match power.command {
        Some(line) => {
            let words = spec_split(line, ' ');
            if setsid {
                PowerCommandView { program: "setsid"@, args: words }
            } else {
                PowerCommandView { program: words.first(), args: words.drop_first() }
            }
        },
        None => PowerCommandView {
            program: "shutdown"@,
            args: seq![
                match option {
                    PowerOption::Shutdown => "-h"@,
                    PowerOption::Reboot => "-r"@,
                },
                "now"@,
            ],
        },
    }
}

/// What a power action asks the surroundings to do: to run the command of
/// the first menu entry for that action, or nothing if the menu has no entry
/// for it.
pub open spec fn power_actions(g: GreeterView, option: PowerOption) -> Seq<ActionView> {
    match find_power(g.powers.options, option) {
        Some(power) => seq![ActionView::Power(command_for(power, option, g.power_setsid))],
        None => Seq::empty(),
    }
}

/// The first entry of the menu whose action is `option`.
fn find(options: &Vec<Power>, option: PowerOption) -> (r: Option<usize>)
    ensures
        match r {
            Some(index) => index < options.len() && find_power(options.deep_view(), option) == Some(
                options[index as int]@,
            ),
            None => find_power(options.deep_view(), option) is None,
        },
{
    let ghost all = options.deep_view();
    let mut i: usize = 0;
    assert(all.subrange(0, all.len() as int) == all);
    while i < options.len()
        invariant
            i <= options.len(),
            all == options.deep_view(),
            find_power(all.subrange(i as int, all.len() as int), option) == find_power(all, option),
        decreases options.len() - i,
    {
        let ghost rest = all.subrange(i as int, all.len() as int);
        assert(rest.first() == options[i as int]@);
        assert(rest.drop_first() == all.subrange(i + 1, all.len() as int));
        if options[i].action == option {
            return Some(i);
        }
        i += 1;
    }
    None
}

/// Builds the command that carries out a power action.
fn build(power: &Power, option: PowerOption, setsid: bool) -> (r: PowerCommand)
    ensures
        r@ == command_for(power@, option, setsid),
{
    match &power.command {
        Some(line) => {
            let mut words = split(line.as_str(), ' ');
            if setsid {
                PowerCommand { program: String::from_str("setsid"), args: words }
            } else {
                let ghost all = words.deep_view();
                let program = words.remove(0);
                assert(words.deep_view() =~= all.drop_first());
                PowerCommand { program, args: words }
            }
        },
        None => {
            let mut args: Vec<String> = Vec::new();
            args.push(
                String::from_str(
                    match option {
                        PowerOption::Shutdown => "-h",
                        PowerOption::Reboot => "-r",
                    },
                ),
            );
            args.push(String::from_str("now"));
            let r = PowerCommand { program: String::from_str("shutdown"), args };
            assert(r@.args =~= command_for(power@, option, setsid).args);
            r
        },
    }
}

/// Prepares a power action: the command for it is handed to the main loop,
/// which runs it without waiting for it here.
pub fn power(greeter: &Greeter, option: PowerOption) -> (actions: Vec<Action>)
    ensures
        actions.deep_view() == power_actions(greeter@, option),
{
    proof { reveal(content); }
    let mut actions: Vec<Action> = Vec::new();
    match find(&greeter.powers.options, option) {
        Some(index) => {
            let command = build(&greeter.powers.options[index], option, greeter.power_setsid);
            actions.push(Action::Power(command));
            assert(actions.deep_view() =~= power_actions(greeter@, option));
        },
        None => {
            assert(actions.deep_view() =~= power_actions(greeter@, option));
        },
    }
    actions
}

/// How a power command ended.
pub enum PowerOutcome {
    /// The command ran and reported success.
    Success,
    /// The command ran and reported a failure: `status` describes how it
    /// exited, `output` is what it wrote to its error stream.
    Failure { status: String, output: String },
    /// The command could not be run.
    Error { error: String },
}

/// The mathematical content of a [`PowerOutcome`].
pub enum PowerOutcomeView {
    Success,
    Failure { status: Seq<char>, output: Seq<char> },
    Error { error: Seq<char> },
}

impl View for PowerOutcome {
    type V = PowerOutcomeView;

    open spec fn view(&self) -> PowerOutcomeView {
        match self {
            PowerOutcome::Success => PowerOutcomeView::Success,
            PowerOutcome::Failure { status, output } => PowerOutcomeView::Failure {
                status: status@,
                output: output@,
            },
            PowerOutcome::Error { error } => PowerOutcomeView::Error { error: error@ },
        }
    }
}

impl GreeterView {
    /// The message that tells how a power command ended: nothing after a
    /// success; after a failure, how the command exited and, on a line of
    /// its own, what it wrote to its error stream; the error, if the command
    /// could not be run.
    pub open spec fn power_message(self, outcome: PowerOutcomeView) -> Option<Seq<char>> {
        match outcome {
            PowerOutcomeView::Success => None,
            PowerOutcomeView::Failure { status, output } => Some(
                self.messages.command_exited@ + " "@ + status + "\n"@ + output,
            ),
            PowerOutcomeView::Error { error } => Some(self.messages.command_failed@ + ": "@ + error),
        }
    }

    /// The state while a power command runs.
    pub open spec fn power_running(self) -> GreeterView {
        GreeterView { mode: Mode::Processing, ..self }
    }

    /// The state after a power command has ended: the previous mode, with
    /// the message that tells how it ended.
    pub open spec fn power_finished(self, outcome: PowerOutcomeView) -> GreeterView {
        (GreeterView {
            mode: self.previous_mode,
            message: self.power_message(outcome),
            ..self
        }).clamp_cursor()
    }
}

/// The message that tells how a power command ended.
fn outcome_message(greeter: &Greeter, outcome: &PowerOutcome) -> (r: Option<String>)
    ensures
        r.deep_view() == greeter@.power_message(outcome@),
{
    proof {
        reveal(content);
    }
    match outcome {
        PowerOutcome::Success => None,
        PowerOutcome::Failure { status, output } => {
            let mut message = chain(greeter.messages.command_exited.as_str(), " ");
            message.append(status.as_str());
            message.append("\n");
            message.append(output.as_str());
            Some(message)
        },
        PowerOutcome::Error { error } => {
            let mut message = chain(greeter.messages.command_failed.as_str(), ": ");
            message.append(error.as_str());
            Some(message)
        },
    }
}

/// Enters the `Processing` mode for the time that a power command runs.
pub fn run(greeter: &mut Greeter)
    ensures
        final(greeter)@ == old(greeter)@.power_running(),
{
    greeter.set_mode(Mode::Processing);
}

/// Takes in how the power command ended: the application returns to the
/// previous mode and shows what went wrong, if anything.
pub fn finish(greeter: &mut Greeter, outcome: PowerOutcome)
    ensures
        final(greeter)@ == old(greeter)@.power_finished(outcome@),
{
    let message = outcome_message(greeter, &outcome);
    restore(greeter, message);
    greeter.clamp_cursor();
}

/// Returns to the previous mode, with a message.
fn restore(greeter: &mut Greeter, message: Option<String>)
    ensures
        final(greeter)@ == (GreeterView {
            mode: old(greeter)@.previous_mode,
            message: message.deep_view(),
            ..old(greeter)@
        }),
{
    proof {
        lemma_fields(*greeter);
    }
    greeter.set_mode(greeter.previous_mode);
    greeter.set_message(message);
}

} // verus!
