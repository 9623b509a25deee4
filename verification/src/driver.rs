//! The process driver: one parser, one drag session and one virtual
//! pointer, fed line by line.
//!
//! The driver reads nothing and writes nothing.  It is handed each line
//! of the log and returns the batches that are due; at the end it returns
//! the commands that leave the button released and the device destroyed.

use vstd::prelude::*;
use crate::config::Configuration;
use crate::drag::{step_spec, Action, DragSession, DragState};
use crate::laws::law_button_follows_actions;
use crate::gesture::GestureRecord;
use crate::parser::{
    accepted,
    line_meaning,
    split_pieces,
    LineParser,
    ParseError,
    SetupError,
    DELIMITERS,
};
use crate::uinput_handler::{
    batch_of,
    down_after_all,
    release_batch,
    start_handler,
    Batch,
    BatchView,
    Command,
    CommandView,
    VirtualTrackpad,
};

verus! {

/// The batches as values.
pub open spec fn batch_views(batches: Seq<Batch>) -> Seq<BatchView> {
    batches.map_values(|batch: Batch| batch@)
}

/// The commands as values.
pub open spec fn command_views(commands: Seq<Command>) -> Seq<CommandView> {
    commands.map_values(|command: Command| command@)
}

/// The batches that carry out `actions`, one for each, in order.
pub open spec fn batches_of(actions: Seq<Action>) -> Seq<BatchView> {
    actions.map_values(|action: Action| batch_of(action))
}

/// What ends a run: one release at once, then the destruction of the
/// device.
pub open spec fn shutdown_commands() -> Seq<CommandView> {
    seq![CommandView::Emit(release_batch(0)), CommandView::Destroy]
}

/// The driver of one virtual pointer.
pub struct Driver {
    parser: LineParser,
    config: Configuration,
    session: DragSession,
    trackpad: VirtualTrackpad,
}

impl Driver {
    /// The configuration that the driver was set up with.
    pub closed spec fn config(&self) -> Configuration {
        self.config
    }

    /// The state of the drag.
    pub closed spec fn state(&self) -> DragState {
        self.session@
    }

    /// Whether the pointer's button is held.
    pub closed spec fn pointer_down(&self) -> bool {
        self.trackpad.is_down()
    }

    /// Whether the drag session and the virtual pointer agree on whether
    /// the button is held.
    pub open spec fn consistent(&self) -> bool {
        self.state().button_down == self.pointer_down()
    }

    /// A driver with the given parser: nothing accumulated, button up.
    pub fn with_parser(parser: LineParser, config: Configuration) -> (driver: Driver)
        ensures
            driver.config() == config,
            driver.state() == DragState::idle(),
            !driver.pointer_down(),
            driver.consistent(),
    {
        Driver { parser, config, session: DragSession::new(), trackpad: start_handler() }
    }

    /// Makes a driver of what setting up a parser gave: a driver with the
    /// parser, nothing accumulated and the button up, if there is a parser,
    /// and the reason why there is none if there is none.
    pub fn from_setup(parser: Result<LineParser, SetupError>, config: Configuration) -> (r: Result<
        Driver,
        SetupError,
    >)
        ensures
            match parser {
                Ok(_) => {
                    &&& r matches Ok(driver)
                    &&& driver.config() == config
                    &&& driver.state() == DragState::idle()
                    &&& !driver.pointer_down()
                    &&& driver.consistent()
                },
                Err(e) => r matches Err(reported) && reported == e,
            },
    {
        match parser {
            Ok(parser) => Ok(Driver::with_parser(parser, config)),
            Err(e) => Err(e),
        }
    }

    /// Sets up a parser and a driver with it.  This succeeds exactly if the
    /// pattern of the delimiters is accepted.
    pub fn new(config: Configuration) -> (r: Result<Driver, SetupError>)
        ensures
            r is Ok <==> accepted(DELIMITERS@),
            r matches Err(e) ==> e == SetupError::Pattern,
            r matches Ok(driver) ==> {
                &&& driver.config() == config
                &&& driver.state() == DragState::idle()
                &&& !driver.pointer_down()
                &&& driver.consistent()
            },
    {
        Driver::from_setup(LineParser::new(), config)
    }

    /// Whether the button is held, as the drag session sees it.
    pub fn button_down(&self) -> (down: bool)
        ensures
            down == self.state().button_down,
    {
        self.session.button_down()
    }

    /// Whether the button is held, as the virtual pointer sees it.
    pub fn mouse_is_down(&self) -> (down: bool)
        ensures
            down == self.pointer_down(),
    {
        self.trackpad.mouse_is_down()
    }

    /// Takes in what one line of the log means and returns the batches that
    /// are due, in order: one for each action that the drag state machine
    /// asks for.
    pub fn handle_record(&mut self, input: Option<GestureRecord>) -> (batches: Vec<Batch>)
        ensures
            final(self).config() == old(self).config(),
            final(self).state() == step_spec(old(self).state(), old(self).config(), input).0,
            batch_views(batches@) == batches_of(
                step_spec(old(self).state(), old(self).config(), input).1,
            ),
            final(self).pointer_down() == down_after_all(
                old(self).pointer_down(),
                step_spec(old(self).state(), old(self).config(), input).1,
            ),
            old(self).consistent() ==> final(self).consistent(),
    {
        proof {
            law_button_follows_actions(self.state(), self.config(), input);
        }
        let actions = self.session.step(&self.config, input);
        let mut batches: Vec<Batch> = Vec::new();
        let mut i: usize = 0;
        proof {
            assert(batch_views(batches@) =~= batches_of(actions@.take(0)));
        }
        while i < actions.len()
            invariant
                0 <= i <= actions@.len(),
                batch_views(batches@) == batches_of(actions@.take(i as int)),
                self.trackpad.is_down() == down_after_all(
                    old(self).trackpad.is_down(),
                    actions@.take(i as int),
                ),
                self.session@ == step_spec(old(self).state(), old(self).config(), input).0,
                actions@ == step_spec(old(self).state(), old(self).config(), input).1,
                self.config == old(self).config,
            decreases actions@.len() - i,
        {
            let ghost before = batches@;
            let batch = self.trackpad.perform(actions[i]);
            batches.push(batch);
            proof {
                let done = actions@.take(i + 1);
                assert(done.drop_last() =~= actions@.take(i as int));
                assert(batch_views(batches@) =~= batch_views(before).push(batch@));
                assert(batches_of(done) =~= batches_of(done.drop_last()).push(
                    batch_of(actions@[i as int]),
                ));
            }
            i = i + 1;
        }
        proof {
            assert(actions@.take(i as int) =~= actions@);
        }
        batches
    }

    /// Takes in one line of the log and returns the batches that are due.
    /// A gesture line that cannot be read changes nothing and is reported.
    pub fn handle_line(&mut self, line: &str) -> (r: Result<Vec<Batch>, ParseError>)
        ensures
            final(self).config() == old(self).config(),
            old(self).consistent() ==> final(self).consistent(),
            match line_meaning(line@, split_pieces(DELIMITERS@, line@)) {
                Ok(input) => {
                    &&& r matches Ok(batches)
                    &&& final(self).state() == step_spec(
                        old(self).state(),
                        old(self).config(),
                        input,
                    ).0
                    &&& batch_views(batches@) == batches_of(
                        step_spec(old(self).state(), old(self).config(), input).1,
                    )
                    &&& final(self).pointer_down() == down_after_all(
                        old(self).pointer_down(),
                        step_spec(old(self).state(), old(self).config(), input).1,
                    )
                },
                Err(e) => {
                    &&& r matches Err(reported)
                    &&& reported == e
                    &&& final(self).state() == old(self).state()
                    &&& final(self).pointer_down() == old(self).pointer_down()
                },
            },
    {
        match self.parser.parse_line(line) {
            Ok(input) => Ok(self.handle_record(input)),
            Err(e) => Err(e),
        }
    }

    /// Ends the run: whatever the state, the button is released once, at
    /// once, and the device is then destroyed once.
    pub fn finish(self) -> (commands: Vec<Command>)
        ensures
            command_views(commands@) == shutdown_commands(),
    {
        let mut trackpad = self.trackpad;
        let release = trackpad.mouse_up();
        let mut commands: Vec<Command> = Vec::new();
        commands.push(Command::Emit(release));
        commands.push(trackpad.dev_destroy());
        proof {
            assert(command_views(commands@) =~= shutdown_commands());
        }
        commands
    }
}

} // verus!
