//! A grid and its pacer as one unit, driven by a front-end: one call per
//! rendered frame, and one per command of the user.

use crate::grid::{Grid, GridError};
use crate::model::GridModel;
use crate::pacer::{Pacer, PacerModel};
use vstd::prelude::*;

verus! {

/// What the user can ask of a running simulation.
#[derive(Clone, Copy, Debug, PartialEq, Eq)]
pub enum Command {
    /// Give every cell a random state.
    Randomize,
    /// End the program.
    Quit,
    /// Pause a running simulation, resume a paused one.
    TogglePause,
    /// Make every cell dead, and pause.
    Blank,
    /// More frames per generation.
    IncreaseRate,
    /// Fewer frames per generation.
    DecreaseRate,
    /// Flip the cell at `(x, y)`.
    ToggleCell { x: usize, y: usize },
}

/// What the front-end is to do after a command.
#[derive(Clone, Copy, Debug, PartialEq, Eq, Structural)]
pub enum Action {
    /// Go on with the next frame.
    Continue,
    /// Leave the frame loop.
    Quit,
}

/// A simulation as a mathematical object.
pub struct SimulationModel {
    pub grid: GridModel,
    pub pacer: PacerModel,
}

impl SimulationModel {
    /// Whether `command` can be carried out: all can, but to flip a cell
    /// that the grid does not have.
    pub open spec fn accepts(self, command: Command) -> bool {
        match command {
            Command::ToggleCell { x, y } => self.grid.in_bounds(x as int, y as int),
            _ => true,
        }
    }

    /// The simulation after one rendered frame: the pacer has counted it,
    /// and where a generation fell due the grid is one generation on.
    pub open spec fn frame(self) -> SimulationModel {
        SimulationModel {
            grid: if self.pacer.fires() {
                self.grid.step()
            } else {
                self.grid
            },
            pacer: self.pacer.tick(),
        }
    }

    /// The simulation with the cells of its grid given by `states`, row by
    /// row, and the pacer as it was.
    pub open spec fn randomized(self, states: Seq<bool>) -> SimulationModel {
        SimulationModel { grid: self.grid.filled(states), ..self }
    }

    /// The simulation after an accepted `command` other than `Randomize`.
    /// `Quit` changes nothing.
    pub open spec fn apply(self, command: Command) -> SimulationModel {
        match command {
            Command::Randomize | Command::Quit => self,
            Command::TogglePause => SimulationModel { pacer: self.pacer.toggle_pause(), ..self },
            Command::Blank => SimulationModel {
                grid: self.grid.cleared(),
                pacer: PacerModel { paused: true, ..self.pacer },
            },
            Command::IncreaseRate => SimulationModel { pacer: self.pacer.increase_rate(), ..self },
            Command::DecreaseRate => SimulationModel { pacer: self.pacer.decrease_rate(), ..self },
            Command::ToggleCell { x, y } => SimulationModel {
                grid: self.grid.toggle(x as int, y as int),
                ..self
            },
        }
    }
}

/// What follows `command`: to leave after `Quit`, to go on after any other.
pub open spec fn action_for(command: Command) -> Action {
    match command {
        Command::Quit => Action::Quit,
        _ => Action::Continue,
    }
}

/// A grid together with the pacer that says when it advances.
#[derive(Debug)]
pub struct Simulation {
    grid: Grid,
    pacer: Pacer,
}

impl View for Simulation {
    type V = SimulationModel;

    closed spec fn view(&self) -> SimulationModel {
        SimulationModel { grid: self.grid@, pacer: self.pacer@ }
    }
}

impl Simulation {
    /// Grid and pacer are both valid.
    pub closed spec fn wf(&self) -> bool {
        self.grid.wf() && self.pacer.wf()
    }

    /// A simulation of `grid`, paced by `pacer`.
    pub fn new(grid: Grid, pacer: Pacer) -> (simulation: Simulation)
        requires
            grid.wf(),
            pacer.wf(),
        ensures
            simulation.wf(),
            simulation@.grid == grid@,
            simulation@.pacer == pacer@,
    {
        Simulation { grid, pacer }
    }

    /// The grid, for reading.
    pub fn grid(&self) -> (grid: &Grid)
        ensures
            grid@ == self@.grid,
            self.wf() ==> grid.wf(),
    {
        &self.grid
    }

    /// The pacer, for reading.
    pub fn pacer(&self) -> (pacer: &Pacer)
        ensures
            pacer@ == self@.pacer,
            self.wf() ==> pacer.wf(),
    {
        &self.pacer
    }

    /// Takes one rendered frame: the pacer counts it, and the grid advances
    /// by one generation if one falls due. Says whether it did.
    pub fn on_frame(&mut self) -> (advanced: bool)
        requires
            old(self).wf(),
        ensures
            final(self).wf(),
            final(self)@ == old(self)@.frame(),
            advanced == old(self)@.pacer.fires(),
    {
        let due = self.pacer.on_frame();
        if due {
            self.grid.advance();
        }
        due
    }

    /// Gives every cell of the grid a state drawn from `rng`, one draw for
    /// each cell and row by row, and hands back the states in the order
    /// drawn. The pacer is not touched.
    pub fn randomize(&mut self, rng: &mut rand::rngs::StdRng) -> (drawn: Vec<bool>)
        requires
            old(self).wf(),
        ensures
            final(self).wf(),
            drawn@.len() == old(self)@.grid.width * old(self)@.grid.height,
            final(self)@ == old(self)@.randomized(drawn@),
    {
        self.grid.randomize(rng)
    }

    /// Carries out `command`, and says what the front-end is to do next.
    /// To flip a cell that the grid does not have is refused with
    /// `OutOfBounds`, and changes nothing. `Randomize` is a call of
    /// `randomize` whose draws are dropped: the grid is filled with one draw
    /// of `rng` for each cell, and the pacer is left alone. No other command
    /// draws from `rng`.
    pub fn apply(&mut self, command: Command, rng: &mut rand::rngs::StdRng) -> (r: Result<
        Action,
        GridError,
    >)
        requires
            old(self).wf(),
        ensures
            final(self).wf(),
            match r {
                Ok(action) => old(self)@.accepts(command) && action == action_for(command),
                Err(e) => !old(self)@.accepts(command) && e == GridError::OutOfBounds
                    && final(self)@ == old(self)@,
            },
            r.is_ok() && command != Command::Randomize ==> final(self)@ == old(self)@.apply(
                command
            ),
            command == Command::Randomize ==> exists|drawn: Seq<bool>|
                drawn.len() == old(self)@.grid.width * old(self)@.grid.height && final(self)@
                    == #[trigger] old(self)@.randomized(drawn),
    {
        match command {
            Command::Randomize => {
                let drawn = self.randomize(rng);
                assert(final(self)@ == old(self)@.randomized(drawn@));
                Ok(Action::Continue)
            },
            Command::Quit => Ok(Action::Quit),
            Command::TogglePause => {
                self.pacer.toggle_pause();
                Ok(Action::Continue)
            },
            Command::Blank => {
                self.grid.clear();
                if !self.pacer.is_paused() {
                    self.pacer.toggle_pause();
                }
                Ok(Action::Continue)
            },
            Command::IncreaseRate => {
                self.pacer.increase_rate();
                Ok(Action::Continue)
            },
            Command::DecreaseRate => {
                self.pacer.decrease_rate();
                Ok(Action::Continue)
            },
            Command::ToggleCell { x, y } => {
                match self.grid.toggle(x, y) {
                    Ok(()) => Ok(Action::Continue),
                    Err(e) => Err(e),
                }
            },
        }
    }
}

} // verus!
