//! A minimal counter component.
//!
//! The smallest complete [`Component`](crate::component::Component): its
//! model is a saturating `u64` count, its inputs increment or decrement it,
//! and every update emits the new count as an output for a parent to
//! observe. It doubles as the reference instantiation the rest of the crate
//! is exercised with.

use vstd::prelude::*;

use crate::alert::AlertParent;
use crate::component::Component;
use crate::controller::OutputTransform;
use crate::traits::Model;

verus! {

/// Inputs the counter accepts.
#[derive(Clone, Copy, Debug, PartialEq, Eq, Structural)]
pub enum CounterInput {
    /// Add one to the count; saturates at `u64::MAX`.
    Increment,
    /// Subtract one from the count; saturates at zero.
    Decrement,
}

/// The counter's model: the current count.
#[derive(Clone, Copy, Debug, PartialEq, Eq, Structural)]
pub struct CounterModel {
    /// The current count.
    pub count: u64,
}

impl Component for CounterModel {
    type Init = u64;

    type Input = CounterInput;

    type Output = u64;

    type Widgets = ();

    open spec fn init_spec(init: u64) -> CounterModel {
        CounterModel { count: init }
    }

    open spec fn next_spec(self, input: CounterInput) -> CounterModel {
        match input {
            CounterInput::Increment => if self.count < u64::MAX {
                CounterModel { count: (self.count + 1) as u64 }
            } else {
                self
            },
            CounterInput::Decrement => if self.count > 0 {
                CounterModel { count: (self.count - 1) as u64 }
            } else {
                self
            },
        }
    }

    open spec fn outputs_spec(self, input: CounterInput) -> Seq<u64> {
        seq![self.next_spec(input).count]
    }

    fn init(init: u64) -> (model: CounterModel) {
        CounterModel { count: init }
    }

    fn update(&mut self, input: CounterInput) -> (out: Vec<u64>) {
        match input {
            CounterInput::Increment => {
                if self.count < u64::MAX {
                    self.count = self.count + 1;
                }
            },
            CounterInput::Decrement => {
                if self.count > 0 {
                    self.count = self.count - 1;
                }
            },
        }
        let mut out: Vec<u64> = Vec::new();
        out.push(self.count);
        proof {
            assert(out@ =~= old(self).outputs_spec(input));
        }
        out
    }
}

impl Model for CounterModel {
    type Msg = CounterInput;

    type Widgets = ();

    type Components = ();

    type Settings = u64;
}

impl AlertParent for CounterModel {
    open spec fn confirm_msg_spec() -> CounterInput {
        CounterInput::Increment
    }

    open spec fn cancel_msg_spec() -> CounterInput {
        CounterInput::Decrement
    }

    open spec fn option_msg_spec() -> CounterInput {
        CounterInput::Increment
    }

    fn confirm_msg() -> CounterInput {
        CounterInput::Increment
    }

    fn cancel_msg() -> CounterInput {
        CounterInput::Decrement
    }

    fn option_msg() -> CounterInput {
        CounterInput::Increment
    }
}

/// The transform of a counter parent that counts its children's updates:
/// every child output becomes one increment of the parent.
pub struct CountChildUpdates;

impl OutputTransform<u64, CounterInput> for CountChildUpdates {
    open spec fn transform_spec(&self, output: u64) -> CounterInput {
        CounterInput::Increment
    }

    fn transform(&self, _output: u64) -> CounterInput {
        CounterInput::Increment
    }
}

} // verus!
