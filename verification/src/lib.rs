pub mod into_state_machine;
pub mod lifecycle;
pub mod state_machine;

pub use into_state_machine::IntoStateMachine;
pub use lifecycle::{Request, Work};
pub use state_machine::{
    InitializedStateMachine, IntoStateMachineExt, StateMachine, UninitializedStateMachine,
};
