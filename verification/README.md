# statig (verified core of the awaitable state machines)

`src/` is verified with Verus:

- `into_state_machine.rs`: the `IntoStateMachine` trait that a user's storage
  type implements (state type and initial state).
- `state_machine.rs`: `StateMachine` (lazily initialized), `InitializedStateMachine`,
  `UninitializedStateMachine` and the `IntoStateMachineExt` constructors, with
  their `Clone`, `PartialEq`, `Default`, `Deref` and `DerefMut` impls.
- `lifecycle.rs`: the decisions of lazy initialization (which work a request
  needs, what follows a completed piece of work) and the laws proved about them.

`app/` awaits the user's entry actions and event handlers, following the
decisions of the library, and holds the serde and bevy integrations.
