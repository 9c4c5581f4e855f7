use gamepad_core::{
    BridgeError, Buttons, GamepadBridge, GamepadState, InputError, InputSource, OutputError,
    OutputSink,
};

struct MockInput {
    states: Vec<Result<GamepadState, InputError>>,
    index: usize,
}

impl MockInput {
    fn new(states: Vec<Result<GamepadState, InputError>>) -> Self {
        Self { states, index: 0 }
    }
}

impl InputSource for MockInput {
    fn receive(&mut self) -> Result<GamepadState, InputError> {
        if self.index < self.states.len() {
            let r = self.states[self.index];
            self.index += 1;
            r
        } else {
            Err(InputError::Disconnected)
        }
    }

    fn is_connected(&self) -> bool {
        self.index < self.states.len()
    }
}

struct MockOutput {
    sent: Vec<GamepadState>,
}

impl MockOutput {
    fn new() -> Self {
        Self { sent: Vec::new() }
    }
}

impl OutputSink for MockOutput {
    fn send(&mut self, state: &GamepadState) -> Result<(), OutputError> {
        self.sent.push(*state);
        Ok(())
    }

    fn is_ready(&self) -> bool {
        true
    }
}

#[test]
fn test_bridge_forwards_state() {
    let mut state = GamepadState::neutral();
    state.buttons = Buttons(Buttons::A | Buttons::B);
    state.left_stick.x = 1000;

    let input = MockInput::new(vec![Ok(state)]);
    let output = MockOutput::new();

    let mut bridge = GamepadBridge::new(input, output);

    let result = bridge.process_one();
    assert!(result.is_ok());

    let sent = &bridge.output().sent;
    assert_eq!(sent.len(), 1);
    assert_eq!(sent[0], state);
}

#[test]
fn test_bridge_sends_neutral_on_error() {
    let input = MockInput::new(vec![Err(InputError::Parse)]);
    let output = MockOutput::new();

    let mut bridge = GamepadBridge::new(input, output);

    let result = bridge.process_one();
    assert!(matches!(result, Err(BridgeError::Input(InputError::Parse))));

    let sent = &bridge.output().sent;
    assert_eq!(sent.len(), 1);
    assert_eq!(sent[0], GamepadState::neutral());
}

#[test]
fn test_bridge_reports_output_error() {
    struct FailingOutput;

    impl OutputSink for FailingOutput {
        fn send(&mut self, _state: &GamepadState) -> Result<(), OutputError> {
            Err(OutputError::Busy)
        }

        fn is_ready(&self) -> bool {
            false
        }
    }

    let input = MockInput::new(vec![Ok(GamepadState::neutral())]);
    let mut bridge = GamepadBridge::new(input, FailingOutput);

    let result = bridge.process_one();
    assert!(matches!(
        result,
        Err(BridgeError::Output(OutputError::Busy))
    ));
}

#[test]
fn test_bridge_into_parts() {
    let input = MockInput::new(vec![]);
    let output = MockOutput::new();
    let bridge = GamepadBridge::new(input, output);
    let (i, o) = bridge.into_parts();
    assert!(!i.is_connected());
    assert!(o.sent.is_empty());
}
