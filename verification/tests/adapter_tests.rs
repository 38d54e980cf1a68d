use std::cell::RefCell;
use std::rc::Rc;

use ssd1325::AdapterError;
use ssd1325::ControlChannel;
use ssd1325::Delay;
use ssd1325::DisplayError;
use ssd1325::DisplayMode;
use ssd1325::ModeOperation;
use ssd1325::ModeRunError;
use ssd1325::Ssd1325;
use ssd1325::Transport;

#[derive(Debug, Copy, Clone, Eq, PartialEq)]
enum Event {
    /// The control channel entered Reset mode.
    ControlChannelEnterReset,
    /// The control channel entered Idle mode.
    ControlChannelEnterIdle,
    /// The control channel entered Data mode.
    ControlChannelEnterData,
    /// The control channel entered Command mode.
    ControlChannelEnterCommand,
    /// Data was written.
    SendData,
}

#[derive(Debug)]
struct MockError;

struct MockControlChannel {
    /// Log for events occurring in the mock display.
    event_log: Rc<RefCell<Vec<Event>>>,
    /// Simulate a control channel error.
    sim_error: bool,
}

impl ControlChannel for MockControlChannel {
    type Error = MockError;

    // Ghost state of the trait; never called in an executable build.
    fn mode_log(&self) -> ssd1325::ModeLog {
        unreachable!()
    }

    fn run_in_mode<Ctx, Op: ModeOperation<Ctx>>(
        &mut self,
        mode: DisplayMode,
        op: &mut Op,
        ctx: &mut Ctx,
    ) -> Result<(), ModeRunError<MockError, Op::Failure>> {
        {
            // Log the channel entering the specified mode.
            let mut log = self.event_log.borrow_mut();
            match mode {
                DisplayMode::Idle => log.push(Event::ControlChannelEnterIdle),
                DisplayMode::Reset => log.push(Event::ControlChannelEnterReset),
                DisplayMode::Data => log.push(Event::ControlChannelEnterData),
                DisplayMode::Command => log.push(Event::ControlChannelEnterCommand),
            }
        }

        if self.sim_error {
            return Err(ModeRunError::Entry(MockError));
        }

        // Invoke the requested operation.
        match op.run(ctx) {
            Ok(()) => {
                // Log the channel entering idle mode.
                self.event_log.borrow_mut().push(Event::ControlChannelEnterIdle);
                Ok(())
            }
            Err(failure) => Err(ModeRunError::Operation(failure)),
        }
    }
}

struct MockDataChannel {
    /// Log for events occurring in the mock display.
    event_log: Rc<RefCell<Vec<Event>>>,
    /// Record of every fully accepted transfer.
    sent: Rc<RefCell<Vec<Vec<u8>>>>,
    /// Simulate a short write on subsequent writes.
    sim_write_zero: bool,
    /// Simulate a write error on subsequent writes.
    sim_write_error: bool,
}

impl Transport for MockDataChannel {
    type Error = MockError;

    // Ghost state of the trait; never called in an executable build.
    fn wire_log(&self) -> ssd1325::WireLog {
        unreachable!()
    }

    fn write(&mut self, data: &[u8]) -> Result<usize, MockError> {
        if self.sim_write_zero {
            Ok(0)
        } else if self.sim_write_error {
            Err(MockError)
        } else {
            self.event_log.borrow_mut().push(Event::SendData);
            self.sent.borrow_mut().push(data.to_vec());
            Ok(data.len())
        }
    }

    fn flush(&mut self) -> Result<(), MockError> {
        Ok(())
    }
}

struct MockDelay;

impl Delay for MockDelay {
    fn delay_ms(&mut self, _ms: u32) {}
}

struct TestSetup {
    control: MockControlChannel,
    data: MockDataChannel,
    log: Rc<RefCell<Vec<Event>>>,
    sent: Rc<RefCell<Vec<Vec<u8>>>>,
}

/// Returns a mock control and data channel, and the event log shared between
/// them for validation.
fn create_test_setup() -> TestSetup {
    let log = Rc::new(RefCell::new(Vec::<Event>::new()));
    let sent = Rc::new(RefCell::new(Vec::<Vec<u8>>::new()));
    let control = MockControlChannel { event_log: log.clone(), sim_error: false };
    let data = MockDataChannel {
        event_log: log.clone(),
        sent: sent.clone(),
        sim_write_zero: false,
        sim_write_error: false,
    };
    TestSetup { control, data, log, sent }
}

#[test]
fn test_init() {
    let setup = create_test_setup();
    let mut display = Ssd1325::new(setup.data, setup.control, MockDelay);

    // Perform the initialization sequence.
    display.init().unwrap();

    // Expected initialization flow:
    //  - Enter Reset.
    //  - Enter Idle.
    //  - Enter Command.
    //  - Send Data (Initialization Sequence).
    //  - Enter Idle.
    let event_log = setup.log.borrow_mut();
    assert_eq!(event_log.len(), 5);

    let mut event_log_iter = event_log.iter();
    assert_eq!(event_log_iter.next().unwrap(), &Event::ControlChannelEnterReset);
    assert_eq!(event_log_iter.next().unwrap(), &Event::ControlChannelEnterIdle);
    assert_eq!(event_log_iter.next().unwrap(), &Event::ControlChannelEnterCommand);
    assert_eq!(event_log_iter.next().unwrap(), &Event::SendData);
    assert_eq!(event_log_iter.next().unwrap(), &Event::ControlChannelEnterIdle);
}

#[test]
fn test_clear() {
    let setup = create_test_setup();
    let mut display = Ssd1325::new(setup.data, setup.control, MockDelay);

    // Perform the clear sequence.
    display.clear().unwrap();

    // Expected clear flow:
    //  - Enter Command.
    //  - Send Data (Clear Sequence).
    //  - Enter Idle.
    let event_log = setup.log.borrow_mut();
    assert_eq!(event_log.len(), 3);

    let mut event_log_iter = event_log.iter();
    assert_eq!(event_log_iter.next().unwrap(), &Event::ControlChannelEnterCommand);
    assert_eq!(event_log_iter.next().unwrap(), &Event::SendData);
    assert_eq!(event_log_iter.next().unwrap(), &Event::ControlChannelEnterIdle);
}

#[test]
fn test_set_on_off() {
    let setup = create_test_setup();
    let mut display = Ssd1325::new(setup.data, setup.control, MockDelay);

    // Perform the on/off sequence.
    display.set_on(true).unwrap();
    display.set_on(false).unwrap();

    // Expected display on/off flow:
    //  - Enter Command.
    //  - Send Data (On).
    //  - Enter Idle.
    //  - Enter Command.
    //  - Send Data (Off).
    //  - Enter Idle.
    let event_log = setup.log.borrow_mut();
    assert_eq!(event_log.len(), 6);

    let mut event_log_iter = event_log.iter();
    assert_eq!(event_log_iter.next().unwrap(), &Event::ControlChannelEnterCommand);
    assert_eq!(event_log_iter.next().unwrap(), &Event::SendData);
    assert_eq!(event_log_iter.next().unwrap(), &Event::ControlChannelEnterIdle);
    assert_eq!(event_log_iter.next().unwrap(), &Event::ControlChannelEnterCommand);
    assert_eq!(event_log_iter.next().unwrap(), &Event::SendData);
    assert_eq!(event_log_iter.next().unwrap(), &Event::ControlChannelEnterIdle);
}

#[test]
fn test_set_inverted_normal() {
    let setup = create_test_setup();
    let mut display = Ssd1325::new(setup.data, setup.control, MockDelay);

    // Perform the invert/normal sequence.
    display.set_inverted(true).unwrap();
    display.set_inverted(false).unwrap();

    // Expected invert on/off flow:
    //  - Enter Command.
    //  - Send Data (On).
    //  - Enter Idle.
    //  - Enter Command.
    //  - Send Data (Off).
    //  - Enter Idle.
    let event_log = setup.log.borrow_mut();
    assert_eq!(event_log.len(), 6);

    let mut event_log_iter = event_log.iter();
    assert_eq!(event_log_iter.next().unwrap(), &Event::ControlChannelEnterCommand);
    assert_eq!(event_log_iter.next().unwrap(), &Event::SendData);
    assert_eq!(event_log_iter.next().unwrap(), &Event::ControlChannelEnterIdle);
    assert_eq!(event_log_iter.next().unwrap(), &Event::ControlChannelEnterCommand);
    assert_eq!(event_log_iter.next().unwrap(), &Event::SendData);
    assert_eq!(event_log_iter.next().unwrap(), &Event::ControlChannelEnterIdle);
}

#[test]
fn test_blit_l1() {
    let setup = create_test_setup();
    let mut display = Ssd1325::new(setup.data, setup.control, MockDelay);

    // Build an all-on image test sequence to blit.
    let test_sequence = &[[0xFFu8; 16]; 64];

    // Blit the image to the screen.
    display.blit_l1(test_sequence).unwrap();

    // Expected blit flow:
    //  - Enter Command.
    //  - Send Data (6).
    //  - Enter Idle.
    // [ 64x
    //    - Enter Data.
    //    - Send Data (64).
    //    - Enter Idle.
    // ]
    let event_log = setup.log.borrow_mut();
    assert_eq!(event_log.len(), 3 + (64 * 3));

    // Check the blit preamble was sent.
    let mut event_log_iter = event_log.iter();
    assert_eq!(event_log_iter.next().unwrap(), &Event::ControlChannelEnterCommand);
    assert_eq!(event_log_iter.next().unwrap(), &Event::SendData);
    assert_eq!(event_log_iter.next().unwrap(), &Event::ControlChannelEnterIdle);

    // Check all 64 lines were sent.
    for _ in 0..64 {
        assert_eq!(event_log_iter.next().unwrap(), &Event::ControlChannelEnterData);
        assert_eq!(event_log_iter.next().unwrap(), &Event::SendData);
        assert_eq!(event_log_iter.next().unwrap(), &Event::ControlChannelEnterIdle);
    }
}

#[test]
fn test_simulate_write_zero_length() {
    let setup = create_test_setup();
    let mut data = setup.data;
    data.sim_write_zero = true;

    let mut display = Ssd1325::new(data, setup.control, MockDelay);

    // Invoke something that would yield a write over the data channel.
    // The transport will indicate that it wrote zero bytes, which should
    // yield an error.
    assert_eq!(display.set_on(true).is_err(), true);
}

#[test]
fn test_simulate_write_error() {
    let setup = create_test_setup();
    let mut data = setup.data;
    data.sim_write_error = true;

    let mut display = Ssd1325::new(data, setup.control, MockDelay);

    // Invoke something that would yield a write over the data channel.
    // The transport will indicate that the write failed, which should yield
    // an error.
    assert_eq!(display.set_on(true).is_err(), true);
}

#[test]
fn test_simulate_control_error() {
    let setup = create_test_setup();
    let mut control = setup.control;
    control.sim_error = true;

    let mut display = Ssd1325::new(setup.data, control, MockDelay);

    // Invoke something that would yield a control event.
    // The control channel will indicate a failure occurred, which should
    // yield an error.
    assert_eq!(display.set_on(true).is_err(), true);
}

#[test]
fn test_short_write_is_write_failed() {
    let setup = create_test_setup();
    let mut data = setup.data;
    data.sim_write_zero = true;

    let mut display = Ssd1325::new(data, setup.control, MockDelay);

    // A transport that accepts zero bytes of a non-empty buffer yields the
    // domain error, not a propagated one.
    assert!(matches!(
        display.set_on(true),
        Err(AdapterError::Display(DisplayError::WriteFailed))
    ));
}

#[test]
fn test_write_error_is_propagated_and_no_idle_logged() {
    let setup = create_test_setup();
    let mut data = setup.data;
    data.sim_write_error = true;

    let mut display = Ssd1325::new(data, setup.control, MockDelay);

    // The transport's own error comes back under the transport variant.
    assert!(matches!(display.set_on(true), Err(AdapterError::Transport(MockError))));

    // The channel logged the mode entry, but no data event and no idle-log
    // for the failed step.
    let event_log = setup.log.borrow_mut();
    assert_eq!(event_log.len(), 1);
    assert_eq!(event_log[0], Event::ControlChannelEnterCommand);
}

#[test]
fn test_control_error_never_reaches_transport() {
    let setup = create_test_setup();
    let mut control = setup.control;
    control.sim_error = true;

    let mut display = Ssd1325::new(setup.data, control, MockDelay);

    // A mode entry failure comes back under the channel variant, and the
    // wrapped write is never attempted.
    assert!(matches!(display.set_on(true), Err(AdapterError::Channel(MockError))));

    let event_log = setup.log.borrow_mut();
    assert_eq!(event_log.len(), 1);
    assert_eq!(event_log[0], Event::ControlChannelEnterCommand);
    assert_eq!(setup.sent.borrow_mut().len(), 0);
}

#[test]
fn test_command_bytes_on_the_wire() {
    let setup = create_test_setup();
    let mut display = Ssd1325::new(setup.data, setup.control, MockDelay);

    display.init().unwrap();
    display.set_on(true).unwrap();
    display.set_inverted(true).unwrap();
    display.clear().unwrap();
    display.set_inverted(false).unwrap();
    display.set_on(false).unwrap();

    let sent = setup.sent.borrow_mut();
    assert_eq!(sent.len(), 6);

    // The full 40-byte initialization table, in order.
    assert_eq!(
        sent[0],
        vec![
            0xAE, 0xB3, 0xF1, 0xA8, 0x3F, 0xA2, 0x4C, 0xA1, 0x00, 0xAD, 0x02, 0xA0, 0x50, 0x87,
            0xB8, 0x01, 0x11, 0x22, 0x32, 0x43, 0x54, 0x65, 0x76, 0x81, 0x7F, 0xB2, 0x51, 0xB1,
            0x55, 0xB4, 0x02, 0xB0, 0x28, 0xBE, 0x1C, 0xBF, 0x0F, 0xA4, 0x23, 0x01,
        ]
    );
    assert_eq!(sent[0].len(), 40);

    // Power on, invert, accelerated full-screen clear, normal, power off.
    assert_eq!(sent[1], vec![0xAF]);
    assert_eq!(sent[2], vec![0xA7]);
    assert_eq!(sent[3], vec![0x24, 0x00, 0x00, 0x3F, 0x3F, 0x00]);
    assert_eq!(sent[4], vec![0xA4]);
    assert_eq!(sent[5], vec![0xAE]);
}

#[test]
fn test_blit_payload_bytes() {
    let setup = create_test_setup();
    let mut display = Ssd1325::new(setup.data, setup.control, MockDelay);

    // One distinctive row pattern repeated over the frame.
    let mut frame = [[0u8; 16]; 64];
    frame[0] = [0b10100110; 16];

    display.blit_l1(&frame).unwrap();

    let sent = setup.sent.borrow_mut();
    assert_eq!(sent.len(), 65);

    // The addressing preamble: full column range, then full row range.
    assert_eq!(sent[0], vec![0x15, 0x00, 0x3F, 0x75, 0x00, 0x3F]);

    // The patterned row expands to its grayscale payload...
    let mut expected = Vec::new();
    for _ in 0..16 {
        expected.extend_from_slice(&[0xF0, 0xF0, 0x0F, 0xF0]);
    }
    assert_eq!(sent[1], expected);

    // ...and every cleared row expands to 64 zero bytes.
    for row in 2..65 {
        assert_eq!(sent[row], vec![0x00; 64]);
    }
}

#[test]
fn test_display_error_description() {
    assert_eq!(
        DisplayError::WriteFailed.description(),
        "write failed: unable to send complete sequence to display"
    );
}
