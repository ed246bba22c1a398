use pms_7003::frame::OutputFrame;
use pms_7003::{
    create_command, Action, Error, Event, Exchange, Pms7003SensorAsync, Reply,
    ACTIVE_MODE_RESPONSE, PASSIVE_MODE_RESPONSE, SLEEP_RESPONSE,
};

const MEASUREMENT: [u8; 32] = [
    0x42, 0x4D, 0x00, 0x1C, 0x00, 0x05, 0x01, 0x23, 0x00, 0x0A, 0x00, 0x04, 0x01, 0x19, 0x00, 0x09,
    0x03, 0xB1, 0x01, 0x0E, 0x00, 0x2A, 0x00, 0x06, 0x00, 0x02, 0x00, 0x01, 0x97, 0x00, 0x02, 0x92,
];

/// A serial line that takes writes and hands out, byte by byte, what it was
/// given to read. Past the end of that, a read fails.
struct SerialMock {
    written: Vec<u8>,
    to_read: Vec<u8>,
    taken: usize,
    write_fails: bool,
}

impl SerialMock {
    fn new(to_read: &[u8]) -> Self {
        SerialMock { written: Vec::new(), to_read: to_read.to_vec(), taken: 0, write_fails: false }
    }

    fn write(&mut self, bytes: &[u8]) -> Result<usize, ()> {
        if self.write_fails {
            return Err(());
        }
        self.written.extend_from_slice(bytes);
        Ok(bytes.len())
    }

    fn read(&mut self, buffer: &mut [u8]) -> Result<usize, ()> {
        if self.taken == self.to_read.len() {
            return Err(());
        }
        buffer[0] = self.to_read[self.taken];
        self.taken += 1;
        Ok(1)
    }
}

fn carry_through(serial: &mut SerialMock, mut exchange: Exchange) -> Result<Reply, Error> {
    let mut action = exchange.action();
    loop {
        let event = match action {
            Action::Send(command) => match serial.write(&command) {
                Ok(_) => Event::Sent,
                Err(_) => Event::SendFailed,
            },
            Action::Receive => {
                let mut chbuf = [0u8; 1];
                match serial.read(&mut chbuf) {
                    Ok(count) => Event::Received { count, byte: chbuf[0] },
                    Err(_) => Event::ReceiveFailed,
                }
            }
            Action::Done(result) => return result,
        };
        action = exchange.step(event);
    }
}

fn deliver(exchange: &mut Exchange, bytes: &[u8]) -> Action {
    let mut action = exchange.action();
    for byte in bytes.iter() {
        action = exchange.step(Event::Received { count: 1, byte: *byte });
    }
    action
}

#[test]
fn passive() {
    let cmd = create_command(0xe1, 0);
    let resp = PASSIVE_MODE_RESPONSE;
    let serial = SerialMock::new(&resp);

    let mut pms_sensor = Pms7003SensorAsync::new(serial);

    let exchange = pms_sensor.passive();
    assert!(carry_through(&mut pms_sensor.serial, exchange).is_ok());
    assert_eq!(pms_sensor.serial.written, cmd);
    assert_eq!(pms_sensor.serial.taken, 8);
}

#[test]
fn sleep() {
    let cmd = create_command(0xe4, 0);
    let resp = SLEEP_RESPONSE;
    let serial = SerialMock::new(&resp);

    let mut pms_sensor = Pms7003SensorAsync::new(serial);

    let exchange = pms_sensor.sleep();
    assert!(carry_through(&mut pms_sensor.serial, exchange).is_ok());
    assert_eq!(pms_sensor.serial.written, cmd);
    assert_eq!(pms_sensor.serial.taken, 8);
}

struct RxMock {}
struct TxMock {}

impl RxMock {
    fn read(&mut self) -> nb::Result<u8, Error> {
        Err(nb::Error::Other::<Error>(Error::ReadFailed))
    }
}

impl TxMock {
    fn write(&mut self, _: u8) -> nb::Result<(), Error> {
        Ok(())
    }
}

#[test]
fn crate_instance_using_separate_rx_tx() {
    let tx = TxMock {};
    let rx = RxMock {};

    let mut pms = Pms7003SensorAsync::new((tx, rx));
    let mut exchange = pms.sleep();
    let mut action = exchange.action();
    let result = loop {
        let event = match action {
            Action::Send(command) => {
                if command.iter().all(|byte| pms.serial.0.write(*byte).is_ok()) {
                    Event::Sent
                } else {
                    Event::SendFailed
                }
            }
            Action::Receive => match pms.serial.1.read() {
                Ok(byte) => Event::Received { count: 1, byte },
                Err(_) => Event::ReceiveFailed,
            },
            Action::Done(result) => break result,
        };
        action = exchange.step(event);
    };
    assert_eq!(result, Err(Error::ReadFailed));
}

#[test]
fn active() {
    let mut sensor = Pms7003SensorAsync::new(SerialMock::new(&ACTIVE_MODE_RESPONSE));
    let exchange = sensor.active();
    assert_eq!(carry_through(&mut sensor.serial, exchange), Ok(Reply::Completed));
    assert_eq!(sensor.serial.written, [0x42, 0x4D, 0xE1, 0x00, 0x01, 0x01, 0x71]);
    assert_eq!(sensor.serial.taken, 8);
}

#[test]
fn wake_awaits_no_acknowledgement() {
    let mut sensor = Pms7003SensorAsync::new(SerialMock::new(&[]));
    let exchange = sensor.wake();
    assert_eq!(carry_through(&mut sensor.serial, exchange), Ok(Reply::Completed));
    assert_eq!(sensor.serial.written, [0x42, 0x4D, 0xE4, 0x00, 0x01, 0x01, 0x74]);
    assert_eq!(sensor.serial.taken, 0);
}

#[test]
fn request_awaits_no_acknowledgement() {
    let mut sensor = Pms7003SensorAsync::new(SerialMock::new(&MEASUREMENT));
    let exchange = sensor.request();
    assert_eq!(carry_through(&mut sensor.serial, exchange), Ok(Reply::Completed));
    assert_eq!(sensor.serial.written, [0x42, 0x4D, 0xE2, 0x00, 0x00, 0x01, 0x71]);
    assert_eq!(sensor.serial.taken, 0);

    // the measurement asked for is what the next read takes in
    let exchange = sensor.read();
    let expected = OutputFrame::from_buffer(&MEASUREMENT).unwrap();
    assert_eq!(carry_through(&mut sensor.serial, exchange), Ok(Reply::Measurement(expected)));
    assert_eq!(sensor.serial.taken, 32);
}

#[test]
fn read_sends_nothing_and_decodes_the_frame() {
    let mut sensor = Pms7003SensorAsync::new(SerialMock::new(&MEASUREMENT));
    let exchange = sensor.read();
    assert_eq!(exchange.action(), Action::Receive);
    let reply = carry_through(&mut sensor.serial, exchange);
    assert!(sensor.serial.written.is_empty());
    match reply {
        Ok(Reply::Measurement(frame)) => {
            assert_eq!(frame.frame_length, 28);
            assert_eq!(frame.pm1_0, 5);
            assert_eq!(frame.pm2_5, 0x0123);
            assert_eq!(frame.pm10, 10);
            assert_eq!(frame.beyond_0_3, 945);
            assert_eq!(frame.check, 0x0292);
        }
        other => panic!("{:?}", other),
    }
}

#[test]
fn read_of_a_damaged_frame_fails() {
    let mut damaged = MEASUREMENT;
    damaged[10] ^= 0x40;
    let mut sensor = Pms7003SensorAsync::new(SerialMock::new(&damaged));
    let exchange = sensor.read();
    assert_eq!(carry_through(&mut sensor.serial, exchange), Err(Error::ReadFailed));
    // detected only once the whole frame has come
    assert_eq!(sensor.serial.taken, 32);
}

#[test]
fn read_failure_ends_the_operation_at_once() {
    for place in 0..32 {
        let mut sensor = Pms7003SensorAsync::new(SerialMock::new(&MEASUREMENT[..place]));
        let exchange = sensor.read();
        assert_eq!(carry_through(&mut sensor.serial, exchange), Err(Error::ReadFailed));
    }
    for place in 0..8 {
        let mut sensor = Pms7003SensorAsync::new(SerialMock::new(&SLEEP_RESPONSE[..place]));
        let exchange = sensor.sleep();
        assert_eq!(carry_through(&mut sensor.serial, exchange), Err(Error::ReadFailed));
        assert_eq!(sensor.serial.written.len(), 7);
    }
}

#[test]
fn send_failure_is_reported_and_nothing_is_read() {
    let mut serial = SerialMock::new(&SLEEP_RESPONSE);
    serial.write_fails = true;
    let mut sensor = Pms7003SensorAsync::new(serial);
    let exchange = sensor.sleep();
    assert_eq!(carry_through(&mut sensor.serial, exchange), Err(Error::SendFailed));
    assert_eq!(sensor.serial.taken, 0);

    let exchange = sensor.wake();
    assert_eq!(carry_through(&mut sensor.serial, exchange), Err(Error::SendFailed));
}

#[test]
fn another_acknowledgement_is_an_incorrect_response() {
    let mut sensor = Pms7003SensorAsync::new(SerialMock::new(&PASSIVE_MODE_RESPONSE));
    let exchange = sensor.sleep();
    assert_eq!(carry_through(&mut sensor.serial, exchange), Err(Error::IncorrectResponse));

    let mut sensor = Pms7003SensorAsync::new(SerialMock::new(&ACTIVE_MODE_RESPONSE));
    let exchange = sensor.passive();
    assert_eq!(carry_through(&mut sensor.serial, exchange), Err(Error::IncorrectResponse));

    let mut sensor = Pms7003SensorAsync::new(SerialMock::new(&SLEEP_RESPONSE));
    let exchange = sensor.active();
    assert_eq!(carry_through(&mut sensor.serial, exchange), Err(Error::IncorrectResponse));
}

#[test]
fn measurement_in_the_place_of_the_acknowledgement_fails_sleep() {
    // a measurement frame was under way: its first eight bytes are taken for
    // the acknowledgement and do not pass the checksum
    let mut sensor = Pms7003SensorAsync::new(SerialMock::new(&MEASUREMENT));
    let exchange = sensor.sleep();
    assert_eq!(carry_through(&mut sensor.serial, exchange), Err(Error::ReadFailed));
    assert_eq!(sensor.serial.written, create_command(0xe4, 0));
    assert_eq!(sensor.serial.taken, 8);
}

#[test]
fn damaged_acknowledgement_is_a_failed_read() {
    let mut damaged = SLEEP_RESPONSE;
    damaged[7] = 0x76;
    let mut sensor = Pms7003SensorAsync::new(SerialMock::new(&damaged));
    let exchange = sensor.sleep();
    assert_eq!(carry_through(&mut sensor.serial, exchange), Err(Error::ReadFailed));
}

#[test]
fn first_action_of_each_operation() {
    let mut sensor = Pms7003SensorAsync::new(());
    assert_eq!(sensor.read().action(), Action::Receive);
    assert_eq!(sensor.sleep().action(), Action::Send(create_command(0xE4, 0)));
    assert_eq!(sensor.wake().action(), Action::Send(create_command(0xE4, 1)));
    assert_eq!(sensor.passive().action(), Action::Send(create_command(0xE1, 0)));
    assert_eq!(sensor.active().action(), Action::Send(create_command(0xE1, 1)));
    assert_eq!(sensor.request().action(), Action::Send(create_command(0xE2, 0)));
}

#[test]
fn step_by_step_through_a_mode_change() {
    let mut exchange = Exchange::command(create_command(0xE1, 0), Some(PASSIVE_MODE_RESPONSE));
    assert_eq!(exchange.action(), Action::Send([0x42, 0x4D, 0xE1, 0x00, 0x00, 0x01, 0x70]));
    assert_eq!(exchange.step(Event::Sent), Action::Receive);
    for byte in PASSIVE_MODE_RESPONSE[..7].iter() {
        assert_eq!(exchange.step(Event::Received { count: 1, byte: *byte }), Action::Receive);
        assert_eq!(exchange.action(), Action::Receive);
    }
    let last = Event::Received { count: 1, byte: PASSIVE_MODE_RESPONSE[7] };
    assert_eq!(exchange.step(last), Action::Done(Ok(Reply::Completed)));
    assert_eq!(exchange.action(), Action::Done(Ok(Reply::Completed)));
}

#[test]
fn reads_that_bring_no_byte_are_passed_over() {
    let mut exchange = Exchange::measurement();
    for byte in MEASUREMENT[..31].iter() {
        assert_eq!(exchange.step(Event::Received { count: 0, byte: 0xEE }), Action::Receive);
        assert_eq!(exchange.step(Event::Received { count: 1, byte: *byte }), Action::Receive);
        assert_eq!(exchange.step(Event::Received { count: 2, byte: 0xEE }), Action::Receive);
    }
    let expected = OutputFrame::from_buffer(&MEASUREMENT).unwrap();
    assert_eq!(
        exchange.step(Event::Received { count: 1, byte: MEASUREMENT[31] }),
        Action::Done(Ok(Reply::Measurement(expected)))
    );
}

#[test]
fn reports_that_answer_no_action_are_passed_over() {
    let command = create_command(0xE4, 0);
    let mut exchange = Exchange::command(command, Some(SLEEP_RESPONSE));
    assert_eq!(exchange.step(Event::Received { count: 1, byte: 0x42 }), Action::Send(command));
    assert_eq!(exchange.step(Event::ReceiveFailed), Action::Send(command));
    assert_eq!(exchange.step(Event::Sent), Action::Receive);
    assert_eq!(exchange.step(Event::Sent), Action::Receive);
    assert_eq!(exchange.step(Event::SendFailed), Action::Receive);
    assert_eq!(deliver(&mut exchange, &SLEEP_RESPONSE), Action::Done(Ok(Reply::Completed)));
}

#[test]
fn ended_operation_stays_as_it_is() {
    let mut exchange = Exchange::command(create_command(0xE4, 1), None);
    assert_eq!(exchange.step(Event::Sent), Action::Done(Ok(Reply::Completed)));
    for event in [
        Event::Sent,
        Event::SendFailed,
        Event::ReceiveFailed,
        Event::Received { count: 1, byte: 0 },
    ] {
        assert_eq!(exchange.step(event), Action::Done(Ok(Reply::Completed)));
    }

    let mut exchange = Exchange::measurement();
    assert_eq!(exchange.step(Event::ReceiveFailed), Action::Done(Err(Error::ReadFailed)));
    assert_eq!(deliver(&mut exchange, &MEASUREMENT), Action::Done(Err(Error::ReadFailed)));
}

#[test]
fn session_keeps_its_transport() {
    let mut sensor = Pms7003SensorAsync::new(17u32);
    assert_eq!(sensor.serial, 17);
    let _ = sensor.read();
    let _ = sensor.sleep();
    let _ = sensor.wake();
    let _ = sensor.passive();
    let _ = sensor.active();
    let _ = sensor.request();
    assert_eq!(sensor.serial, 17);
}
