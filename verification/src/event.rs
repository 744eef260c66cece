//! The events that the tasks post to the event bus, and what the bus does
//! with each.
use vstd::prelude::*;
use crate::command::{command_text, lemma_typed_command_parses, padded, parse_command, Command, CMD_SIZE};
use crate::env_reading::{spec_payload, EnvReading, LORA_BUFFER_SIZE, PAYLOAD_SIZE};
use crate::error::LINE_START;
use crate::gpio::Led;
use crate::rtc::LINE_END;
use crate::token::push_bytes;
use crate::uart::{lemma_typed_bytes_kept, typed_after_all};

verus! {

/// Something that happened in one of the tasks.
#[derive(Debug, Clone, Copy)]
pub enum Event {
    /// A reading of the sensors was taken.
    EnvReadingTaken(EnvReading),
    /// The modem's transmit-done interrupt was cleared.
    LoraTxDoneInterruptCleared,
    /// Clearing the modem's transmit-done interrupt failed.
    LoraTxDoneInterruptClearedErr,
    /// The modem started a transmission.
    LoraTxStarted,
    /// The modem could not start a transmission.
    LoraTxStartedErr,
    /// A command line was entered on the console.
    RawCmdEntered([u8; CMD_SIZE]),
    /// The clock's countdown alarm fired.
    RtcAlarmTriggered,
}

/// What the event bus does for one event.
#[derive(Debug, Clone, Copy)]
pub enum EventAction {
    /// Hand this buffer to the LoRa modem.
    Transmit([u8; LORA_BUFFER_SIZE]),
    /// Pulse an LED.
    Pulse(Led),
    /// Nothing beyond a log line.
    Nothing,
    /// Hand the command to the command task.
    Execute(Command),
    /// Report an invalid command, pause, and show the prompt again.
    RejectCommand,
    /// Have the sensors read.
    TakeReading,
}

/// How long the bus pauses after reporting an invalid command, in milliseconds.
pub const REJECT_PAUSE_MS: u64 = 250;

/// The line reported for an invalid command: `"\n\rinvalid command\r\n"`.
pub const INVALID_COMMAND: [u8; 15] = ['i' as u8, 'n' as u8, 'v' as u8, 'a' as u8, 'l' as u8, 'i' as u8, 'd' as u8, ' ' as u8, 'c' as u8, 'o' as u8, 'm' as u8, 'm' as u8, 'a' as u8, 'n' as u8, 'd' as u8];

/// The line reported for an invalid command.
pub open spec fn spec_invalid_command_message() -> Seq<u8> {
    LINE_START@ + INVALID_COMMAND@ + LINE_END@
}

/// The line reported for an invalid command.
pub fn invalid_command_message() -> (m: Vec<u8>)
    ensures
        m@ == spec_invalid_command_message(),
{
    let mut m: Vec<u8> = Vec::new();
    push_bytes(&mut m, LINE_START.as_slice());
    push_bytes(&mut m, INVALID_COMMAND.as_slice());
    push_bytes(&mut m, LINE_END.as_slice());
    m
}

impl Event {
    /// The event that follows an attempt to start a transmission.
    pub fn after_transmit(started: bool) -> (e: Event)
        ensures
            started ==> e is LoraTxStarted,
            !started ==> e is LoraTxStartedErr,
    {
        if started {
            Event::LoraTxStarted
        } else {
            Event::LoraTxStartedErr
        }
    }

    /// The event that follows an attempt to clear the transmit-done interrupt.
    pub fn after_clear_interrupt(cleared: bool) -> (e: Event)
        ensures
            cleared ==> e is LoraTxDoneInterruptCleared,
            !cleared ==> e is LoraTxDoneInterruptClearedErr,
    {
        if cleared {
            Event::LoraTxDoneInterruptCleared
        } else {
            Event::LoraTxDoneInterruptClearedErr
        }
    }

    /// What the event bus does for this event: a reading goes to the radio;
    /// a finished transmission pulses green and a failed one red; an entered
    /// line is executed when it is a command and rejected otherwise; the
    /// alarm takes a reading.
    pub fn handle(&self) -> (a: EventAction)
        ensures
            self matches Event::EnvReadingTaken(r) ==> (a matches EventAction::Transmit(buf)
                && buf@ == spec_payload(*r) + Seq::new(
                (LORA_BUFFER_SIZE - PAYLOAD_SIZE) as nat,
                |i: int| 0u8,
            )),
            self is LoraTxDoneInterruptCleared ==> a == EventAction::Pulse(Led::Green),
            self is LoraTxDoneInterruptClearedErr ==> a == EventAction::Pulse(Led::Red),
            self is LoraTxStarted ==> a is Nothing,
            self is LoraTxStartedErr ==> a == EventAction::Pulse(Led::Red),
            self matches Event::RawCmdEntered(raw) ==> a == match parse_command(raw@) {
                Some(c) => EventAction::Execute(c),
                None => EventAction::RejectCommand,
            },
            self is RtcAlarmTriggered ==> a is TakeReading,
    {
        match self {
            Event::EnvReadingTaken(r) => EventAction::Transmit(r.into_lora_buffer()),
            Event::LoraTxDoneInterruptCleared => EventAction::Pulse(Led::Green),
            Event::LoraTxDoneInterruptClearedErr => EventAction::Pulse(Led::Red),
            Event::LoraTxStarted => EventAction::Nothing,
            Event::LoraTxStartedErr => EventAction::Pulse(Led::Red),
            Event::RawCmdEntered(raw) => match Command::try_from(*raw) {
                Ok(c) => EventAction::Execute(c),
                Err(_) => EventAction::RejectCommand,
            },
            Event::RtcAlarmTriggered => EventAction::TakeReading,
        }
    }
}

/// Typing a command's text on an empty console line and pressing Enter gets
/// that command executed: the line then holds exactly the text, Enter hands
/// it over padded with NUL bytes (`CommandLine::feed`), and the event bus
/// reads that line as the command (`Event::handle`).
pub proof fn lemma_typed_command_executes(c: Command)
    ensures
        typed_after_all(Seq::empty(), command_text(c)) == command_text(c),
        parse_command(padded(command_text(c))) == Some(c),
{
    lemma_typed_command_parses(c);
    lemma_typed_bytes_kept(command_text(c));
}

} // verus!
