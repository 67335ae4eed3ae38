//! A Modbus TCP device for tests and examples, as the decisions it takes.
//!
//! It serves fixed synthetic registers to function codes 3 and 4, and answers
//! anything else with an exception. The values are invented. They are not
//! readings from a real device.
//!
//! | Function code | Address | Registers | Read as |
//! |---|---|---|---|
//! | 3 | 0 | `4248 0000` | `f32be` = 50.0 |
//! | 4 | 10 | `ff38` | `i16` = −200 |
//!
//! A write function code has to be written by hand to reach this device,
//! because [`crate::FunctionCode`] cannot name one. The sockets and the
//! thread that serves them are elsewhere; [`answer`] is what the device says,
//! [`serve`] what it does next on a connection, and [`Live`] which
//! connections it holds.

use vstd::prelude::*;
use vstd::slice::slice_to_vec;

use crate::bytes;
use crate::frame;
use crate::frame::{EXCEPTION_BIT, HEADER_PREFIX_LEN, MAX_LENGTH, MIN_LENGTH};

verus! {

/// The unit id the device answers as.
pub const UNIT: u8 = 1;

/// Holding-register start of the synthetic float pair.
pub const HOLDING_AT: u16 = 0;

/// Input-register address of the synthetic signed word.
pub const INPUT_AT: u16 = 10;

/// The refusal the device gives a function code it does not serve.
pub const ILLEGAL_FUNCTION: u8 = 1;

/// The synthetic float pair.
pub open spec fn holding_words() -> Seq<u16> {
    seq![0x4248, 0x0000]
}

/// The synthetic signed word.
pub open spec fn input_words() -> Seq<u16> {
    seq![0xff38]
}

/// What the device says to one request body (unit, function, and the rest).
///
/// A body too short to hold an address is refused as function 0 of the
/// device's own unit.
pub open spec fn answered(transaction: u16, body: Seq<u8>) -> Seq<u8> {
    let address = frame::field_at(body, 2);
    if body.len() < 4 {
        frame::refusal_frame(transaction, UNIT, 0, ILLEGAL_FUNCTION)
    } else if body[1] == 3 && address == HOLDING_AT {
        frame::reply_frame(transaction, body[0], body[1], holding_words())
    } else if body[1] == 4 && address == INPUT_AT {
        frame::reply_frame(transaction, body[0], body[1], input_words())
    } else {
        frame::refusal_frame(transaction, body[0], body[1], ILLEGAL_FUNCTION)
    }
}

/// The frame layer's length law, applied here so an illegal length never
/// becomes an allocated body.
#[must_use]
pub fn is_frame_length(declared: u16) -> (legal: bool)
    ensures
        legal == frame::is_carriable(declared),
        legal == (2 <= declared <= 254),
{
    MIN_LENGTH <= declared && declared <= MAX_LENGTH
}

/// What this device says to one request body (unit, function, and the rest).
#[must_use]
pub fn answer(transaction: u16, body: &[u8]) -> (reply: Vec<u8>)
    ensures
        reply@ == answered(transaction, body@),
{
    if body.len() < 4 {
        return slice_to_vec(&exception(transaction, UNIT, 0, ILLEGAL_FUNCTION));
    }
    let unit: u8 = body[0];
    let function: u8 = body[1];
    let address: u16 = bytes::join(body[2], body[3]);
    if function == 3 && address == HOLDING_AT {
        let words: [u16; 2] = [0x4248, 0x0000];
        assert(words@ =~= holding_words());
        slice_to_vec(&holding_reply(transaction, unit, function, words))
    } else if function == 4 && address == INPUT_AT {
        let words: [u16; 1] = [0xff38];
        assert(words@ =~= input_words());
        slice_to_vec(&input_reply(transaction, unit, function, words))
    } else {
        // Every other function code, those that write among them: this
        // device serves reads and refuses the rest.
        slice_to_vec(&exception(transaction, unit, function, ILLEGAL_FUNCTION))
    }
}

/// Two holding words as a Modbus TCP reply. The width is the type: this
/// device does not serve a longer holding read.
#[must_use]
pub fn holding_reply(transaction: u16, unit: u8, function: u8, words: [u16; 2]) -> (reply: [u8; 13])
    ensures
        reply@ == frame::reply_frame(transaction, unit, function, words@),
        reply@[0] * 256 + reply@[1] == transaction,
        reply@.subrange(2, 9) == seq![0u8, 0, 0, 7, unit, function, 4],
        reply@[9] * 256 + reply@[10] == words@[0],
        reply@[11] * 256 + reply@[12] == words@[1],
{
    let (t0, t1) = bytes::split(transaction);
    let (b0, b1) = bytes::split(words[0]);
    let (b2, b3) = bytes::split(words[1]);
    let reply: [u8; 13] = [t0, t1, 0, 0, 0, 7, unit, function, 4, b0, b1, b2, b3];
    assert(reply@ =~= frame::reply_frame(transaction, unit, function, words@));
    reply
}

/// One input word as a Modbus TCP reply. The width is the type: this device
/// does not serve a longer input read.
#[must_use]
pub fn input_reply(transaction: u16, unit: u8, function: u8, words: [u16; 1]) -> (reply: [u8; 11])
    ensures
        reply@ == frame::reply_frame(transaction, unit, function, words@),
        reply@[0] * 256 + reply@[1] == transaction,
        reply@.subrange(2, 9) == seq![0u8, 0, 0, 5, unit, function, 2],
        reply@[9] * 256 + reply@[10] == words@[0],
{
    let (t0, t1) = bytes::split(transaction);
    let (high, low) = bytes::split(words[0]);
    let reply: [u8; 11] = [t0, t1, 0, 0, 0, 5, unit, function, 2, high, low];
    assert(reply@ =~= frame::reply_frame(transaction, unit, function, words@));
    reply
}

/// A refusal, as the protocol spells one: the function code with its top bit
/// set, then the reason. The body is three bytes, so the length cannot miss.
#[must_use]
pub fn exception(transaction: u16, unit: u8, function: u8, code: u8) -> (reply: [u8; 9])
    ensures
        reply@ == frame::refusal_frame(transaction, unit, function, code),
        reply@[0] * 256 + reply@[1] == transaction,
        reply@.subrange(2, 9) == seq![0u8, 0, 0, 3, unit, function | 0x80, code],
{
    let (t0, t1) = bytes::split(transaction);
    assert(function < 0x80u8 ==> function | 0x80u8 == function + 0x80) by (bit_vector);
    assert(function >= 0x80u8 ==> function | 0x80u8 == function) by (bit_vector);
    let reply: [u8; 9] = [t0, t1, 0, 0, 0, 3, unit, function | EXCEPTION_BIT, code];
    assert(reply@ =~= frame::refusal_frame(transaction, unit, function, code));
    reply
}

/// What a served connection needs done next.
#[derive(Debug)]
pub enum ServeStage {
    /// Read exactly the bytes ahead of the length field's own subject.
    ReadHeader,
    /// Read exactly as many bytes as this header declares.
    ReadBody([u8; 6]),
    /// Write all of this reply.
    WriteReply(Vec<u8>),
}

/// Where one act on a served connection leaves it.
#[derive(Debug)]
pub enum ServeStep {
    /// The connection is still served.
    Next(ServeStage),
    /// The connection is served no longer.
    Close,
}

/// What a served connection needs done next, with the bytes as sequences.
pub enum ServeStageModel {
    /// Read exactly a header prefix.
    ReadHeader,
    /// Read exactly as many bytes as this header declares.
    ReadBody(Seq<u8>),
    /// Write all of this reply.
    WriteReply(Seq<u8>),
}

/// Where one act on a served connection leaves it, with the bytes as
/// sequences.
pub enum ServeStepModel {
    /// The connection is still served.
    Next(ServeStageModel),
    /// The connection is served no longer.
    Close,
}

impl View for ServeStage {
    type V = ServeStageModel;

    open spec fn view(&self) -> ServeStageModel {
        match self {
            ServeStage::ReadHeader => ServeStageModel::ReadHeader,
            ServeStage::ReadBody(header) => ServeStageModel::ReadBody(header@),
            ServeStage::WriteReply(reply) => ServeStageModel::WriteReply(reply@),
        }
    }
}

impl View for ServeStep {
    type V = ServeStepModel;

    open spec fn view(&self) -> ServeStepModel {
        match self {
            ServeStep::Next(stage) => ServeStepModel::Next(stage@),
            ServeStep::Close => ServeStepModel::Close,
        }
    }
}

impl ServeStageModel {
    /// How many bytes this stage reads.
    pub open spec fn wanted(self) -> nat {
        match self {
            ServeStageModel::ReadHeader => HEADER_PREFIX_LEN as nat,
            ServeStageModel::ReadBody(header) => frame::field_at(header, 4) as nat,
            ServeStageModel::WriteReply(_) => 0,
        }
    }

    /// Where this stage leaves the connection when it went well, `received`
    /// being the bytes it read.
    ///
    /// A header that declares a body no frame can carry closes the connection
    /// without an answer.
    pub open spec fn after(self, received: Seq<u8>) -> ServeStepModel {
        match self {
            ServeStageModel::ReadHeader => {
                if frame::is_carriable(frame::field_at(received, 4)) {
                    ServeStepModel::Next(ServeStageModel::ReadBody(received))
                } else {
                    ServeStepModel::Close
                }
            },
            ServeStageModel::ReadBody(header) => ServeStepModel::Next(
                ServeStageModel::WriteReply(answered(frame::field_at(header, 0), received)),
            ),
            ServeStageModel::WriteReply(_) => ServeStepModel::Next(ServeStageModel::ReadHeader),
        }
    }
}

impl ServeStage {
    /// How many bytes this stage reads: as many as the connection owes when
    /// it goes well.
    #[must_use]
    pub fn wanted(&self) -> (wanted: usize)
        ensures
            wanted == self@.wanted(),
            match self {
                ServeStage::ReadHeader => wanted == 6,
                ServeStage::ReadBody(header) => wanted == header@[4] * 256 + header@[5],
                ServeStage::WriteReply(_) => wanted == 0,
            },
    {
        match self {
            ServeStage::ReadHeader => HEADER_PREFIX_LEN,
            ServeStage::ReadBody(header) => bytes::join(header[4], header[5]) as usize,
            ServeStage::WriteReply(_) => 0,
        }
    }
}

/// Answer every frame on one connection until the client goes away: the
/// decision that follows one act on the connection.
///
/// `outcome` is what came of `stage`: the bytes it read — none for a stage
/// that reads none — or nothing when the connection failed.
#[must_use]
pub fn serve(stage: ServeStage, outcome: Option<Vec<u8>>) -> (step: ServeStep)
    requires
        outcome matches Some(received) ==> received@.len() == stage@.wanted(),
    ensures
        match outcome {
            Some(received) => step@ == stage@.after(received@),
            None => step == ServeStep::Close,
        },
        outcome matches Some(received) ==> match stage {
            ServeStage::ReadHeader => if 2 <= received@[4] * 256 + received@[5] <= 254 {
                step matches ServeStep::Next(ServeStage::ReadBody(header)) && header@ == received@
            } else {
                step == ServeStep::Close
            },
            ServeStage::ReadBody(header) => {
                &&& step matches ServeStep::Next(ServeStage::WriteReply(reply))
                &&& reply@ == answered((header@[0] * 256 + header@[1]) as u16, received@)
            },
            ServeStage::WriteReply(_) => step == ServeStep::Next(ServeStage::ReadHeader),
        },
{
    let received = match outcome {
        Some(received) => received,
        None => return ServeStep::Close,
    };
    match stage {
        ServeStage::ReadHeader => {
            let declared: u16 = bytes::join(received[4], received[5]);
            if !is_frame_length(declared) {
                return ServeStep::Close;
            }
            let header: [u8; 6] = [
                received[0],
                received[1],
                received[2],
                received[3],
                received[4],
                received[5],
            ];
            assert(header@ =~= received@);
            ServeStep::Next(ServeStage::ReadBody(header))
        },
        ServeStage::ReadBody(header) => {
            let transaction: u16 = bytes::join(header[0], header[1]);
            ServeStep::Next(ServeStage::WriteReply(answer(transaction, &received)))
        },
        ServeStage::WriteReply(_) => ServeStep::Next(ServeStage::ReadHeader),
    }
}

/// Running flag and the handles that shutting down closes, held together so
/// that no handle can appear after the list was taken.
#[derive(Debug)]
pub struct Live<C> {
    running: bool,
    connections: Vec<C>,
}

/// Why an accepted stream must not be served: shutting down has no handle
/// that can unblock it.
#[derive(Debug, Clone, Copy, PartialEq, Eq, Structural)]
pub enum RememberError {
    /// There is no second handle to the stream.
    Clone,
    /// The server has stopped.
    Stopped,
}

/// The flag and the handles of a [`Live`], the handles as a sequence.
#[verifier::ext_equal]
pub struct LiveModel<C> {
    /// Whether connections are still taken.
    pub running: bool,
    /// The handles held, the latest last.
    pub connections: Seq<C>,
}

impl<C> LiveModel<C> {
    /// What every server keeps: one that has stopped holds no handle.
    pub open spec fn settled(self) -> bool {
        !self.running ==> self.connections.len() == 0
    }

    /// Holding one more handle: what it leaves, and what comes of it.
    pub open spec fn remembering(self, handle: Option<C>) -> (
        LiveModel<C>,
        Result<(), RememberError>,
    ) {
        match handle {
            None => (self, Err(RememberError::Clone)),
            Some(connection) => if self.running {
                (
                    LiveModel {
                        running: true,
                        connections: self.connections.push(connection),
                    },
                    Ok(()),
                )
            } else {
                (self, Err(RememberError::Stopped))
            },
        }
    }

    /// Letting go of the handle held last: what it leaves, and the handle.
    pub open spec fn releasing(self) -> (LiveModel<C>, Option<C>) {
        if self.connections.len() == 0 {
            (self, None)
        } else {
            (
                LiveModel { running: self.running, connections: self.connections.drop_last() },
                Some(self.connections.last()),
            )
        }
    }

    /// Stopping: what it leaves, and every handle that was held.
    pub open spec fn stopping(self) -> (LiveModel<C>, Seq<C>) {
        (LiveModel { running: false, connections: Seq::empty() }, self.connections)
    }
}

impl<C> View for Live<C> {
    type V = LiveModel<C>;

    closed spec fn view(&self) -> LiveModel<C> {
        LiveModel { running: self.running, connections: self.connections@ }
    }
}

impl<C> Live<C> {
    #[verifier::type_invariant]
    spec fn well_formed(self) -> bool {
        self@.settled()
    }

    /// A server that has just started.
    #[must_use]
    pub fn new() -> (live: Live<C>)
        ensures
            live@ == (LiveModel { running: true, connections: Seq::<C>::empty() }),
    {
        Live { running: true, connections: Vec::new() }
    }

    /// Hold a second handle to a stream about to be served, which is how
    /// shutting down unblocks it. `handle` is nothing when there is none.
    ///
    /// # Errors
    ///
    /// Failure means the stream is not in the list, so it must not be served:
    /// [`RememberError::Clone`] without a handle, and otherwise
    /// [`RememberError::Stopped`] once the server has stopped.
    pub fn remember(&mut self, handle: Option<C>) -> (result: Result<(), RememberError>)
        ensures
            (final(self)@, result) == old(self)@.remembering(handle),
            handle is None ==> result == Err::<(), RememberError>(RememberError::Clone),
            handle is Some && !old(self)@.running ==> result == Err::<(), RememberError>(
                RememberError::Stopped,
            ),
            handle is Some && old(self)@.running ==> result is Ok,
            final(self)@.running == old(self)@.running,
            final(self)@.connections == if result is Ok {
                old(self)@.connections.push(handle->Some_0)
            } else {
                old(self)@.connections
            },
            final(self)@.settled(),
    {
        proof {
            use_type_invariant(&*self);
        }
        let connection = match handle {
            Some(connection) => connection,
            None => return Err(RememberError::Clone),
        };
        if !self.running {
            return Err(RememberError::Stopped);
        }
        let mut connections: Vec<C> = Vec::new();
        std::mem::swap(&mut connections, &mut self.connections);
        connections.push(connection);
        self.connections = connections;
        Ok(())
    }

    /// Let go of the handle held last, for its stream to be closed.
    pub fn release(&mut self) -> (released: Option<C>)
        ensures
            (final(self)@, released) == old(self)@.releasing(),
            final(self)@.running == old(self)@.running,
            released is None <==> old(self)@.connections.len() == 0,
            match released {
                Some(connection) => old(self)@.connections == final(self)@.connections.push(
                    connection,
                ),
                None => final(self)@.connections == old(self)@.connections,
            },
            final(self)@.settled(),
    {
        proof {
            use_type_invariant(&*self);
        }
        let mut connections: Vec<C> = Vec::new();
        std::mem::swap(&mut connections, &mut self.connections);
        let released = connections.pop();
        self.connections = connections;
        released
    }

    /// Stop, and let go of every handle, for their streams to be closed.
    pub fn shut_down(&mut self) -> (released: Vec<C>)
        ensures
            (final(self)@, released@) == old(self)@.stopping(),
            released@ == old(self)@.connections,
            !final(self)@.running,
            final(self)@.connections.len() == 0,
    {
        let mut released: Vec<C> = Vec::new();
        std::mem::swap(&mut released, &mut self.connections);
        self.running = false;
        released
    }
}

/// What came of waiting for a client.
#[derive(Debug)]
pub enum Arrival {
    /// No client can arrive any more.
    Failed,
    /// A client arrived, and this came of remembering its stream.
    Accepted(Result<(), RememberError>),
}

/// What to do about an arrival.
#[derive(Debug, Clone, Copy, PartialEq, Eq, Structural)]
pub enum Admission {
    /// Serve the stream, release it, and wait for the next client.
    Serve,
    /// Close the stream, and wait for the next client.
    TurnAway,
    /// Close the stream, and stop waiting.
    TurnAwayAndStop,
    /// Stop waiting.
    Stop,
}

/// Take clients one after another until the server stops: the decision that
/// follows one arrival. Only a remembered stream is served.
#[must_use]
pub fn receive(arrival: Arrival) -> (admission: Admission)
    ensures
        admission == match arrival {
            Arrival::Failed => Admission::Stop,
            Arrival::Accepted(Ok(())) => Admission::Serve,
            Arrival::Accepted(Err(RememberError::Clone)) => Admission::TurnAway,
            Arrival::Accepted(Err(RememberError::Stopped)) => Admission::TurnAwayAndStop,
        },
{
    match arrival {
        Arrival::Failed => Admission::Stop,
        Arrival::Accepted(Ok(())) => Admission::Serve,
        Arrival::Accepted(Err(RememberError::Clone)) => Admission::TurnAway,
        Arrival::Accepted(Err(RememberError::Stopped)) => Admission::TurnAwayAndStop,
    }
}

} // verus!
