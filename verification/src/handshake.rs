//! The connect handshake: the firmware's version, then its capabilities.
use crate::client::{answer, Client, ClientView, Request};
use crate::codec::write_unit;
use crate::command::{Cmd, GET_CAPABILITIES, GET_VERSION};
use crate::error::{ConnectError, RequestError};
use crate::frame::FrameView;
use crate::payload::{DeviceCapabilities, ProtocolVersion, CURRENT_MAJOR, CURRENT_MINOR};
use crate::transport::TransportError;
use vstd::prelude::*;

verus! {

/// What a handshake waits for.
#[derive(Debug, Clone, Copy, PartialEq, Eq, Structural)]
pub enum Stage {
    Version,
    Capabilities,
}

/// A handshake as a value.
pub ghost struct HandshakeView {
    pub client: ClientView,
    pub stage: Stage,
    /// The sequence number of the pending request; its command follows from the
    /// stage.
    pub seq: u8,
    /// The frame of the pending request.
    pub frame: Seq<u8>,
}

/// What a handshake does next, as a value.
pub ghost enum StepView {
    Send(HandshakeView),
    Receive(HandshakeView),
    Done(ClientView),
    Failed(ConnectError),
}

/// The error for firmware of another protocol major.
pub open spec fn mismatch(version: ProtocolVersion) -> ConnectError {
    ConnectError::VersionMismatch {
        firmware_major: version.major,
        firmware_minor: version.minor,
        host_major: CURRENT_MAJOR,
        host_max_minor: CURRENT_MINOR,
    }
}

impl HandshakeView {
    /// A handshake whose first request has not been sent.
    pub open spec fn start() -> HandshakeView {
        HandshakeView {
            client: ClientView::fresh().request(Cmd { raw: GET_VERSION }, Some(seq![])).0,
            stage: Stage::Version,
            seq: 1,
            frame: ClientView::fresh().request(
                Cmd { raw: GET_VERSION },
                Some(seq![]),
            ).1->Ok_0.bytes(),
        }
    }

    /// What follows from the firmware's version: only another major is
    /// refused; any minor of the same major connects.
    pub open spec fn with_version(client: ClientView, version: ProtocolVersion) -> StepView {
        if version.major != CURRENT_MAJOR {
            StepView::Failed(mismatch(version))
        } else {
            let client = ClientView { version, ..client };
            match client.request(Cmd { raw: GET_CAPABILITIES }, Some(seq![])) {
                (client, Ok(frame)) => StepView::Send(
                    HandshakeView {
                        client,
                        stage: Stage::Capabilities,
                        seq: frame.seq,
                        frame: frame.bytes(),
                    },
                ),
                (client, Err(e)) => StepView::Failed(ConnectError::Request(e)),
            }
        }
    }

    /// What follows from the reply to the pending request; `client` is the client
    /// that read it.
    pub open spec fn decide(self, client: ClientView, reply: FrameView) -> StepView {
        match self.stage {
            Stage::Version => match answer::<ProtocolVersion>(Cmd { raw: GET_VERSION }, reply) {
                Ok(version) => HandshakeView::with_version(client, version),
                Err(e) => StepView::Failed(ConnectError::Request(e)),
            },
            Stage::Capabilities => match answer::<DeviceCapabilities>(
                Cmd { raw: GET_CAPABILITIES },
                reply,
            ) {
                Ok(caps) => StepView::Done(client.negotiate(caps)),
                Err(e) => StepView::Failed(ConnectError::Request(e)),
            },
        }
    }

    /// What follows from the bytes that have arrived.
    pub open spec fn step(self) -> StepView {
        match self.client.await_reply(self.seq) {
            (client, None) => StepView::Receive(HandshakeView { client, ..self }),
            (client, Some(reply)) => self.decide(client, reply),
        }
    }
}

/// The pending request of a handshake.
enum Pending {
    Version(Request<ProtocolVersion>),
    Capabilities(Request<DeviceCapabilities>),
}

/// A handshake in progress.
pub struct Handshake {
    client: Client,
    pending: Pending,
}

impl View for Handshake {
    type V = HandshakeView;

    closed spec fn view(&self) -> HandshakeView {
        match self.pending {
            Pending::Version(request) => HandshakeView {
                client: self.client@,
                stage: Stage::Version,
                seq: request.spec_seq(),
                frame: request.bytes(),
            },
            Pending::Capabilities(request) => HandshakeView {
                client: self.client@,
                stage: Stage::Capabilities,
                seq: request.spec_seq(),
                frame: request.bytes(),
            },
        }
    }
}

/// What a handshake does next.
pub enum Step {
    /// Send [`Handshake::frame`], then call [`Handshake::sent`].
    Send(Handshake),
    /// Receive a chunk, then call [`Handshake::received`].
    Receive(Handshake),
    /// Connected.
    Done(Client),
    Failed(ConnectError),
}

impl View for Step {
    type V = StepView;

    open spec fn view(&self) -> StepView {
        match *self {
            Step::Send(handshake) => StepView::Send(handshake@),
            Step::Receive(handshake) => StepView::Receive(handshake@),
            Step::Done(client) => StepView::Done(client@),
            Step::Failed(e) => StepView::Failed(e),
        }
    }
}

impl Handshake {
    /// Whether the pending request carries the command that its stage asks for.
    #[verifier::type_invariant]
    spec fn inv(self) -> bool {
        match self.pending {
            Pending::Version(request) => request.spec_cmd() == (Cmd { raw: GET_VERSION }),
            Pending::Capabilities(request) => request.spec_cmd() == (Cmd {
                raw: GET_CAPABILITIES,
            }),
        }
    }

    /// The frame to send.
    pub fn frame(&self) -> (frame: &Vec<u8>)
        ensures
            frame@ == self@.frame,
    {
        match &self.pending {
            Pending::Version(request) => request.frame(),
            Pending::Capabilities(request) => request.frame(),
        }
    }

    /// Takes the link's answer to a send.
    pub fn sent(self, outcome: Result<(), TransportError>) -> (r: Result<Handshake, ConnectError>)
        ensures
            match outcome {
                Ok(_) => r matches Ok(handshake) && handshake@ == self@,
                Err(e) => r matches Err(got) && got == ConnectError::Request(
                    RequestError::Transport(e),
                ),
            },
    {
        match outcome {
            Ok(_) => Ok(self),
            Err(e) => Err(ConnectError::Request(RequestError::Transport(e))),
        }
    }

    /// Takes the link's answer to a receive.
    pub fn received(self, outcome: Result<Vec<u8>, TransportError>) -> (r: Result<
        Handshake,
        ConnectError,
    >)
        ensures
            match outcome {
                Ok(chunk) => r matches Ok(handshake) && handshake@ == (HandshakeView {
                    client: self@.client.receive(chunk@),
                    ..self@
                }),
                Err(e) => r matches Err(got) && got == ConnectError::Request(
                    RequestError::Transport(e),
                ),
            },
    {
        proof {
            use_type_invariant(&self);
        }
        let Handshake { mut client, pending } = self;
        match client.received(outcome) {
            Ok(_) => Ok(Handshake { client, pending }),
            Err(e) => Err(ConnectError::Request(RequestError::Transport(e))),
        }
    }

    /// Decides what follows from the firmware's version.
    fn with_version(mut client: Client, version: ProtocolVersion) -> (step: Step)
        ensures
            step@ == HandshakeView::with_version(client@, version),
    {
        let supported = ProtocolVersion::current();
        if version.major != supported.major {
            return Step::Failed(
                ConnectError::VersionMismatch {
                    firmware_major: version.major,
                    firmware_minor: version.minor,
                    host_major: supported.major,
                    host_max_minor: supported.minor,
                },
            );
        }
        client.speaks(version);
        match client.request_raw::<DeviceCapabilities>(
            Cmd { raw: GET_CAPABILITIES },
            write_unit(),
        ) {
            Ok(request) => Step::Send(
                Handshake { client, pending: Pending::Capabilities(request) },
            ),
            Err(e) => Step::Failed(ConnectError::Request(e)),
        }
    }

    /// Reads what has arrived and says what to do next.
    pub fn poll(self) -> (step: Step)
        ensures
            step@ == self@.step(),
    {
        proof {
            use_type_invariant(&self);
        }
        let Handshake { mut client, pending } = self;
        match pending {
            Pending::Version(request) => match client.poll_reply(&request) {
                None => Step::Receive(Handshake { client, pending: Pending::Version(request) }),
                Some(Ok(version)) => Handshake::with_version(client, version),
                Some(Err(e)) => Step::Failed(ConnectError::Request(e)),
            },
            Pending::Capabilities(request) => match client.poll_reply(&request) {
                None => Step::Receive(
                    Handshake { client, pending: Pending::Capabilities(request) },
                ),
                Some(Ok(caps)) => {
                    client.negotiated(caps);
                    Step::Done(client)
                },
                Some(Err(e)) => Step::Failed(ConnectError::Request(e)),
            },
        }
    }
}

impl Client {
    /// Starts a handshake.
    ///
    /// Rejects only a protocol major mismatch; same-major firmware of any minor
    /// connects. After a mismatch the version round trip has completed, leaving
    /// the stream clean for a retry with a client built for the firmware's
    /// major.
    pub fn connect() -> (r: Result<Handshake, ConnectError>)
        ensures
            r matches Ok(handshake) && handshake@ == HandshakeView::start(),
    {
        let mut client = Client::new();
        match client.request_raw::<ProtocolVersion>(Cmd { raw: GET_VERSION }, write_unit()) {
            Ok(request) => Ok(Handshake { client, pending: Pending::Version(request) }),
            Err(e) => Err(ConnectError::Request(e)),
        }
    }
}

} // verus!
