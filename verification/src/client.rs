//! The request/response client over one connection. The client decides and
//! keeps the state; whoever owns the socket writes the frame it is given and
//! reports what came of it.

use crate::error::{Error, ErrorView};
use crate::frame::{
    encode_frame, fits_one_frame, framed, frames_of, lemma_frames_resume, lemma_one_frame,
    lemma_remainder_is_a_line, remainder_of, single_line, split_frames,
};
use crate::method::Method;
use crate::wire::{
    decode_frames, decoded_frame, decoded_frames, encode_request, exchange_view, gathered,
    lemma_gathered_all, request_for, request_of, Response, ResponseView,
};
use vstd::prelude::*;
use vstd::string::*;
use vstd::utf8::encode_utf8;

verus! {

/// What the owner of the socket reports of one exchange.
#[derive(Clone, Debug, PartialEq, Eq)]
pub enum Transfer {
    /// The frame could not be written; the message says why.
    WriteFailed(String),
    /// Reading failed; the message says why.
    ReadFailed(String),
    /// The bytes that were read; none where nothing was there to read.
    Received(Vec<u8>),
}

/// The client of one connection: whether the connection still serves, the
/// id that the next request will carry, and what has arrived of a frame
/// that is not there in full.
#[derive(Debug)]
pub struct RpcClient {
    connected: bool,
    next_id: u64,
    pending: Vec<u8>,
}

/// An `RpcClient` as contracts see it.
pub struct ClientView {
    pub connected: bool,
    pub next_id: u64,
    pub pending: Seq<u8>,
}

impl ClientView {
    /// What holds of every client: ids start at 1, and what is kept of an
    /// unfinished frame holds no line feed.
    pub open spec fn valid(self) -> bool {
        self.next_id >= 1 && single_line(self.pending)
    }
}

impl View for RpcClient {
    type V = ClientView;

    closed spec fn view(&self) -> ClientView {
        ClientView { connected: self.connected, next_id: self.next_id, pending: self.pending@ }
    }
}

/// The id that follows `id`: the next number, and 1 after the largest.
pub open spec fn id_after(id: u64) -> u64 {
    if id == u64::MAX {
        1
    } else {
        (id + 1) as u64
    }
}

/// The failure that every operation on a failed connection reports.
pub open spec fn connection_lost() -> ErrorView {
    ErrorView::Io("connection has failed"@)
}

/// The frame that carries a request's text: the text as UTF-8, then a line
/// feed. A text that would not be exactly one frame, because it is empty or
/// holds a line feed, is a protocol failure.
pub open spec fn text_frame(text: Seq<char>) -> Result<Seq<u8>, ErrorView> {
    let payload = encode_utf8(text);
    if payload.len() > 0 && single_line(payload) {
        Ok(framed(payload))
    } else {
        Err(ErrorView::JsonRpc("request does not fit in one frame"@))
    }
}

/// The frame that carries the request with the given id for the method `m`.
/// A request that cannot be written is a protocol failure, as is one whose
/// text cannot be framed.
pub open spec fn request_frame(id: u64, m: Method) -> Result<Seq<u8>, ErrorView> {
    match request_of(request_for(id, m)) {
        Err(e) => Err(e),
        Ok(text) => text_frame(text),
    }
}

/// A frame, or a failure, as contracts see them.
pub open spec fn frame_view(frame: Result<Vec<u8>, Error>) -> Result<Seq<u8>, ErrorView> {
    match frame {
        Ok(bytes) => Ok(bytes@),
        Err(e) => Err(e@),
    }
}

/// The client after a send was begun, and the frame to write. A failed
/// connection gives no frame and stays as it is; a live one gives the
/// request's frame and moves on to the next id once a frame was made.
pub open spec fn send_begun(client: ClientView, m: Method) -> (ClientView, Result<
    Seq<u8>,
    ErrorView,
>) {
    if !client.connected {
        (client, Err(connection_lost()))
    } else {
        let frame = request_frame(client.next_id, m);
        if frame is Ok {
            (ClientView { next_id: id_after(client.next_id), ..client }, frame)
        } else {
            (client, frame)
        }
    }
}

/// Whether a receive may begin: not on a failed connection.
pub open spec fn receive_begun(client: ClientView) -> Result<(), ErrorView> {
    if client.connected {
        Ok(())
    } else {
        Err(connection_lost())
    }
}

/// The client after an exchange, and what the exchange gave. On a failed
/// connection nothing is looked at. A failure to write or to read ends the
/// connection. Bytes that were read follow what was kept of an unfinished
/// frame: the frames that are now there in full are decoded, in the order of
/// arrival, and what follows the last of them is kept. No bytes give no
/// responses.
pub open spec fn finished(client: ClientView, transfer: Transfer) -> (ClientView, Result<
    Seq<ResponseView>,
    ErrorView,
>) {
    if !client.connected {
        (client, Err(connection_lost()))
    } else {
        match transfer {
            Transfer::WriteFailed(message) => (
                ClientView { connected: false, ..client },
                Err(ErrorView::Io(message@)),
            ),
            Transfer::ReadFailed(message) => (
                ClientView { connected: false, ..client },
                Err(ErrorView::Io(message@)),
            ),
            Transfer::Received(bytes) => {
                let data = client.pending + bytes@;
                (
                    ClientView { pending: remainder_of(data), ..client },
                    gathered(decoded_frames(frames_of(data))),
                )
            },
        }
    }
}

/// The id that follows `id`.
pub fn following_id(id: u64) -> (next: u64)
    ensures
        next == id_after(id),
{
    if id == u64::MAX {
        1
    } else {
        id + 1
    }
}

/// The frame that carries the request's text.
pub fn frame_text(text: &str) -> (frame: Result<Vec<u8>, Error>)
    ensures
        frame_view(frame) == text_frame(text@),
{
    let payload = text.as_bytes();
    if fits_one_frame(payload) {
        Ok(encode_frame(payload))
    } else {
        Err(Error::JsonRpc(String::from_str("request does not fit in one frame")))
    }
}

/// The frame that carries the request with the given id for the method `m`.
pub fn frame_request(id: u64, m: Method) -> (frame: Result<Vec<u8>, Error>)
    ensures
        frame_view(frame) == request_frame(id, m),
{
    match encode_request(id, m) {
        Err(e) => Err(e),
        Ok(text) => frame_text(text.as_str()),
    }
}

impl RpcClient {
    #[verifier::type_invariant]
    spec fn well_formed(self) -> bool {
        self@.valid()
    }

    /// The client of a connection that was just opened, together with the
    /// connection, or the failure to open it.
    pub fn connect<T>(opened: Result<T, String>) -> (client: Result<(RpcClient, T), Error>)
        ensures
            match opened {
                Ok(connection) => client matches Ok(pair) && pair.1 == connection
                    && pair.0@ == (ClientView {
                    connected: true,
                    next_id: 1,
                    pending: Seq::empty(),
                }),
                Err(message) => client matches Err(e) && e@ == ErrorView::Connection(message@),
            },
    {
        match opened {
            Ok(connection) => Ok(
                (RpcClient { connected: true, next_id: 1, pending: Vec::new() }, connection),
            ),
            Err(message) => Err(Error::Connection(message)),
        }
    }

    /// Whether the connection still serves.
    pub fn is_connected(&self) -> (connected: bool)
        ensures
            connected == self@.connected,
    {
        self.connected
    }

    /// The id that the next request will carry.
    pub fn next_id(&self) -> (id: u64)
        ensures
            id == self@.next_id,
            id >= 1,
    {
        proof {
            use_type_invariant(self);
        }
        self.next_id
    }

    /// What is kept of a frame that has not arrived in full.
    pub fn pending(&self) -> (bytes: &[u8])
        ensures
            bytes@ == self@.pending,
            single_line(bytes@),
    {
        proof {
            use_type_invariant(self);
        }
        self.pending.as_slice()
    }

    /// Begins a send: gives the one frame to write for the method `m`.
    pub fn begin_send(&mut self, m: Method) -> (frame: Result<Vec<u8>, Error>)
        ensures
            (final(self)@, frame_view(frame)) == send_begun(old(self)@, m),
            final(self)@.valid(),
    {
        proof {
            use_type_invariant(&*self);
        }
        if !self.connected {
            return Err(Error::Io(String::from_str("connection has failed")));
        }
        let frame = frame_request(self.next_id, m);
        if frame.is_ok() {
            self.next_id = following_id(self.next_id);
        }
        frame
    }

    /// Begins a receive, which writes nothing: says whether the connection
    /// may be read.
    pub fn begin_receive(&self) -> (allowed: Result<(), Error>)
        ensures
            match receive_begun(self@) {
                Ok(_) => allowed is Ok,
                Err(e) => allowed matches Err(f) && f@ == e,
            },
    {
        if self.connected {
            Ok(())
        } else {
            Err(Error::Io(String::from_str("connection has failed")))
        }
    }

    /// Ends a send or a receive with what the owner of the socket reports.
    pub fn finish(&mut self, transfer: Transfer) -> (outcome: Result<Vec<Response>, Error>)
        ensures
            (final(self)@, exchange_view(outcome)) == finished(old(self)@, transfer),
            final(self)@.valid(),
    {
        proof {
            use_type_invariant(&*self);
        }
        if !self.connected {
            return Err(Error::Io(String::from_str("connection has failed")));
        }
        match transfer {
            Transfer::WriteFailed(message) => {
                self.connected = false;
                Err(Error::Io(message))
            },
            Transfer::ReadFailed(message) => {
                self.connected = false;
                Err(Error::Io(message))
            },
            Transfer::Received(bytes) => {
                let mut data: Vec<u8> = Vec::new();
                data.extend_from_slice(self.pending.as_slice());
                data.extend_from_slice(bytes.as_slice());
                assert(data@ == self.pending@ + bytes@);
                let (frames, rest) = split_frames(data.as_slice());
                proof {
                    lemma_remainder_is_a_line(data@);
                }
                self.pending = rest;
                decode_frames(&frames)
            },
        }
    }
}

/// A send on a live connection writes exactly one frame, and that frame
/// holds the text of the request for the method: the request that carries
/// the client's next id and the method's wire name.
pub proof fn lemma_send_writes_one_frame(client: ClientView, m: Method)
    requires
        client.connected,
    ensures
        send_begun(client, m).1 matches Ok(frame) ==> request_for(client.next_id, m) matches Some(
            text,
        ) && frames_of(frame) == seq![encode_utf8(text)] && remainder_of(frame) == Seq::<
            u8,
        >::empty(),
{
    if let Ok(frame) = send_begun(client, m).1 {
        let text = request_for(client.next_id, m)->Some_0;
        lemma_one_frame(encode_utf8(text));
    }
}

/// An exchange that succeeds gives one response for each frame that is
/// there in full, in the order of arrival: none is dropped, added or moved.
pub proof fn lemma_responses_in_order(client: ClientView, bytes: Vec<u8>)
    requires
        client.connected,
    ensures
        finished(client, Transfer::Received(bytes)).1 matches Ok(responses) ==> responses.len()
            == frames_of(client.pending + bytes@).len() && forall|i: int|
            0 <= i < responses.len() ==> decoded_frame(
                #[trigger] frames_of(client.pending + bytes@)[i],
            ) == Ok::<ResponseView, ErrorView>(responses[i]),
{
    let frames = frames_of(client.pending + bytes@);
    let results = decoded_frames(frames);
    lemma_gathered_all(results);
    if let Ok(responses) = gathered(results) {
        assert forall|i: int| 0 <= i < responses.len() implies decoded_frame(#[trigger] frames[i])
            == Ok::<ResponseView, ErrorView>(responses[i]) by {
            assert(results[i] == decoded_frame(frames[i]));
        }
    }
}

/// Where nothing was there to read, an exchange on a live connection gives
/// no responses and no failure, and leaves the client as it was.
pub proof fn lemma_nothing_received(client: ClientView, bytes: Vec<u8>)
    requires
        client.valid(),
        client.connected,
        bytes@.len() == 0,
    ensures
        finished(client, Transfer::Received(bytes)) == (
            client,
            Ok::<Seq<ResponseView>, ErrorView>(Seq::empty()),
        ),
{
    lemma_remainder_is_a_line(client.pending);
}

/// Reading in pieces loses nothing: after two reads the client keeps what
/// it would keep after one read of both pieces, and the frames that the two
/// reads found are, in their order, the frames that the one read finds.
pub proof fn lemma_pieces_arrive_whole(
    client: ClientView,
    first: Vec<u8>,
    next: Vec<u8>,
    both: Vec<u8>,
)
    requires
        client.connected,
        both@ == first@ + next@,
    ensures
        ({
            let after_first = finished(client, Transfer::Received(first)).0;
            let after_next = finished(after_first, Transfer::Received(next)).0;
            let after_both = finished(client, Transfer::Received(both)).0;
            &&& after_next == after_both
            &&& frames_of(client.pending + first@) + frames_of(after_first.pending + next@)
                == frames_of(client.pending + both@)
        }),
{
    lemma_frames_resume(client.pending + first@, next@);
    assert((client.pending + first@) + next@ == client.pending + both@);
}

/// A failure to write or to read ends the connection, and on a connection
/// that has ended every operation fails with the same failure, gives no
/// frame to write, and leaves the client as it is: nothing brings the
/// connection back.
pub proof fn lemma_failure_is_final(
    client: ClientView,
    message: String,
    m: Method,
    transfer: Transfer,
)
    ensures
        !finished(client, Transfer::WriteFailed(message)).0.connected,
        !finished(client, Transfer::ReadFailed(message)).0.connected,
        !client.connected ==> send_begun(client, m) == (
            client,
            Err::<Seq<u8>, ErrorView>(connection_lost()),
        ),
        !client.connected ==> receive_begun(client) == Err::<(), ErrorView>(connection_lost()),
        !client.connected ==> finished(client, transfer) == (
            client,
            Err::<Seq<ResponseView>, ErrorView>(connection_lost()),
        ),
{
}

} // verus!
