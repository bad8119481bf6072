//! The host's brokered connection, as bytes out and bytes in.
//!
//! A read blocks up to a deadline and comes back with chunks, with word that the peer closed, or
//! with nothing. The last two are different things: collapsing them would end every slow response
//! as a truncated one. What survives between two reads is the handle and whatever has arrived and
//! not been consumed.

pub use crate::hex::{decode_hex, encode_hex};

use vstd::prelude::*;
use vstd::string::*;

use crate::digits::{decimal, number, padded, wide};
use crate::failure::{failure, refusal, Class, Refusal, WireError};
use crate::hex::{decoded, encoded, is_encoding};
use crate::json::{
    entry, flag_of, group_json, items_of, json_views, natural_of, text_of, Json, JsonView,
};
use crate::text::{fill2, filled, join3, trim_end, trimmed_end};

verus! {

// --- how a connection reads -----------------------------------------------------------------------

/// How long one read of a request/response exchange waits for the first byte, in milliseconds.
pub const REQUEST_DEADLINE_MILLIS: u64 = 30_000;

/// How many empty deadline windows such a read tolerates before it calls the connection dead.
pub const IDLE_WINDOWS: u32 = 3;

/// How long one read of an open watch waits before it comes back with nothing, in milliseconds.
pub const WATCH_POLL_MILLIS: u64 = 250;

/// How many chunks one read asks for.
pub const CHUNKS_PER_READ: u64 = 16;

/// How a connection reads: how long one read waits, and what silence means.
///
/// Two policies rather than one constant, because an API server that has accepted a request and
/// then says nothing is broken, and a watch that says nothing is a collection in which nothing
/// happened.
#[derive(Debug, Clone, Copy, PartialEq, Eq, Structural)]
pub struct ReadPolicy {
    /// How long one read waits, in milliseconds.
    pub deadline_millis: u64,
    /// After how many silent windows the connection counts as dead; `None` is never.
    pub idle_windows: Option<u32>,
    /// After how many silent windows the read hands control back without ending anything; `None` is
    /// never.
    pub quiet_windows: Option<u32>,
}

impl ReadPolicy {
    /// A request and its response: a long window, and silence that eventually means failure.
    pub fn request() -> (r: ReadPolicy)
        ensures
            r == (ReadPolicy {
                deadline_millis: REQUEST_DEADLINE_MILLIS,
                idle_windows: Some(IDLE_WINDOWS),
                quiet_windows: None,
            }),
    {
        ReadPolicy {
            deadline_millis: REQUEST_DEADLINE_MILLIS,
            idle_windows: Some(IDLE_WINDOWS),
            quiet_windows: None,
        }
    }

    /// An open watch: a short window, and silence that means nothing has changed. It hands control
    /// back after one quiet window, which ends nothing.
    pub fn watch() -> (r: ReadPolicy)
        ensures
            r == (ReadPolicy {
                deadline_millis: WATCH_POLL_MILLIS,
                idle_windows: None,
                quiet_windows: Some(1),
            }),
    {
        ReadPolicy {
            deadline_millis: WATCH_POLL_MILLIS,
            idle_windows: None,
            quiet_windows: Some(1),
        }
    }
}

impl Default for ReadPolicy {
    fn default() -> (r: ReadPolicy)
        ensures
            r == (ReadPolicy {
                deadline_millis: REQUEST_DEADLINE_MILLIS,
                idle_windows: Some(IDLE_WINDOWS),
                quiet_windows: None,
            }),
    {
        ReadPolicy::request()
    }
}

// --- what can go wrong ----------------------------------------------------------------------------

/// What a read or a write came to instead of bytes.
#[derive(Debug, PartialEq, Eq)]
pub struct StreamError {
    pub message: String,
    /// Whether nothing is wrong: the peer said nothing in this window, and the read may go on where
    /// it was.
    pub quiet: bool,
}

impl View for StreamError {
    type V = (Seq<char>, bool);

    open spec fn view(&self) -> (Seq<char>, bool) {
        (self.message@, self.quiet)
    }
}

/// What a read reports when a window passed and the peer said nothing.
pub const QUIET: &'static str = "the connection produced nothing in this window";

/// What a read reports when the invocation was cancelled while the connection was open.
pub const CANCELLED: &'static str = "the invocation was cancelled while the connection was open";

pub const NOT_HEXADECIMAL: &'static str =
    "the host delivered a chunk that is not hexadecimal bytes";

pub const CONNECTION_FAILED: &'static str = "the connection failed";

pub const CLOSED: &'static str = "the brokered connection is closed";

pub const SILENT: &'static str =
    "the API server sent nothing for {}s across {} reads, and the \
    connection is still open — a silent peer is not an end of stream";

pub const OVERLAP: &'static str =
    "the invocation context was asked for while a read of the brokered connection \
    still held it";

pub const OVERLAP_HELP: &'static str =
    "A read and an emission overlapped. This is a defect in the Kubernetes provider, \
    not in the cluster or the host.";

pub const NO_HANDLE: &'static str = "the host answered `network.connect` with no handle";

/// The context was asked for while it was already lent out.
pub fn overlapping_borrow() -> (r: WireError)
    ensures
        r@ == refusal(Class::Trap, OVERLAP@, OVERLAP_HELP@),
{
    failure(Class::Trap, OVERLAP.to_owned(), OVERLAP_HELP)
}

/// What a protocol error says: nothing can be done about it here, so it offers no help.
pub open spec fn protocol_refusal(message: Seq<char>) -> Refusal {
    Refusal {
        code: Class::Protocol.spec_code(),
        name: Class::Protocol.spec_name(),
        message,
        help: None,
    }
}

/// The host answered something the protocol does not allow.
pub fn protocol_error(message: &str) -> (r: WireError)
    ensures
        r@ == protocol_refusal(message@),
{
    WireError {
        code: Class::Protocol.code(),
        name: Class::Protocol.name(),
        message: message.to_owned(),
        help: None,
    }
}

fn stream_error(message: &str) -> (r: StreamError)
    ensures
        r@ == (message@, false),
{
    StreamError { message: message.to_owned(), quiet: false }
}

// --- one answer of the host -----------------------------------------------------------------------

/// The hexadecimal text one delivered value carries; the empty one where it carries none.
pub open spec fn chunk_text(value: JsonView) -> Seq<char> {
    match entry(value, "bytes"@) {
        Some(bytes) => match text_of(entry(bytes, "$bytes"@)) {
            Some(text) => text,
            None => Seq::empty(),
        },
        None => Seq::empty(),
    }
}

/// The values an answer delivers.
pub open spec fn delivered(answer: JsonView) -> Seq<JsonView> {
    match items_of(entry(answer, "values"@)) {
        Some(values) => values,
        None => Seq::empty(),
    }
}

/// How many of some values are whole chunks before one that is not.
pub open spec fn whole_chunks(values: Seq<JsonView>) -> int
    decreases values.len(),
{
    if values.len() == 0 || !is_encoding(chunk_text(values[0])) {
        0
    } else {
        1 + whole_chunks(values.skip(1))
    }
}

/// The bytes of some chunks, in order.
pub open spec fn chunk_bytes(values: Seq<JsonView>) -> Seq<u8>
    decreases values.len(),
{
    if values.len() == 0 {
        Seq::empty()
    } else {
        chunk_bytes(values.drop_last()) + decoded(chunk_text(values.last()))
    }
}

/// Whether an answer says that the peer is done.
pub open spec fn is_complete(answer: JsonView) -> bool {
    flag_of(entry(answer, "complete"@)) == Some(true)
}

/// The failure an answer that is complete reports, where it reports one.
pub open spec fn reported_failure(answer: JsonView) -> Option<Seq<char>> {
    match entry(answer, "error"@) {
        Some(error) => match entry(error, "message"@) {
            Some(message) => match text_of(Some(message)) {
                Some(text) => Some(text),
                None => Some(CONNECTION_FAILED@),
            },
            None => None,
        },
        None => None,
    }
}

/// A brokered connection: the handle the host gave it, and what has arrived and not been consumed.
#[derive(Debug, PartialEq, Eq)]
pub struct BrokeredStream {
    pub connection: u64,
    pub pending: Vec<u8>,
    pub ended: bool,
    pub policy: ReadPolicy,
}

/// What one answer comes to: how many bytes arrived, or what is wrong.
pub open spec fn pulled(answer: JsonView) -> Result<int, (Seq<char>, bool)> {
    let values = delivered(answer);
    let whole = whole_chunks(values);
    if whole < values.len() {
        Err((NOT_HEXADECIMAL@, false))
    } else if is_complete(answer) && reported_failure(answer) is Some {
        Err((reported_failure(answer)->0, false))
    } else {
        Ok(chunk_bytes(values).len() as int)
    }
}

impl BrokeredStream {
    /// The connection the host's answer names.
    ///
    /// # Errors
    ///
    /// A protocol violation where the answer names no handle.
    pub fn connect(answer: &Json, policy: ReadPolicy) -> (r: Result<BrokeredStream, WireError>)
        ensures
            match r {
                Ok(stream) => {
                    &&& natural_of(entry(answer@, "handle"@)) == Some(stream.connection as int)
                    &&& stream.pending@.len() == 0
                    &&& !stream.ended
                    &&& stream.policy == policy
                },
                Err(error) => natural_of(entry(answer@, "handle"@)) is None && error@
                    == protocol_refusal(NO_HANDLE@),
            },
    {
        let handle: Option<u64> = match answer.get("handle") {
            Some(json) => json.as_u64(),
            None => None,
        };
        match handle {
            Some(connection) => Ok(
                BrokeredStream { connection, pending: Vec::new(), ended: false, policy },
            ),
            None => Err(protocol_error(NO_HANDLE)),
        }
    }

    /// The handle the host gave this connection.
    pub fn handle(&self) -> (r: u64)
        ensures
            r == self.connection,
    {
        self.connection
    }

    /// Whether the host still holds this connection open. Asked before closing, because the host
    /// retires a connection by itself the moment the peer closes it.
    pub fn is_open(&self) -> (r: bool)
        ensures
            r == !self.ended,
    {
        !self.ended
    }

    /// Takes one answer of the host into what is pending.
    ///
    /// Chunks are appended in order, up to the first that is not one. An answer that is complete
    /// ends the stream, whatever it reports.
    ///
    /// # Errors
    ///
    /// A failure where a chunk is not one, or where a complete answer reports a failure.
    pub fn pull(&mut self, answer: &Json) -> (r: Result<usize, StreamError>)
        ensures
            match r {
                Ok(arrived) => pulled(answer@) == Ok::<int, (Seq<char>, bool)>(arrived as int),
                Err(error) => pulled(answer@) == Err::<int, (Seq<char>, bool)>(error@),
            },
            final(self).connection == old(self).connection,
            final(self).policy == old(self).policy,
            final(self).pending@ == old(self).pending@ + chunk_bytes(
                delivered(answer@).take(whole_chunks(delivered(answer@))),
            ),
            final(self).ended == (old(self).ended || (whole_chunks(delivered(answer@)) == delivered(
                answer@,
            ).len() && is_complete(answer@))),
    {
        let ghost values = delivered(answer@);
        let ghost start = self.pending@;
        let mut arrived: usize = 0;
        let items: Option<&Vec<Json>> = match answer.get("values") {
            Some(json) => json.as_array(),
            None => None,
        };
        proof {
            assert(start + chunk_bytes(values.take(0)) =~= start);
            assert(values.skip(0) =~= values);
        }
        match items {
            Some(items) => {
                let mut i: usize = 0;
                while i < items.len()
                    invariant
                        i <= items.len(),
                        values == json_views(items@),
                        values == delivered(answer@),
                        whole_chunks(values) == i + whole_chunks(values.skip(i as int)),
                        start == old(self).pending@,
                        self.pending@ == start + chunk_bytes(values.take(i as int)),
                        arrived == chunk_bytes(values.take(i as int)).len(),
                        arrived <= self.pending@.len(),
                        self.connection == old(self).connection,
                        self.policy == old(self).policy,
                        self.ended == old(self).ended,
                    decreases items.len() - i,
                {
                    broadcast use group_json;

                    let ghost value = items@[i as int]@;
                    proof {
                        assert(values.skip(i as int)[0] == value);
                        assert(values.skip(i as int).skip(1) =~= values.skip(i + 1));
                        assert(values.take(i + 1).drop_last() =~= values.take(i as int));
                        assert(values.take(i + 1).last() == value);
                    }
                    let hex: Option<&str> = match items[i].get("bytes") {
                        Some(bytes) => match bytes.get("$bytes") {
                            Some(text) => text.as_str(),
                            None => None,
                        },
                        None => None,
                    };
                    let hex: String = match hex {
                        Some(text) => text.to_owned(),
                        None => String::new(),
                    };
                    assert(hex@ == chunk_text(value));
                    match decode_hex(hex.as_str()) {
                        Some(chunk) => {
                            let mut chunk: Vec<u8> = chunk;
                            let n: usize = chunk.len();
                            let ghost before = self.pending@;
                            self.pending.append(&mut chunk);
                            proof {
                                assert(self.pending@ == before + decoded(chunk_text(value)));
                                assert(self.pending@ =~= start + chunk_bytes(values.take(i + 1)));
                                assert(self.pending@.len() <= usize::MAX) by {
                                    assert(self.pending@.len() == self.pending.len());
                                }
                            }
                            arrived = arrived + n;
                        },
                        None => {
                            return Err(stream_error(NOT_HEXADECIMAL));
                        },
                    }
                    i = i + 1;
                }
                assert(values.take(i as int) =~= values);
                assert(values.skip(i as int) =~= Seq::<JsonView>::empty());
            },
            None => {
                assert(values =~= Seq::<JsonView>::empty());
                assert(values.take(0) =~= values);
            },
        }
        assert(whole_chunks(values) == values.len());
        assert(values.take(values.len() as int) =~= values);
        let complete: bool = match answer.get("complete") {
            Some(json) => match json.as_bool() {
                Some(flag) => flag,
                None => false,
            },
            None => false,
        };
        if complete {
            self.ended = true;
            if let Some(error) = answer.get("error") {
                if let Some(message) = error.get("message") {
                    return Err(
                        match message.as_str() {
                            Some(text) => stream_error(text),
                            None => stream_error(CONNECTION_FAILED),
                        },
                    );
                }
            }
        }
        Ok(arrived)
    }

    /// What is sent for some bytes: hexadecimal rather than text, because a request body is bytes.
    ///
    /// # Errors
    ///
    /// A failure where the connection is closed.
    pub fn write_all(&self, bytes: &[u8]) -> (r: Result<String, StreamError>)
        ensures
            match r {
                Ok(text) => !self.ended && text@ == encoded(bytes@),
                Err(error) => self.ended && error@ == (CLOSED@, false),
            },
    {
        if self.ended {
            Err(stream_error(CLOSED))
        } else {
            Ok(encode_hex(bytes))
        }
    }
}

// --- one read -------------------------------------------------------------------------------------

/// What a read does next.
#[derive(Debug, PartialEq, Eq)]
pub enum ReadStep {
    /// Bytes are pending: hand over as many as fit.
    Deliver,
    /// The peer closed and nothing is pending: the read ends with no bytes.
    End,
    /// Nothing is pending and the peer has not closed: ask the host for more.
    Ask,
}

/// A number of milliseconds in seconds, without trailing zeros.
pub open spec fn seconds_text(millis: nat) -> Seq<char> {
    if millis % 1000 == 0 {
        decimal(millis / 1000)
    } else {
        decimal(millis / 1000) + "."@ + trimmed_end(padded(millis % 1000, 3), '0')
    }
}

/// A number of milliseconds in seconds, without trailing zeros.
fn seconds(millis: u64) -> (r: String)
    ensures
        r@ == seconds_text(millis as nat),
{
    let whole: String = number((millis / 1000) as u128);
    if millis % 1000 == 0 {
        return whole;
    }
    let part: String = trim_end(wide((millis % 1000) as u128, 3).as_str(), '0');
    join3(whole.as_str(), ".", part.as_str())
}

/// What a window that brought nothing, or something, comes to: how many windows have been silent
/// now, or what the read reports.
///
/// A silent window is where a cancellation is noticed; then the policy says whether control is
/// handed back, and then whether the connection counts as dead.
pub open spec fn window_comes_to(
    policy: ReadPolicy,
    silent: bool,
    cancelled: bool,
    idle: int,
) -> Result<int, (Seq<char>, bool)> {
    if !silent {
        Ok(idle)
    } else if cancelled {
        Err((CANCELLED@, false))
    } else if policy.quiet_windows matches Some(limit) && idle + 1 >= limit {
        Err((QUIET@, true))
    } else if policy.idle_windows matches Some(limit) && idle + 1 >= limit {
        Err(
            (
                filled(
                    SILENT@,
                    seq![
                        seconds_text(policy.deadline_millis as nat),
                        decimal((idle + 1) as nat),
                    ],
                ),
                false,
            ),
        )
    } else {
        Ok(idle + 1)
    }
}

impl BrokeredStream {
    /// What a read does next.
    pub open spec fn next_read(self) -> ReadStep {
        if self.pending@.len() > 0 {
            ReadStep::Deliver
        } else if self.ended {
            ReadStep::End
        } else {
            ReadStep::Ask
        }
    }

    /// What a read does next: the peer having closed is an end only once nothing is pending.
    pub fn read_step(&self) -> (r: ReadStep)
        ensures
            r == self.next_read(),
    {
        if self.pending.len() > 0 {
            ReadStep::Deliver
        } else if self.ended {
            ReadStep::End
        } else {
            ReadStep::Ask
        }
    }

    /// What a window that has just been taken in comes to. `arrived` is what it brought, and `idle`
    /// how many silent windows this read has seen before.
    ///
    /// # Errors
    ///
    /// What the read reports: a cancellation, a yield that leaves the connection as it is, or a
    /// peer that has been silent too long.
    pub fn window(&self, arrived: usize, cancelled: bool, idle: u32) -> (r: Result<
        u32,
        StreamError,
    >)
        requires
            idle < u32::MAX,
        ensures
            ({
                let silent = arrived == 0 && self.next_read() == ReadStep::Ask;
                match r {
                    Ok(now) => window_comes_to(self.policy, silent, cancelled, idle as int) == Ok::<
                        int,
                        (Seq<char>, bool),
                    >(now as int),
                    Err(error) => window_comes_to(self.policy, silent, cancelled, idle as int)
                        == Err::<int, (Seq<char>, bool)>(error@),
                }
            }),
    {
        if arrived != 0 || self.pending.len() != 0 || self.ended {
            return Ok(idle);
        }
        if cancelled {
            return Err(stream_error(CANCELLED));
        }
        let idle: u32 = idle + 1;
        if let Some(limit) = self.policy.quiet_windows {
            if idle >= limit {
                return Err(StreamError { message: QUIET.to_owned(), quiet: true });
            }
        }
        if let Some(limit) = self.policy.idle_windows {
            if idle >= limit {
                let waited: String = seconds(self.policy.deadline_millis);
                return Err(
                    StreamError {
                        message: fill2(SILENT, waited.as_str(), number(idle as u128).as_str()),
                        quiet: false,
                    },
                );
            }
        }
        Ok(idle)
    }

    /// Hands over up to `wanted` of the pending bytes, in the order they arrived.
    pub fn deliver(&mut self, wanted: usize) -> (r: Vec<u8>)
        ensures
            r@.len() == if wanted <= old(self).pending@.len() {
                wanted as int
            } else {
                old(self).pending@.len() as int
            },
            r@ + final(self).pending@ == old(self).pending@,
            final(self).connection == old(self).connection,
            final(self).ended == old(self).ended,
            final(self).policy == old(self).policy,
    {
        let n: usize = if wanted <= self.pending.len() {
            wanted
        } else {
            self.pending.len()
        };
        let ghost all = self.pending@;
        let rest: Vec<u8> = self.pending.split_off(n);
        let mut out: Vec<u8> = rest;
        std::mem::swap(&mut out, &mut self.pending);
        assert(out@ + self.pending@ =~= all);
        out
    }
}

// --- laws -----------------------------------------------------------------------------------------

/// A request whose server says nothing is given up after three windows, and never before: the
/// first two silent windows go on waiting.
pub proof fn a_silent_request_ends(idle: int, cancelled: bool)
    requires
        0 <= idle,
    ensures
        ({
            let policy = ReadPolicy {
                deadline_millis: REQUEST_DEADLINE_MILLIS,
                idle_windows: Some(IDLE_WINDOWS),
                quiet_windows: None,
            };
            window_comes_to(policy, true, cancelled, idle) is Err <==> cancelled || idle >= 2
        }),
{
}

/// A watch is never ended by silence: a silent window of one that nobody cancelled hands control
/// back as quiet, which leaves the connection as it is, however long it has been silent.
pub proof fn silence_never_ends_a_watch(idle: int)
    requires
        0 <= idle,
    ensures
        ({
            let policy = ReadPolicy {
                deadline_millis: WATCH_POLL_MILLIS,
                idle_windows: None,
                quiet_windows: Some(1),
            };
            window_comes_to(policy, true, false, idle) == Err::<int, (Seq<char>, bool)>(
                (QUIET@, true),
            )
        }),
{
}

/// A peer that closed is told from one that is silent: a read ends only where the stream has ended
/// and every byte that arrived has been handed over.
pub proof fn a_read_ends_only_after_the_last_byte(stream: BrokeredStream)
    ensures
        stream.next_read() == ReadStep::End <==> stream.ended && stream.pending@.len() == 0,
        stream.next_read() == ReadStep::Ask <==> !stream.ended && stream.pending@.len() == 0,
{
}

/// What is written for some bytes is a chunk that the other side takes in as exactly those bytes.
pub proof fn what_is_written_can_be_taken_in(bytes: Seq<u8>, value: JsonView)
    requires
        chunk_text(value) == encoded(bytes),
    ensures
        whole_chunks(seq![value]) == 1,
        chunk_bytes(seq![value]) == bytes,
{
    crate::hex::encoding_round_trips(bytes);
    let values = seq![value];
    assert(values.skip(1) =~= Seq::<JsonView>::empty());
    assert(values.drop_last() =~= Seq::<JsonView>::empty());
    reveal_with_fuel(whole_chunks, 2);
    reveal_with_fuel(chunk_bytes, 2);
    assert(chunk_bytes(values) =~= bytes);
}

}
