//! The request dispatcher: one call per inbound request, routed by logical
//! path. The root path returns the landing document verbatim; the time path
//! returns the current wall clock as one encoded integer; the frames path
//! blocks on the handoff channel for the next frame and returns it stamped
//! with the time of encoding; every other path is not found. A request never
//! crashes: when the producer is gone, the frames path answers with a server
//! error and an empty body.
use crate::codec::{encode_uint, encode_wire_frame, spec_uint, spec_wire_frame};
use crate::frame::{GeneratedFrame, WireFrame};
use crate::handoff::recv_frame;
use vstd::prelude::*;
use vstd::slice::slice_to_vec;
use vstd::string::StrSliceExecFns;

verus! {

/// The routes the server answers.
#[derive(Debug, PartialEq, Eq, Structural)]
pub enum RequestPath {
    Root,
    Now,
    Frames,
    Unknown,
}

/// The outcome reported to the caller.
#[derive(Debug, PartialEq, Eq, Structural)]
pub enum Status {
    Success,
    NotFound,
    ServerError,
}

impl Status {
    /// The numeric code the host's transport uses for each outcome.
    pub fn code(&self) -> (c: u16)
        ensures
            *self is Success ==> c == 200,
            *self is NotFound ==> c == 404,
            *self is ServerError ==> c == 500,
    {
        match self {
            Status::Success => 200,
            Status::NotFound => 404,
            Status::ServerError => 500,
        }
    }
}

/// One reply: a status and the encoded body.
pub struct ServerResponse {
    pub status: Status,
    pub body: Vec<u8>,
}

/// Character-for-character string equality, so that routing can be stated
/// over the strings themselves.
pub fn str_eq(a: &str, b: &str) -> (r: bool)
    ensures
        r <==> a@ == b@,
{
    let n = a.unicode_len();
    if n != b.unicode_len() {
        return false;
    }
    let mut i: usize = 0;
    while i < n
        invariant
            n == a@.len(),
            n == b@.len(),
            i <= n,
            forall|j: int| 0 <= j < i ==> a@[j] == b@[j],
        decreases n - i,
    {
        if a.get_char(i) != b.get_char(i) {
            return false;
        }
        i = i + 1;
    }
    proof {
        assert(a@ =~= b@);
    }
    true
}

/// Where a path leads: the three defined routes, or nowhere.
pub open spec fn spec_route(p: Seq<char>) -> RequestPath {
    if p == "/"@ {
        RequestPath::Root
    } else if p == "/now"@ {
        RequestPath::Now
    } else if p == "/frames"@ {
        RequestPath::Frames
    } else {
        RequestPath::Unknown
    }
}

/// Routes a request path.
pub fn parse_path(path: &str) -> (r: RequestPath)
    ensures
        r == spec_route(path@),
{
    if str_eq(path, "/") {
        RequestPath::Root
    } else if str_eq(path, "/now") {
        RequestPath::Now
    } else if str_eq(path, "/frames") {
        RequestPath::Frames
    } else {
        RequestPath::Unknown
    }
}

/// Relies on `std::time::SystemTime::now`: the wall clock, converted to whole
/// milliseconds since the Unix epoch (zero if the clock sits before the
/// epoch, rather than failing). Nothing is assumed of the value: it is a
/// reading of a clock.
#[verifier::external_body]
fn now_millis() -> (t: u64)
{
    match std::time::SystemTime::now().duration_since(std::time::UNIX_EPOCH) {
        Ok(d) => d.as_millis() as u64,
        Err(_) => 0,
    }
}

/// The successful reply to a frame request: the frame, stamped with the
/// moment of encoding — not of production — so the caller can measure
/// generation-to-delivery latency.
pub fn frame_response(gen: GeneratedFrame, send_timestamp: u64) -> (r: ServerResponse)
    ensures
        r.status is Success,
        r.body@ == spec_wire_frame(
            gen.timestamp,
            send_timestamp,
            gen.width,
            gen.height,
            gen.data@,
        ),
{
    let wf = WireFrame::from_generated(gen, send_timestamp);
    let body = encode_wire_frame(&wf);
    ServerResponse { status: Status::Success, body }
}

/// Answers one request. Only the frames route consumes from the channel, and
/// it blocks until the pacer hands a frame over; if the pacer is permanently
/// gone it reports a server error with an empty body instead of blocking
/// forever.
pub fn handle_request(
    rx: &crossbeam_channel::Receiver<GeneratedFrame>,
    path: &str,
    landing: &[u8],
) -> (r: ServerResponse)
    ensures
        spec_route(path@) is Root ==> r.status is Success && r.body@ == landing@,
        spec_route(path@) is Now ==> r.status is Success && (exists|t: u64|
            r.body@ == spec_uint(t)),
        spec_route(path@) is Frames ==> ((r.status is Success && (exists|g: GeneratedFrame, st: u64|
            r.body@ == spec_wire_frame(g.timestamp, st, g.width, g.height, g.data@))) || (r.status
            is ServerError && r.body@.len() == 0)),
        spec_route(path@) is Unknown ==> r.status is NotFound && r.body@.len() == 0,
{
    match parse_path(path) {
        RequestPath::Root => ServerResponse {
            status: Status::Success,
            body: slice_to_vec(landing),
        },
        RequestPath::Now => {
            let t = now_millis();
            let body = encode_uint(t);
            proof {
                assert(exists|tt: u64| body@ == spec_uint(tt)) by {
                    assert(body@ == spec_uint(t));
                }
            }
            ServerResponse { status: Status::Success, body }
        },
        RequestPath::Frames => match recv_frame(rx) {
            Ok(gen) => {
                let st = now_millis();
                let resp = frame_response(gen, st);
                proof {
                    assert(exists|g: GeneratedFrame, s: u64|
                        resp.body@ == spec_wire_frame(
                            g.timestamp,
                            s,
                            g.width,
                            g.height,
                            g.data@,
                        )) by {
                        assert(resp.body@ == spec_wire_frame(
                            gen.timestamp,
                            st,
                            gen.width,
                            gen.height,
                            gen.data@,
                        ));
                    }
                }
                resp
            },
            Err(_) => ServerResponse { status: Status::ServerError, body: Vec::new() },
        },
        RequestPath::Unknown => ServerResponse { status: Status::NotFound, body: Vec::new() },
    }
}

} // verus!
