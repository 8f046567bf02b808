//! The two frame records: the one the pacer produces and the one the server
//! sends back, plus the verified part of the renderer (clearing the pixel
//! buffer; painting the caption on top of it is a presentation detail left to
//! the host).
use vstd::prelude::*;

verus! {

/// One frame as produced by the pacer: the intended presentation time and the
/// raw RGB samples, three bytes per pixel.
pub struct GeneratedFrame {
    pub timestamp: u64,
    pub width: u32,
    pub height: u32,
    pub data: Vec<u8>,
}

impl GeneratedFrame {
    /// The pixel buffer holds exactly three bytes for every pixel.
    pub open spec fn wf(self) -> bool {
        self.data@.len() == self.width as int * self.height as int * 3
    }

    /// Builds a frame, accepting the pixel buffer only when its length
    /// matches the dimensions.
    pub fn new(timestamp: u64, width: u32, height: u32, data: Vec<u8>) -> (r: Option<
        GeneratedFrame,
    >)
        requires
            width as int * height as int * 3 <= usize::MAX as int,
        ensures
            match r {
                Some(f) => {
                    &&& f.wf()
                    &&& f.timestamp == timestamp
                    &&& f.width == width
                    &&& f.height == height
                    &&& f.data@ == data@
                },
                None => data@.len() != width as int * height as int * 3,
            },
    {
        let expected: usize = (width as usize) * (height as usize) * 3;
        if data.len() == expected {
            Some(GeneratedFrame { timestamp, width, height, data })
        } else {
            None
        }
    }
}

/// The reply record for a frame request: the frame itself together with the
/// wall-clock time at which the reply was encoded.
pub struct WireFrame {
    pub timestamp: u64,
    pub send_timestamp: u64,
    pub width: u32,
    pub height: u32,
    pub data: Vec<u8>,
}

impl WireFrame {
    /// The pixel buffer holds exactly three bytes for every pixel.
    pub open spec fn wf(self) -> bool {
        self.data@.len() == self.width as int * self.height as int * 3
    }

    /// Stamps a produced frame with the time its reply is being encoded.
    /// `send_timestamp >= timestamp` is expected of a sane clock but not
    /// required: clock skew must not break encoding.
    pub fn from_generated(gen: GeneratedFrame, send_timestamp: u64) -> (r: WireFrame)
        ensures
            r.timestamp == gen.timestamp,
            r.send_timestamp == send_timestamp,
            r.width == gen.width,
            r.height == gen.height,
            r.data@ == gen.data@,
            gen.wf() ==> r.wf(),
    {
        WireFrame {
            timestamp: gen.timestamp,
            send_timestamp,
            width: gen.width,
            height: gen.height,
            data: gen.data,
        }
    }
}

/// The verified half of the renderer: a fresh pixel buffer cleared to the
/// white background, sized for the given dimensions.
pub fn blank_frame(width: u32, height: u32) -> (data: Vec<u8>)
    requires
        width as int * height as int * 3 <= usize::MAX as int,
    ensures
        data@.len() == width as int * height as int * 3,
        forall|i: int| 0 <= i < data@.len() ==> data@[i] == 255u8,
{
    let n: usize = (width as usize) * (height as usize) * 3;
    let data: Vec<u8> = vec![255u8; n];
    data
}

} // verus!
