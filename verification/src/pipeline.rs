use vstd::prelude::*;

use bytes::BytesMut;
use crate::andselect;
use crate::andselect::AndSelect;
use crate::bytesbuf::{byte_contents, bytes_extend, bytes_new};
use crate::codec::{
    actuator_decode, ack_line, frame_value, has_nl, has_sync, is_ack, nl_pos, sensor_decode,
    sync_pos, ProtocolError,
};
use crate::fmt::{command_line, format_command};
use crate::sample;
use crate::sample::{PollOutcome, Sample, StreamEvent};
use crate::smoother::{lemma_sum_bound, sum_of, Smoother, AVG_WINDOW};
use crate::trajectory::{scale_target, scaled_target, step_spec, Controller};
use crate::utf8::valid_utf8;

verus! {

/// The initialization lines sent once at startup, as one newline-joined
/// item: enable motors, three warm-up moves, pen down, one more move.
pub open spec fn startup_bytes() -> Seq<u8> {
    seq![69u8, 77u8, 44u8, 50u8, 44u8, 50u8, 10u8, 88u8, 77u8, 44u8, 53u8, 48u8, 48u8, 44u8, 48u8, 44u8, 48u8, 10u8, 88u8, 77u8, 44u8, 53u8, 48u8, 48u8, 44u8, 48u8, 44u8, 48u8, 10u8, 88u8, 77u8, 44u8, 53u8, 48u8, 48u8, 44u8, 48u8, 44u8, 48u8, 10u8, 83u8, 80u8, 44u8, 49u8, 10u8, 88u8, 77u8, 44u8, 49u8, 48u8, 48u8, 44u8, 48u8, 44u8, 48u8]
}

/// The final safety lines sent on shutdown, as one newline-joined item:
/// pen up, motors off.
pub open spec fn shutdown_bytes() -> Seq<u8> {
    seq![83u8, 80u8, 44u8, 48u8, 10u8, 69u8, 77u8, 44u8, 48u8, 44u8, 48u8]
}

/// Build the startup item.
#[verifier::rlimit(60)]
pub fn startup_line() -> (r: Vec<u8>)
    ensures
        r@ == startup_bytes(),
{
    let mut r: Vec<u8> = Vec::new();
    r.push(69);
    r.push(77);
    r.push(44);
    r.push(50);
    r.push(44);
    r.push(50);
    r.push(10);
    r.push(88);
    r.push(77);
    r.push(44);
    r.push(53);
    r.push(48);
    r.push(48);
    r.push(44);
    r.push(48);
    r.push(44);
    r.push(48);
    r.push(10);
    r.push(88);
    r.push(77);
    r.push(44);
    r.push(53);
    r.push(48);
    r.push(48);
    r.push(44);
    r.push(48);
    r.push(44);
    r.push(48);
    r.push(10);
    r.push(88);
    r.push(77);
    r.push(44);
    r.push(53);
    r.push(48);
    r.push(48);
    r.push(44);
    r.push(48);
    r.push(44);
    r.push(48);
    r.push(10);
    r.push(83);
    r.push(80);
    r.push(44);
    r.push(49);
    r.push(10);
    r.push(88);
    r.push(77);
    r.push(44);
    r.push(49);
    r.push(48);
    r.push(48);
    r.push(44);
    r.push(48);
    r.push(44);
    r.push(48);
    proof {
        assert(r@ =~= startup_bytes());
    }
    r
}

/// Build the shutdown item.
pub fn shutdown_line() -> (r: Vec<u8>)
    ensures
        r@ == shutdown_bytes(),
{
    let mut r: Vec<u8> = Vec::new();
    r.push(83);
    r.push(80);
    r.push(44);
    r.push(48);
    r.push(10);
    r.push(69);
    r.push(77);
    r.push(44);
    r.push(48);
    r.push(44);
    r.push(48);
    proof {
        assert(r@ =~= shutdown_bytes());
    }
    r
}

/// The whole event-processing pipeline, wired as the assembly does: sensor
/// bytes flow through the sensor codec, the smoother and the scaler into the
/// sampling adapter; acknowledged actuator lines trigger it; triggered
/// targets drive the trajectory controller into outbound command lines, which
/// pass the terminating select until shutdown.
pub struct Pipeline {
    pub sensor_buf: BytesMut,
    pub actuator_buf: BytesMut,
    pub smoother: Smoother,
    pub sampler: Sample<i32>,
    pub select: AndSelect,
    pub controller: Controller,
}

impl Pipeline {
    /// The smoother is intact and only ever holds two-byte sensor samples,
    /// and the controller respects the plotter's limits.
    pub open spec fn wf(&self) -> bool {
        &&& self.smoother.wf()
        &&& forall|i: int|
            0 <= i < self.smoother.window@.len() ==> self.smoother.window@[i] <= 65535
        &&& self.controller.wf()
    }

    /// A fresh pipeline: empty buffers, zeroed smoother, no cached target,
    /// shutdown not seen, controller at rest.
    pub fn new() -> (p: Pipeline)
        ensures
            p.wf(),
            byte_contents(p.sensor_buf) == Seq::<u8>::empty(),
            byte_contents(p.actuator_buf) == Seq::<u8>::empty(),
            p.smoother.window@ =~= Seq::<u32>::new(AVG_WINDOW as nat, |i: int| 0u32),
            p.smoother.idx == 0,
            p.sampler.current is None,
            !p.select.done,
            p.controller == (Controller {
                y: 0i32,
                yv: 0i32,
                ya: 0i32,
                targety: 0i32,
                nexty: 0i32,
            }),
    {
        Pipeline {
            sensor_buf: bytes_new(),
            actuator_buf: bytes_new(),
            smoother: Smoother::new(),
            sampler: sample::new(),
            select: andselect::new(),
            controller: Controller::new(),
        }
    }

    /// Hand the pipeline bytes read from the sensor connection.
    pub fn feed_sensor(&mut self, data: &[u8])
        ensures
            byte_contents(final(self).sensor_buf) == byte_contents(old(self).sensor_buf) + data@,
            final(self).actuator_buf == old(self).actuator_buf,
            final(self).smoother == old(self).smoother,
            final(self).sampler == old(self).sampler,
            final(self).select == old(self).select,
            final(self).controller == old(self).controller,
    {
        bytes_extend(&mut self.sensor_buf, data);
    }

    /// Hand the pipeline bytes read from the actuator connection.
    pub fn feed_actuator(&mut self, data: &[u8])
        ensures
            byte_contents(final(self).actuator_buf) == byte_contents(old(self).actuator_buf)
                + data@,
            final(self).sensor_buf == old(self).sensor_buf,
            final(self).smoother == old(self).smoother,
            final(self).sampler == old(self).sampler,
            final(self).select == old(self).select,
            final(self).controller == old(self).controller,
    {
        bytes_extend(&mut self.actuator_buf, data);
    }

    /// One decode attempt on the sensor side. A complete frame runs through
    /// the smoother and the scaler and replaces the cached target; a wrongly
    /// spaced frame is discarded. Reports whether any bytes were consumed, so
    /// the driver repeats until the buffer holds no marker.
    pub fn sensor_step(&mut self) -> (progress: bool)
        requires
            old(self).wf(),
        ensures
            final(self).wf(),
            final(self).actuator_buf == old(self).actuator_buf,
            final(self).select == old(self).select,
            final(self).controller == old(self).controller,
            ({
                let c0 = byte_contents(old(self).sensor_buf);
                let n = sync_pos(c0) as int;
                &&& progress == has_sync(c0)
                &&& !has_sync(c0) ==> {
                    &&& byte_contents(final(self).sensor_buf) == c0
                    &&& final(self).smoother == old(self).smoother
                    &&& final(self).sampler == old(self).sampler
                }
                &&& has_sync(c0) ==> byte_contents(final(self).sensor_buf) == c0.skip(n + 2)
                &&& (has_sync(c0) && n != 5) ==> {
                    &&& final(self).smoother == old(self).smoother
                    &&& final(self).sampler == old(self).sampler
                }
                &&& (has_sync(c0) && n == 5) ==> {
                    let w1 = old(self).smoother.window@.update(
                        old(self).smoother.idx as int,
                        frame_value(c0),
                    );
                    &&& final(self).smoother.window@ == w1
                    &&& final(self).smoother.idx == (old(self).smoother.idx + 1) % (
                    AVG_WINDOW as int)
                    &&& final(self).sampler.current == Some(
                        scaled_target(sum_of(w1) / (AVG_WINDOW as int)) as i32,
                    )
                }
            }),
    {
        let len0 = crate::bytesbuf::bytes_len(&self.sensor_buf);
        match sensor_decode(&mut self.sensor_buf) {
            Some(v) => {
                assert(v <= 65535);
                let avg = self.smoother.push(v);
                proof {
                    assert forall|i: int| 0 <= i < self.smoother.window@.len() implies self
                        .smoother.window@[i] <= 65535 by {
                        assert(old(self).smoother.window@[i] <= 65535);
                    }
                    lemma_sum_bound(self.smoother.window@, 65535);
                }
                let scaled = scale_target(avg);
                self.sampler.poll::<ProtocolError>(StreamEvent::Ready(scaled), StreamEvent::NotReady);
                true
            },
            None => {
                let len1 = crate::bytesbuf::bytes_len(&self.sensor_buf);
                len1 != len0
            },
        }
    }

    /// One decode attempt on the actuator side. A decoded line that is the
    /// acknowledgment triggers the sampling adapter: the cached target, when
    /// one has been seen, drives the controller one step and the resulting
    /// velocity becomes an outbound command line, unless the combined stream
    /// has already ended. Invalid UTF-8 in a line is a fatal protocol error;
    /// any other line is consumed silently.
    pub fn actuator_step(&mut self) -> (r: Result<Option<Vec<u8>>, ProtocolError>)
        requires
            old(self).wf(),
        ensures
            final(self).wf(),
            final(self).sensor_buf == old(self).sensor_buf,
            final(self).smoother == old(self).smoother,
            final(self).select == old(self).select,
            ({
                let c0 = byte_contents(old(self).actuator_buf);
                let n = nl_pos(c0) as int;
                let line = c0.take(n + 1);
                &&& !has_nl(c0) ==> {
                    &&& byte_contents(final(self).actuator_buf) == c0
                    &&& final(self).sampler == old(self).sampler
                    &&& final(self).controller == old(self).controller
                    &&& r == Ok::<Option<Vec<u8>>, ProtocolError>(None)
                }
                &&& has_nl(c0) ==> byte_contents(final(self).actuator_buf) == c0.skip(n + 1)
                &&& (has_nl(c0) && !valid_utf8(line)) ==> {
                    &&& final(self).sampler == old(self).sampler
                    &&& final(self).controller == old(self).controller
                    &&& r == Err::<Option<Vec<u8>>, ProtocolError>(ProtocolError::InvalidEncoding)
                }
                &&& (has_nl(c0) && valid_utf8(line) && line != ack_line()) ==> {
                    &&& final(self).sampler == old(self).sampler
                    &&& final(self).controller == old(self).controller
                    &&& r == Ok::<Option<Vec<u8>>, ProtocolError>(None)
                }
                &&& (has_nl(c0) && valid_utf8(line) && line == ack_line()) ==> {
                    &&& final(self).sampler == old(self).sampler
                    &&& (old(self).select.done || old(self).sampler.current is None) ==> {
                        &&& final(self).controller == old(self).controller
                        &&& r == Ok::<Option<Vec<u8>>, ProtocolError>(None)
                    }
                    &&& !old(self).select.done ==> (old(self).sampler.current matches Some(t)
                        ==> {
                        &&& final(self).controller == step_spec(old(self).controller, t as int)
                        &&& (r matches Ok(o) && o matches Some(cmd) && cmd@ == command_line(
                            step_spec(old(self).controller, t as int).yv as int,
                        ))
                    })
                }
            }),
    {
        match actuator_decode(&mut self.actuator_buf) {
            Err(e) => Err(e),
            Ok(None) => Ok(None),
            Ok(Some(line)) => {
                if is_ack(line.as_slice()) {
                    if self.select.done {
                        return Ok(None);
                    }
                    let trig = self.sampler.poll::<ProtocolError>(
                        StreamEvent::NotReady,
                        StreamEvent::Ready(()),
                    );
                    match trig {
                        PollOutcome::Item(t) => {
                            let v = self.controller.step(t);
                            let cmd = format_command(v);
                            let out = self.select.poll::<Vec<u8>, ProtocolError>(
                                StreamEvent::Ready(cmd),
                                StreamEvent::NotReady,
                            );
                            match out {
                                PollOutcome::Item(c) => Ok(Some(c)),
                                _ => Ok(None),
                            }
                        },
                        _ => Ok(None),
                    }
                } else {
                    Ok(None)
                }
            },
        }
    }

    /// Take in the one-shot shutdown trigger. The first time it fires the
    /// final safety item is emitted as the combined stream's last output and
    /// the stream ends; afterwards nothing more is emitted.
    pub fn on_shutdown(&mut self) -> (r: Option<Vec<u8>>)
        ensures
            final(self).sensor_buf == old(self).sensor_buf,
            final(self).actuator_buf == old(self).actuator_buf,
            final(self).smoother == old(self).smoother,
            final(self).sampler == old(self).sampler,
            final(self).controller == old(self).controller,
            final(self).select.done,
            !old(self).select.done ==> (r matches Some(l) && l@ == shutdown_bytes()),
            old(self).select.done ==> r is None,
    {
        let line = shutdown_line();
        let out = self.select.poll::<Vec<u8>, ProtocolError>(
            StreamEvent::NotReady,
            StreamEvent::Ready(line),
        );
        match out {
            PollOutcome::Item(l) => Some(l),
            _ => None,
        }
    }

    /// Whether the shutdown has been seen and the combined stream has ended.
    pub fn is_done(&self) -> (r: bool)
        ensures
            r == self.select.done,
    {
        self.select.done
    }
}

} // verus!
