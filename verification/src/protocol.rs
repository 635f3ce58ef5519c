//! The message types of the harness and their wire protocol.
//!
//! Each message crosses the process boundary as one frame: a 4-byte
//! big-endian length prefix followed by exactly that many bytes of a
//! self-describing encoding of the message value. Decoding is pull-based
//! over an accumulating buffer: it reports "not yet available" (`None`,
//! buffer untouched) while fewer bytes are buffered than a whole frame, and
//! otherwise consumes the frame and leaves any surplus bytes for the next
//! call.

use crate::wire::{
    be_u32_bytes, be_u32_value, be_u64_bytes, parse_be_u32, parse_be_u64, parse_string,
    push_be_u32, push_be_u64, push_string, spec_parse_string, spec_parse_u32, spec_parse_u64,
    str_bytes, str_encodable,
};
use vstd::prelude::*;
use vstd::slice::{slice_index_get, slice_subrange, slice_to_vec};

verus! {

// ---------------------------------------------------------------------------
// Message types
// ---------------------------------------------------------------------------

/// The terminal outcome of one test unit. Exactly one is produced per unit.
#[derive(Clone, Debug, PartialEq)]
pub enum TestMeasure {
    Success { time_millis: u64, exit_status: Option<i32> },
    Failure { stdout: String, stderr: String, exit_status: Option<i32> },
    InternalProgramError { description: String },
    Timeout,
}

/// The mathematical value of a `TestMeasure`.
pub enum MeasureView {
    Success { time_millis: u64, exit_status: Option<i32> },
    Failure { stdout: Seq<char>, stderr: Seq<char>, exit_status: Option<i32> },
    InternalProgramError { description: Seq<char> },
    Timeout,
}

impl View for TestMeasure {
    type V = MeasureView;

    open spec fn view(&self) -> MeasureView {
        match self {
            TestMeasure::Success { time_millis, exit_status } => MeasureView::Success {
                time_millis: *time_millis,
                exit_status: *exit_status,
            },
            TestMeasure::Failure { stdout, stderr, exit_status } => MeasureView::Failure {
                stdout: stdout@,
                stderr: stderr@,
                exit_status: *exit_status,
            },
            TestMeasure::InternalProgramError { description } => {
                MeasureView::InternalProgramError { description: description@ }
            },
            TestMeasure::Timeout => MeasureView::Timeout,
        }
    }
}

/// A test name paired with its outcome; constructed once, never mutated.
#[derive(Debug, PartialEq)]
pub struct TestResult {
    pub name: String,
    pub outcome: TestMeasure,
}

/// The mathematical value of a `TestResult`.
pub struct ResultView {
    pub name: Seq<char>,
    pub outcome: MeasureView,
}

impl View for TestResult {
    type V = ResultView;

    open spec fn view(&self) -> ResultView {
        ResultView { name: self.name@, outcome: self.outcome@ }
    }
}

impl TestResult {
    pub fn new(name: String, outcome: TestMeasure) -> (r: Self)
        ensures
            r.name == name,
            r.outcome == outcome,
    {
        TestResult { name, outcome }
    }

    pub fn name(&self) -> (r: &str)
        ensures
            r@ == self.name@,
    {
        self.name.as_str()
    }

    pub fn outcome(&self) -> (r: &TestMeasure)
        ensures
            r == &self.outcome,
    {
        &self.outcome
    }
}

/// One message of the backend's output stream.
#[derive(Debug, PartialEq)]
pub enum BackendMessage {
    ExecutionStarted { test_name: String },
    TestCompleted { result: TestResult },
    TestingProcessCompleted,
}

/// The mathematical value of a `BackendMessage`.
pub enum MessageView {
    ExecutionStarted { test_name: Seq<char> },
    TestCompleted { result: ResultView },
    TestingProcessCompleted,
}

impl View for BackendMessage {
    type V = MessageView;

    open spec fn view(&self) -> MessageView {
        match self {
            BackendMessage::ExecutionStarted { test_name } => MessageView::ExecutionStarted {
                test_name: test_name@,
            },
            BackendMessage::TestCompleted { result } => MessageView::TestCompleted {
                result: result@,
            },
            BackendMessage::TestingProcessCompleted => MessageView::TestingProcessCompleted,
        }
    }
}

// ---------------------------------------------------------------------------
// Spec encoding
// ---------------------------------------------------------------------------

/// The wire form of an exit status: absent, or present with its 32 bits.
pub open spec fn opt_exit_bytes(e: Option<i32>) -> Seq<u8> {
    match e {
        None => seq![0u8],
        Some(c) => seq![1u8] + be_u32_bytes(c as u32),
    }
}

/// The wire form of an outcome: a variant tag, then its fields.
pub open spec fn measure_bytes(m: MeasureView) -> Seq<u8> {
    match m {
        MeasureView::Success { time_millis, exit_status } => seq![0u8] + be_u64_bytes(time_millis)
            + opt_exit_bytes(exit_status),
        MeasureView::Failure { stdout, stderr, exit_status } => seq![1u8] + str_bytes(stdout)
            + str_bytes(stderr) + opt_exit_bytes(exit_status),
        MeasureView::InternalProgramError { description } => seq![2u8] + str_bytes(description),
        MeasureView::Timeout => seq![3u8],
    }
}

pub open spec fn measure_encodable(m: MeasureView) -> bool {
    match m {
        MeasureView::Success { .. } => true,
        MeasureView::Failure { stdout, stderr, .. } => str_encodable(stdout) && str_encodable(
            stderr,
        ),
        MeasureView::InternalProgramError { description } => str_encodable(description),
        MeasureView::Timeout => true,
    }
}

/// The wire form of a test result: the name, then the outcome.
pub open spec fn result_bytes(r: ResultView) -> Seq<u8> {
    str_bytes(r.name) + measure_bytes(r.outcome)
}

pub open spec fn result_encodable(r: ResultView) -> bool {
    str_encodable(r.name) && measure_encodable(r.outcome)
}

/// The payload of one frame: a message tag, then the message's fields.
pub open spec fn payload_bytes(m: MessageView) -> Seq<u8> {
    match m {
        MessageView::ExecutionStarted { test_name } => seq![0u8] + str_bytes(test_name),
        MessageView::TestCompleted { result } => seq![1u8] + result_bytes(result),
        MessageView::TestingProcessCompleted => seq![2u8],
    }
}

/// A message can be framed when its strings fit their length prefixes and
/// the whole payload fits the frame's length prefix.
pub open spec fn message_encodable(m: MessageView) -> bool {
    &&& match m {
        MessageView::ExecutionStarted { test_name } => str_encodable(test_name),
        MessageView::TestCompleted { result } => result_encodable(result),
        MessageView::TestingProcessCompleted => true,
    }
    &&& payload_bytes(m).len() < 0x1_0000_0000
}

/// One whole frame: the payload's byte count, then the payload.
pub open spec fn frame_bytes(m: MessageView) -> Seq<u8> {
    be_u32_bytes(payload_bytes(m).len() as u32) + payload_bytes(m)
}

// ---------------------------------------------------------------------------
// Spec decoding
// ---------------------------------------------------------------------------

pub open spec fn spec_parse_exit(b: Seq<u8>) -> Option<(Option<i32>, Seq<u8>)> {
    if b.len() < 1 {
        None
    } else if b[0] == 0 {
        Some((None, b.skip(1)))
    } else if b[0] == 1 {
        match spec_parse_u32(b.skip(1)) {
            None => None,
            Some((v, rest)) => Some((Some(v as i32), rest)),
        }
    } else {
        None
    }
}

pub open spec fn spec_parse_measure(b: Seq<u8>) -> Option<(MeasureView, Seq<u8>)> {
    if b.len() < 1 {
        None
    } else if b[0] == 0 {
        match spec_parse_u64(b.skip(1)) {
            None => None,
            Some((t, r1)) => match spec_parse_exit(r1) {
                None => None,
                Some((e, r2)) => Some(
                    (MeasureView::Success { time_millis: t, exit_status: e }, r2),
                ),
            },
        }
    } else if b[0] == 1 {
        match spec_parse_string(b.skip(1)) {
            None => None,
            Some((so, r1)) => match spec_parse_string(r1) {
                None => None,
                Some((se, r2)) => match spec_parse_exit(r2) {
                    None => None,
                    Some((e, r3)) => Some(
                        (MeasureView::Failure { stdout: so, stderr: se, exit_status: e }, r3),
                    ),
                },
            },
        }
    } else if b[0] == 2 {
        match spec_parse_string(b.skip(1)) {
            None => None,
            Some((d, r1)) => Some((MeasureView::InternalProgramError { description: d }, r1)),
        }
    } else if b[0] == 3 {
        Some((MeasureView::Timeout, b.skip(1)))
    } else {
        None
    }
}

pub open spec fn spec_parse_result(b: Seq<u8>) -> Option<(ResultView, Seq<u8>)> {
    match spec_parse_string(b) {
        None => None,
        Some((n, r1)) => match spec_parse_measure(r1) {
            None => None,
            Some((m, r2)) => Some((ResultView { name: n, outcome: m }, r2)),
        },
    }
}

pub open spec fn spec_parse_payload(b: Seq<u8>) -> Option<(MessageView, Seq<u8>)> {
    if b.len() < 1 {
        None
    } else if b[0] == 0 {
        match spec_parse_string(b.skip(1)) {
            None => None,
            Some((n, r1)) => Some((MessageView::ExecutionStarted { test_name: n }, r1)),
        }
    } else if b[0] == 1 {
        match spec_parse_result(b.skip(1)) {
            None => None,
            Some((res, r1)) => Some((MessageView::TestCompleted { result: res }, r1)),
        }
    } else if b[0] == 2 {
        Some((MessageView::TestingProcessCompleted, b.skip(1)))
    } else {
        None
    }
}

/// The spec-level frame decoder. `None` both when the buffer is short of a
/// whole frame (not yet available) and when a complete frame's payload is
/// malformed; in either case the buffer is to be left untouched.
pub open spec fn spec_try_decode(b: Seq<u8>) -> Option<(MessageView, Seq<u8>)> {
    match spec_parse_u32(b) {
        None => None,
        Some((size, rest)) => {
            if rest.len() < size {
                None
            } else {
                match spec_parse_payload(rest.take(size as int)) {
                    None => None,
                    Some((m, leftover)) => {
                        if leftover.len() == 0 {
                            Some((m, rest.skip(size as int)))
                        } else {
                            None
                        }
                    },
                }
            }
        },
    }
}

// ---------------------------------------------------------------------------
// Exec encoding
// ---------------------------------------------------------------------------

fn push_exit(out: &mut Vec<u8>, e: &Option<i32>)
    ensures
        final(out)@ == old(out)@ + opt_exit_bytes(*e),
{
    match e {
        None => {
            out.push(0);
            assert(out@ =~= old(out)@ + opt_exit_bytes(None));
        },
        Some(c) => {
            out.push(1);
            push_be_u32(out, #[verifier::truncate] (*c as u32));
            assert(out@ =~= old(out)@ + opt_exit_bytes(Some(*c)));
        },
    }
}

fn write_measure(out: &mut Vec<u8>, m: &TestMeasure)
    requires
        measure_encodable(m@),
    ensures
        final(out)@ == old(out)@ + measure_bytes(m@),
{
    match m {
        TestMeasure::Success { time_millis, exit_status } => {
            out.push(0);
            push_be_u64(out, *time_millis);
            push_exit(out, exit_status);
            assert(out@ =~= old(out)@ + measure_bytes(m@));
        },
        TestMeasure::Failure { stdout, stderr, exit_status } => {
            out.push(1);
            push_string(out, stdout.as_str());
            push_string(out, stderr.as_str());
            push_exit(out, exit_status);
            assert(out@ =~= old(out)@ + measure_bytes(m@));
        },
        TestMeasure::InternalProgramError { description } => {
            out.push(2);
            push_string(out, description.as_str());
            assert(out@ =~= old(out)@ + measure_bytes(m@));
        },
        TestMeasure::Timeout => {
            out.push(3);
            assert(out@ =~= old(out)@ + measure_bytes(m@));
        },
    }
}

fn write_payload(out: &mut Vec<u8>, m: &BackendMessage)
    requires
        message_encodable(m@),
    ensures
        final(out)@ == old(out)@ + payload_bytes(m@),
{
    match m {
        BackendMessage::ExecutionStarted { test_name } => {
            out.push(0);
            push_string(out, test_name.as_str());
            assert(out@ =~= old(out)@ + payload_bytes(m@));
        },
        BackendMessage::TestCompleted { result } => {
            out.push(1);
            push_string(out, result.name.as_str());
            write_measure(out, &result.outcome);
            assert(out@ =~= old(out)@ + payload_bytes(m@));
        },
        BackendMessage::TestingProcessCompleted => {
            out.push(2);
            assert(out@ =~= old(out)@ + payload_bytes(m@));
        },
    }
}

// ---------------------------------------------------------------------------
// Exec decoding
// ---------------------------------------------------------------------------

fn parse_exit<'a>(b: &'a [u8]) -> (r: Option<(Option<i32>, &'a [u8])>)
    ensures
        r is Some <==> spec_parse_exit(b@) is Some,
        r is Some ==> (r->0).0 == (spec_parse_exit(b@)->0).0,
        r is Some ==> (r->0).1@ == (spec_parse_exit(b@)->0).1,
{
    if b.len() < 1 {
        return None;
    }
    let tag = *slice_index_get(b, 0);
    let rest = slice_subrange(b, 1, b.len());
    if tag == 0 {
        Some((None, rest))
    } else if tag == 1 {
        match parse_be_u32(rest) {
            None => None,
            Some((v, r1)) => Some((Some(#[verifier::truncate] (v as i32)), r1)),
        }
    } else {
        None
    }
}

fn parse_measure<'a>(b: &'a [u8]) -> (r: Option<(TestMeasure, &'a [u8])>)
    ensures
        r is Some <==> spec_parse_measure(b@) is Some,
        r is Some ==> (r->0).0@ == (spec_parse_measure(b@)->0).0,
        r is Some ==> (r->0).1@ == (spec_parse_measure(b@)->0).1,
{
    if b.len() < 1 {
        return None;
    }
    let tag = *slice_index_get(b, 0);
    let rest = slice_subrange(b, 1, b.len());
    if tag == 0 {
        match parse_be_u64(rest) {
            None => None,
            Some((t, r1)) => match parse_exit(r1) {
                None => None,
                Some((e, r2)) => Some(
                    (TestMeasure::Success { time_millis: t, exit_status: e }, r2),
                ),
            },
        }
    } else if tag == 1 {
        match parse_string(rest) {
            None => None,
            Some((so, r1)) => match parse_string(r1) {
                None => None,
                Some((se, r2)) => match parse_exit(r2) {
                    None => None,
                    Some((e, r3)) => Some(
                        (TestMeasure::Failure { stdout: so, stderr: se, exit_status: e }, r3),
                    ),
                },
            },
        }
    } else if tag == 2 {
        match parse_string(rest) {
            None => None,
            Some((d, r1)) => Some((TestMeasure::InternalProgramError { description: d }, r1)),
        }
    } else if tag == 3 {
        Some((TestMeasure::Timeout, rest))
    } else {
        None
    }
}

fn parse_payload<'a>(b: &'a [u8]) -> (r: Option<(BackendMessage, &'a [u8])>)
    ensures
        r is Some <==> spec_parse_payload(b@) is Some,
        r is Some ==> (r->0).0@ == (spec_parse_payload(b@)->0).0,
        r is Some ==> (r->0).1@ == (spec_parse_payload(b@)->0).1,
{
    if b.len() < 1 {
        return None;
    }
    let tag = *slice_index_get(b, 0);
    let rest = slice_subrange(b, 1, b.len());
    if tag == 0 {
        match parse_string(rest) {
            None => None,
            Some((n, r1)) => Some((BackendMessage::ExecutionStarted { test_name: n }, r1)),
        }
    } else if tag == 1 {
        match parse_string(rest) {
            None => None,
            Some((n, r1)) => match parse_measure(r1) {
                None => None,
                Some((m, r2)) => Some(
                    (
                        BackendMessage::TestCompleted {
                            result: TestResult { name: n, outcome: m },
                        },
                        r2,
                    ),
                ),
            },
        }
    } else if tag == 2 {
        Some((BackendMessage::TestingProcessCompleted, rest))
    } else {
        None
    }
}

impl BackendMessage {
    /// Encodes this message as one frame: a 4-byte big-endian length prefix,
    /// then the payload.
    pub fn serialize(&self) -> (r: Vec<u8>)
        requires
            message_encodable(self@),
        ensures
            r@ == frame_bytes(self@),
    {
        let mut payload: Vec<u8> = Vec::new();
        write_payload(&mut payload, self);
        let mut out: Vec<u8> = Vec::new();
        push_be_u32(&mut out, payload.len() as u32);
        out.append(&mut payload);
        assert(out@ =~= frame_bytes(self@));
        out
    }

    /// Pulls one frame off the front of `bytes`. Returns `None`, with the
    /// buffer untouched, while less than one whole frame is buffered (or if
    /// a complete frame's payload is malformed); otherwise consumes the
    /// frame, leaves the surplus bytes buffered, and returns the message.
    pub fn try_deserialize(bytes: &mut Vec<u8>) -> (r: Option<BackendMessage>)
        ensures
            spec_try_decode(old(bytes)@) is None ==> r is None && final(bytes)@ == old(bytes)@,
            spec_try_decode(old(bytes)@) is Some ==> r is Some && (r->0)@ == (spec_try_decode(
                old(bytes)@,
            )->0).0 && final(bytes)@ == (spec_try_decode(old(bytes)@)->0).1,
    {
        let full: &[u8] = bytes.as_slice();
        match parse_be_u32(full) {
            None => None,
            Some((size, rest)) => {
                let szu = size as usize;
                if rest.len() < szu {
                    None
                } else {
                    let payload = slice_subrange(rest, 0, szu);
                    match parse_payload(payload) {
                        None => None,
                        Some((m, leftover)) => {
                            if leftover.len() > 0 {
                                None
                            } else {
                                let surplus = slice_to_vec(slice_subrange(rest, szu, rest.len()));
                                *bytes = surplus;
                                Some(m)
                            }
                        },
                    }
                }
            },
        }
    }
}

// ---------------------------------------------------------------------------
// Round trip
// ---------------------------------------------------------------------------

proof fn lemma_parse_exit_of_bytes(e: Option<i32>, rest: Seq<u8>)
    ensures
        spec_parse_exit(opt_exit_bytes(e) + rest) is Some,
        (spec_parse_exit(opt_exit_bytes(e) + rest)->0).0 == e,
        (spec_parse_exit(opt_exit_bytes(e) + rest)->0).1 == rest,
{
    match e {
        None => {
            assert((opt_exit_bytes(e) + rest).skip(1) =~= rest);
        },
        Some(c) => {
            let b = opt_exit_bytes(e) + rest;
            assert(b.skip(1) =~= crate::wire::be_u32_bytes(c as u32) + rest);
            crate::wire::lemma_parse_u32_of_bytes(c as u32, rest);
            assert(((c as u32) as i32) == c) by (bit_vector);
        },
    }
}

#[verifier::rlimit(60)]
proof fn lemma_parse_measure_of_bytes(m: MeasureView, rest: Seq<u8>)
    requires
        measure_encodable(m),
    ensures
        spec_parse_measure(measure_bytes(m) + rest) is Some,
        (spec_parse_measure(measure_bytes(m) + rest)->0).0 == m,
        (spec_parse_measure(measure_bytes(m) + rest)->0).1 == rest,
{
    let b = measure_bytes(m) + rest;
    match m {
        MeasureView::Success { time_millis, exit_status } => {
            assert(b.skip(1) =~= be_u64_bytes(time_millis) + (opt_exit_bytes(exit_status)
                + rest));
            crate::wire::lemma_parse_u64_of_bytes(time_millis, opt_exit_bytes(exit_status) + rest);
            lemma_parse_exit_of_bytes(exit_status, rest);
        },
        MeasureView::Failure { stdout, stderr, exit_status } => {
            assert(b.skip(1) =~= str_bytes(stdout) + (str_bytes(stderr) + (opt_exit_bytes(
                exit_status,
            ) + rest)));
            crate::wire::lemma_parse_string_of_bytes(
                stdout,
                str_bytes(stderr) + (opt_exit_bytes(exit_status) + rest),
            );
            crate::wire::lemma_parse_string_of_bytes(
                stderr,
                opt_exit_bytes(exit_status) + rest,
            );
            lemma_parse_exit_of_bytes(exit_status, rest);
        },
        MeasureView::InternalProgramError { description } => {
            assert(b.skip(1) =~= str_bytes(description) + rest);
            crate::wire::lemma_parse_string_of_bytes(description, rest);
        },
        MeasureView::Timeout => {
            assert(b.skip(1) =~= rest);
        },
    }
}

proof fn lemma_parse_payload_of_bytes(m: MessageView, rest: Seq<u8>)
    requires
        match m {
            MessageView::ExecutionStarted { test_name } => str_encodable(test_name),
            MessageView::TestCompleted { result } => result_encodable(result),
            MessageView::TestingProcessCompleted => true,
        },
    ensures
        spec_parse_payload(payload_bytes(m) + rest) is Some,
        (spec_parse_payload(payload_bytes(m) + rest)->0).0 == m,
        (spec_parse_payload(payload_bytes(m) + rest)->0).1 == rest,
{
    let b = payload_bytes(m) + rest;
    match m {
        MessageView::ExecutionStarted { test_name } => {
            assert(b.skip(1) =~= str_bytes(test_name) + rest);
            crate::wire::lemma_parse_string_of_bytes(test_name, rest);
        },
        MessageView::TestCompleted { result } => {
            assert(b.skip(1) =~= str_bytes(result.name) + (measure_bytes(result.outcome)
                + rest));
            crate::wire::lemma_parse_string_of_bytes(
                result.name,
                measure_bytes(result.outcome) + rest,
            );
            lemma_parse_measure_of_bytes(result.outcome, rest);
        },
        MessageView::TestingProcessCompleted => {
            assert(b.skip(1) =~= rest);
        },
    }
}

/// Round trip of the wire protocol: the frame of any encodable message,
/// followed by any surplus bytes, decodes to exactly that message, leaving
/// exactly the surplus in the buffer.
pub proof fn lemma_round_trip(m: MessageView, surplus: Seq<u8>)
    requires
        message_encodable(m),
    ensures
        spec_try_decode(frame_bytes(m) + surplus) is Some,
        (spec_try_decode(frame_bytes(m) + surplus)->0).0 == m,
        (spec_try_decode(frame_bytes(m) + surplus)->0).1 == surplus,
{
    let p = payload_bytes(m);
    let n = p.len() as u32;
    assert(frame_bytes(m) + surplus =~= be_u32_bytes(n) + (p + surplus));
    crate::wire::lemma_parse_u32_of_bytes(n, p + surplus);
    assert((p + surplus).take(n as int) =~= p);
    assert((p + surplus).skip(n as int) =~= surplus);
    lemma_parse_payload_of_bytes(m, Seq::<u8>::empty());
    assert(p + Seq::<u8>::empty() =~= p);
}

/// Decoding a buffer shorter than its declared frame yields "not yet
/// available" (`None`), never an error: with fewer than four bytes no
/// length prefix is readable, and with fewer than the declared payload
/// length after the prefix the frame is incomplete.
pub proof fn lemma_short_buffer(b: Seq<u8>)
    ensures
        b.len() < 4 ==> spec_try_decode(b) is None,
        b.len() >= 4 && 4 + be_u32_value(b.take(4)) > b.len() ==> spec_try_decode(b) is None,
{
}

} // verus!
