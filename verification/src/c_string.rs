//! Reading a string that ends in a zero byte, one byte of guest memory at a time.

use crate::engine::{Attempt, EngineError, Operation, ReadCall};
use vstd::prelude::*;
use vstd::utf8::*;

verus! {

/// A string being read: the address of the next byte and the bytes so far.
pub struct CStringReader {
    handle: usize,
    start: Ghost<u64>,
    addr: u64,
    bytes: Vec<u8>,
}

/// What a reader stands for.
#[verifier::ext_equal]
pub struct ReaderView {
    /// The engine that is asked.
    pub handle: usize,
    /// The address of the first byte.
    pub start: u64,
    /// The bytes read so far; none of them is zero.
    pub bytes: Seq<u8>,
}

impl ReaderView {
    /// The address of the next byte.
    pub open spec fn next_addr(self) -> int {
        self.start + self.bytes.len()
    }

    /// The reader with one more byte.
    pub open spec fn with(self, byte: u8) -> ReaderView {
        ReaderView { bytes: self.bytes.push(byte), ..self }
    }
}

/// What comes after a byte was asked for.
pub enum CStringStep {
    /// The string goes on: ask for the next byte.
    Continue(CStringReader),
    /// The string ended; these are its bytes, without the zero.
    Done(Vec<u8>),
    /// The byte could not be read.
    Failed(EngineError),
    /// The string runs past the last address.
    PastLastAddress,
}

/// What comes after a byte was asked for, over the views.
#[verifier::ext_equal]
pub enum StepView {
    Continue(ReaderView),
    Done(Seq<u8>),
    Failed(EngineError),
    PastLastAddress,
}

impl View for CStringStep {
    type V = StepView;

    open spec fn view(&self) -> StepView {
        match *self {
            CStringStep::Continue(reader) => StepView::Continue(reader@),
            CStringStep::Done(bytes) => StepView::Done(bytes@),
            CStringStep::Failed(e) => StepView::Failed(e),
            CStringStep::PastLastAddress => StepView::PastLastAddress,
        }
    }
}

/// The step after the engine answered `code` to the request for a byte and left
/// `byte` in the buffer.
pub open spec fn step_after(reader: ReaderView, code: i32, byte: u8) -> StepView {
    if code != 0 {
        StepView::Failed(EngineError { operation: Operation::ReadMemory, code })
    } else if byte == 0 {
        StepView::Done(reader.bytes)
    } else if reader.next_addr() == u64::MAX {
        StepView::PastLastAddress
    } else {
        StepView::Continue(reader.with(byte))
    }
}

impl View for CStringReader {
    type V = ReaderView;

    closed spec fn view(&self) -> ReaderView {
        ReaderView { handle: self.handle, start: self.start@, bytes: self.bytes@ }
    }
}

impl CStringReader {
    /// The next byte lies behind those read so far, of which none is zero.
    #[verifier::type_invariant]
    spec fn in_step(self) -> bool {
        &&& self.addr == self.start@ + self.bytes@.len()
        &&& forall|i: int| 0 <= i < self.bytes@.len() ==> self.bytes@[i] != 0
    }

    /// Starts reading at an address.
    pub(crate) fn at(handle: usize, addr: u64) -> (r: CStringReader)
        ensures
            r@ == (ReaderView { handle, start: addr, bytes: Seq::empty() }),
    {
        CStringReader { handle, start: Ghost(addr), addr, bytes: Vec::new() }
    }

    /// The request for the next byte.
    pub fn request(&self) -> (r: Attempt<ReadCall>)
        ensures
            r.operation == Operation::ReadMemory,
            r.call.handle == self@.handle,
            r.call.addr == self@.next_addr(),
            r.call.addr == self@.start + self@.bytes.len(),
            r.call.size == 1,
    {
        proof {
            use_type_invariant(self);
        }
        Attempt {
            call: ReadCall { handle: self.handle, addr: self.addr, size: 1 },
            operation: Operation::ReadMemory,
        }
    }

    /// Goes on with the answer to the request.
    pub fn advance(self, code: i32, byte: u8) -> (r: CStringStep)
        ensures
            r@ == step_after(self@, code, byte),
            r matches CStringStep::Done(bytes) ==> !bytes@.contains(0),
            r is Failed <==> code != 0,
            r matches CStringStep::Failed(e) ==> e.code == code && e.operation
                == Operation::ReadMemory,
            r is Done <==> code == 0 && byte == 0,
            r matches CStringStep::Done(bytes) ==> bytes@ == self@.bytes,
            r is PastLastAddress <==> code == 0 && byte != 0 && self@.start + self@.bytes.len()
                == u64::MAX,
            r matches CStringStep::Continue(next) ==> {
                &&& next@.handle == self@.handle
                &&& next@.start == self@.start
                &&& next@.bytes == self@.bytes.push(byte)
            },
    {
        proof {
            use_type_invariant(&self);
        }
        match self.request().complete(code) {
            Err(e) => CStringStep::Failed(e),
            Ok(_) => {
                if byte == 0 {
                    CStringStep::Done(self.bytes)
                } else if self.addr == u64::MAX {
                    CStringStep::PastLastAddress
                } else {
                    let CStringReader { handle, start, addr, mut bytes } = self;
                    bytes.push(byte);
                    CStringStep::Continue(CStringReader { handle, start, addr: addr + 1, bytes })
                }
            },
        }
    }
}

/// The text of a string that was read. A `String` holds only valid UTF-8, so bytes that
/// are something else are kept as they are.
pub enum GuestText {
    /// The text that the bytes encode.
    Utf8(String),
    /// Bytes that are not valid UTF-8.
    Raw(Vec<u8>),
}

impl GuestText {
    /// The bytes that the text is made of.
    pub open spec fn bytes(self) -> Seq<u8> {
        match self {
            GuestText::Utf8(text) => encode_utf8(text@),
            GuestText::Raw(bytes) => bytes@,
        }
    }
}

/// `std::str::from_utf8`, with its error dropped: it accepts exactly the valid UTF-8
/// encodings, and the text it gives is the one that the bytes encode.
#[verifier::external_body]
fn str_from_utf8(bytes: &[u8]) -> (r: Option<&str>)
    ensures
        r is Some <==> valid_utf8(bytes@),
        r matches Some(s) ==> s@ == decode_utf8(bytes@),
{
    std::str::from_utf8(bytes).ok()
}

/// The text of a string that was read. Every row of bytes has one, and it is made of
/// exactly these bytes.
pub fn c_string_text(bytes: Vec<u8>) -> (r: GuestText)
    ensures
        r.bytes() == bytes@,
        r is Utf8 <==> valid_utf8(bytes@),
        r matches GuestText::Utf8(text) ==> text@ == decode_utf8(bytes@),
        r matches GuestText::Raw(kept) ==> kept@ == bytes@,
{
    match str_from_utf8(bytes.as_slice()) {
        Some(text) => {
            proof {
                decode_utf8_encode_utf8(bytes@);
            }
            GuestText::Utf8(text.to_owned())
        },
        None => GuestText::Raw(bytes),
    }
}

/// The step after these answers, each a status and a byte, were given one after the
/// other; answers that come after the reading ended are not looked at.
pub open spec fn step_after_all(reader: ReaderView, answers: Seq<(i32, u8)>) -> StepView
    decreases answers.len(),
{
    if answers.len() == 0 {
        StepView::Continue(reader)
    } else {
        match step_after_all(reader, answers.drop_last()) {
            StepView::Continue(r) => step_after(r, answers.last().0, answers.last().1),
            done => done,
        }
    }
}

/// The answers of an engine that reads every byte of `memory` from `start` on.
pub open spec fn answers_from(memory: spec_fn(int) -> u8, start: int, n: nat) -> Seq<(i32, u8)> {
    Seq::new(n, |i: int| (0i32, memory(start + i)))
}

/// The bytes of `memory` from `start` on.
pub open spec fn bytes_from(memory: spec_fn(int) -> u8, start: int, n: nat) -> Seq<u8> {
    Seq::new(n, |i: int| memory(start + i))
}

/// While the bytes read are not zero, the reader goes on and holds exactly them.
proof fn lemma_reading_goes_on(
    memory: spec_fn(int) -> u8,
    handle: usize,
    start: u64,
    n: nat,
)
    requires
        start + n <= u64::MAX,
        forall|i: int| 0 <= i < n ==> #[trigger] memory(start + i) != 0,
    ensures
        step_after_all(
            ReaderView { handle, start, bytes: Seq::empty() },
            answers_from(memory, start as int, n),
        ) == StepView::Continue(
            ReaderView { handle, start, bytes: bytes_from(memory, start as int, n) },
        ),
    decreases n,
{
    let answers = answers_from(memory, start as int, n);
    if n == 0 {
        assert(bytes_from(memory, start as int, n) =~= Seq::<u8>::empty());
    } else {
        let m = (n - 1) as nat;
        lemma_reading_goes_on(memory, handle, start, m);
        assert(answers.drop_last() =~= answers_from(memory, start as int, m));
        assert(memory(start + m) != 0);
        assert(bytes_from(memory, start as int, m).push(memory(start + m)) =~= bytes_from(
            memory,
            start as int,
            n,
        ));
    }
}

/// Reading gives back what the memory holds up to its first zero byte, and stops
/// there.
pub proof fn law_reads_up_to_first_zero(
    memory: spec_fn(int) -> u8,
    handle: usize,
    start: u64,
    n: nat,
)
    requires
        start + n <= u64::MAX,
        forall|i: int| 0 <= i < n ==> #[trigger] memory(start + i) != 0,
        memory(start + n) == 0,
    ensures
        step_after_all(
            ReaderView { handle, start, bytes: Seq::empty() },
            answers_from(memory, start as int, n + 1),
        ) == StepView::Done(bytes_from(memory, start as int, n)),
{
    lemma_reading_goes_on(memory, handle, start, n);
    let answers = answers_from(memory, start as int, n + 1);
    assert(answers.drop_last() =~= answers_from(memory, start as int, n));
}

/// A byte that cannot be read ends the reading with the engine's error, whatever was
/// read before it.
pub proof fn law_unreadable_byte_fails(
    memory: spec_fn(int) -> u8,
    handle: usize,
    start: u64,
    n: nat,
    code: i32,
    byte: u8,
)
    requires
        start + n <= u64::MAX,
        forall|i: int| 0 <= i < n ==> #[trigger] memory(start + i) != 0,
        code != 0,
    ensures
        step_after_all(
            ReaderView { handle, start, bytes: Seq::empty() },
            answers_from(memory, start as int, n).push((code, byte)),
        ) == StepView::Failed(EngineError { operation: Operation::ReadMemory, code }),
{
    lemma_reading_goes_on(memory, handle, start, n);
    let answers = answers_from(memory, start as int, n).push((code, byte));
    assert(answers.drop_last() =~= answers_from(memory, start as int, n));
}

/// A string without a zero byte up to the last address ends the reading there.
pub proof fn law_unterminated_string_runs_past_last_address(
    memory: spec_fn(int) -> u8,
    handle: usize,
    start: u64,
    n: nat,
)
    requires
        start + n == u64::MAX,
        forall|i: int| 0 <= i <= n ==> #[trigger] memory(start + i) != 0,
    ensures
        step_after_all(
            ReaderView { handle, start, bytes: Seq::empty() },
            answers_from(memory, start as int, n + 1),
        ) == StepView::PastLastAddress,
{
    lemma_reading_goes_on(memory, handle, start, n);
    let answers = answers_from(memory, start as int, n + 1);
    assert(answers.drop_last() =~= answers_from(memory, start as int, n));
    assert(memory(start + n) != 0);
}

/// The request after `k` bytes asks for the `k`th byte behind the start, and a byte that
/// goes into the string moves it on by one address.
pub proof fn law_next_request_is_one_byte_on(reader: ReaderView, byte: u8)
    ensures
        reader.next_addr() == reader.start + reader.bytes.len(),
        reader.with(byte).next_addr() == reader.next_addr() + 1,
        reader.with(byte).start == reader.start,
        reader.with(byte).handle == reader.handle,
        reader.with(byte).bytes == reader.bytes + seq![byte],
{
}

/// One answer: an error code fails with that code; a zero byte ends the string with what
/// was read; any other byte goes behind what was read, unless no address is left.
pub proof fn law_each_answer_counts(reader: ReaderView, code: i32, byte: u8)
    ensures
        step_after(reader, code, byte) is Failed <==> code != 0,
        step_after(reader, code, byte) matches StepView::Failed(e) ==> e.code == code
            && e.operation == Operation::ReadMemory,
        step_after(reader, code, byte) is Done <==> code == 0 && byte == 0,
        step_after(reader, code, byte) matches StepView::Done(bytes) ==> bytes == reader.bytes,
        step_after(reader, code, byte) is PastLastAddress <==> code == 0 && byte != 0
            && reader.start + reader.bytes.len() == u64::MAX,
        step_after(reader, code, byte) matches StepView::Continue(next) ==> {
            &&& next.handle == reader.handle
            &&& next.start == reader.start
            &&& next.bytes == reader.bytes + seq![byte]
        },
{
}

/// The step after `n` requests, each answered with the byte of `memory` at the address
/// that the request names.
pub open spec fn step_after_requests(
    memory: spec_fn(int) -> u8,
    reader: ReaderView,
    n: nat,
) -> StepView
    decreases n,
{
    if n == 0 {
        StepView::Continue(reader)
    } else {
        match step_after_requests(memory, reader, (n - 1) as nat) {
            StepView::Continue(r) => step_after(r, 0, memory(r.next_addr())),
            end => end,
        }
    }
}

proof fn lemma_requests_go_on(memory: spec_fn(int) -> u8, handle: usize, start: u64, n: nat)
    requires
        start + n <= u64::MAX,
        forall|i: int| 0 <= i < n ==> #[trigger] memory(start + i) != 0,
    ensures
        step_after_requests(memory, ReaderView { handle, start, bytes: Seq::empty() }, n)
            == StepView::Continue(
            ReaderView { handle, start, bytes: Seq::new(n, |i: int| memory(start + i)) },
        ),
    decreases n,
{
    if n == 0 {
        assert(Seq::new(n, |i: int| memory(start + i)) =~= Seq::<u8>::empty());
    } else {
        let m = (n - 1) as nat;
        lemma_requests_go_on(memory, handle, start, m);
        assert(memory(start + m) != 0);
        assert(Seq::new(m, |i: int| memory(start + i)).push(memory(start + m)) =~= Seq::new(
            n,
            |i: int| memory(start + i),
        ));
    }
}

/// Where every request is answered with the byte at the address that it names, the string
/// read from `start` is the memory from `start` to its first zero byte, each byte once and
/// in order.
pub proof fn law_string_is_the_memory_at_start(
    memory: spec_fn(int) -> u8,
    handle: usize,
    start: u64,
    n: nat,
)
    requires
        start + n <= u64::MAX,
        forall|i: int| 0 <= i < n ==> #[trigger] memory(start + i) != 0,
        memory(start + n) == 0,
    ensures
        step_after_requests(memory, ReaderView { handle, start, bytes: Seq::empty() }, n + 1)
            == StepView::Done(Seq::new(n, |i: int| memory(start + i))),
{
    lemma_requests_go_on(memory, handle, start, n);
}

} // verus!
