//! Reading messages off a connection, step by step: each step says what to do with the
//! connection next, and the outcome of that is the event of the next step.

use vstd::prelude::*;

use crate::network::error::NetworkError;
use crate::network::frame::{frame_bytes, header_value, law_frame_is_read_back, HEADER_SIZE};
use crate::proto::io::S2cMessage;
use std::collections::VecDeque;
use vstd::arithmetic::div_mod::{
    lemma_div_basics, lemma_fundamental_div_mod, lemma_fundamental_div_mod_converse,
    lemma_mod_add_multiples_vanish, lemma_mod_bound, lemma_small_mod,
};

verus! {

/// What has happened to a connection that a message is read from.
pub enum ReadEvent {
    /// The next message is wanted.
    Wanted,
    /// The length of the next message came in.
    SizeRead(u32),
    /// A message of that length was read past.
    Skipped(u32),
    /// That many bytes were read into the front of the buffer.
    BodyRead(u32),
    /// The message was decoded, or could not be, with the reason.
    Decoded(Result<S2cMessage, String>),
    /// Reading failed, with the reason.
    Failed(String),
}

/// What to do next with a connection that a message is read from.
pub enum ReadAction {
    /// Read the length of the next message.
    ReadSize,
    /// Read past that many bytes, or to the end of the connection.
    Skip(u32),
    /// Read that many bytes into the front of the buffer.
    ReadBody(u32),
    /// Decode that many bytes at the front of the buffer.
    Decode(u32),
    /// Stop: this is what was read.
    Return(Result<S2cMessage, NetworkError>),
}

/// A reader of messages.
pub trait S2cMessageReader {
    /// The reader can take the next step.
    spec fn ready(&self) -> bool;

    /// The bytes in the buffer that messages are read into.
    spec fn buffer(&self) -> Seq<u8>;

    /// Takes one step towards the next message.
    fn read_next_message(&mut self, event: ReadEvent) -> (action: ReadAction)
        requires
            old(self).ready(),
            event matches ReadEvent::BodyRead(size) ==> size <= old(self).buffer().len(),
        ensures
            action matches ReadAction::ReadBody(size) ==> size <= final(self).buffer().len(),
            action matches ReadAction::Decode(size) ==> size <= final(self).buffer().len(),
    ;

    /// The buffer that messages are decoded from.
    fn buf(&self) -> (buf: &Vec<u8>)
        ensures
            buf@ == self.buffer(),
    ;

    /// The buffer that messages are read into.
    fn buf_mut(&mut self) -> (buf: &mut Vec<u8>)
        ensures
            buf@ == old(self).buffer(),
            final(self).buffer() == final(buf)@,
    ;
}

/// Reads messages up to a length.
pub struct S2CMessageReaderImpl {
    max_message_size: u32,
    buf: Vec<u8>,
}

/// The contents of an [`S2CMessageReaderImpl`].
pub struct ReaderView {
    pub max_message_size: u32,
    pub buf: Seq<u8>,
}

impl View for S2CMessageReaderImpl {
    type V = ReaderView;

    closed spec fn view(&self) -> ReaderView {
        ReaderView { max_message_size: self.max_message_size, buf: self.buf@ }
    }
}

/// A buffer that is long enough: one that is too short is filled up with zeros.
pub open spec fn grown(buf: Seq<u8>, size: nat) -> Seq<u8> {
    if buf.len() < size {
        buf + Seq::new((size - buf.len()) as nat, |i: int| 0u8)
    } else {
        buf
    }
}

impl ReaderView {
    /// What a reader does next.
    pub open spec fn action(self, event: ReadEvent) -> ReadAction {
        match event {
            ReadEvent::Wanted => ReadAction::ReadSize,
            ReadEvent::SizeRead(size) => if size > self.max_message_size {
                ReadAction::Skip(size)
            } else {
                ReadAction::ReadBody(size)
            },
            ReadEvent::Skipped(size) => ReadAction::Return(
                Err(NetworkError::MessageTooLarge { max: self.max_message_size, size }),
            ),
            ReadEvent::BodyRead(size) => ReadAction::Decode(size),
            ReadEvent::Decoded(Ok(message)) => ReadAction::Return(Ok(message)),
            ReadEvent::Decoded(Err(err)) => ReadAction::Return(
                Err(NetworkError::InvalidProtobuf { err }),
            ),
            ReadEvent::Failed(err) => ReadAction::Return(Err(NetworkError::Io { err })),
        }
    }

    /// The reader after a step.
    pub open spec fn after(self, event: ReadEvent) -> ReaderView {
        match event {
            ReadEvent::SizeRead(size) => if size > self.max_message_size {
                self
            } else {
                ReaderView { buf: grown(self.buf, size as nat), ..self }
            },
            _ => self,
        }
    }
}

impl S2CMessageReaderImpl {
    /// A reader that refuses messages above a length.
    pub fn new(max_message_size: u32) -> (reader: Self)
        ensures
            reader@ == (ReaderView { max_message_size, buf: Seq::new(1024, |i: int| 0u8) }),
    {
        let reader = S2CMessageReaderImpl { max_message_size, buf: vec![0u8; 1024] };
        assert(reader@.buf =~= Seq::new(1024, |i: int| 0u8));
        reader
    }
}

impl S2cMessageReader for S2CMessageReaderImpl {
    open spec fn ready(&self) -> bool {
        true
    }

    open spec fn buffer(&self) -> Seq<u8> {
        self@.buf
    }

    fn read_next_message(&mut self, event: ReadEvent) -> (action: ReadAction)
        ensures
            action == old(self)@.action(event),
            event matches ReadEvent::Decoded(Ok(message)) ==> action == ReadAction::Return(
                Ok(message),
            ),
            final(self)@ == old(self)@.after(event),
    {
        match event {
            ReadEvent::Wanted => ReadAction::ReadSize,
            ReadEvent::SizeRead(size) => {
                if size > self.max_message_size {
                    return ReadAction::Skip(size);
                }
                if self.buf.len() < size as usize {
                    let ghost before = self.buf@;
                    self.buf.resize(size as usize, 0u8);
                    proof {
                        assert forall|i: int| 0 <= i < before.len() implies self.buf@[i]
                            == before[i] by {
                            assert(self.buf@.subrange(0, before.len() as int)[i] == before[i]);
                        }
                        assert(self.buf@ =~= grown(before, size as nat));
                    }
                }
                ReadAction::ReadBody(size)
            },
            ReadEvent::Skipped(size) => ReadAction::Return(
                Err(NetworkError::MessageTooLarge { max: self.max_message_size, size }),
            ),
            ReadEvent::BodyRead(size) => ReadAction::Decode(size),
            ReadEvent::Decoded(Ok(message)) => ReadAction::Return(Ok(message)),
            ReadEvent::Decoded(Err(err)) => ReadAction::Return(
                Err(NetworkError::InvalidProtobuf { err }),
            ),
            ReadEvent::Failed(err) => ReadAction::Return(Err(NetworkError::Io { err })),
        }
    }

    fn buf(&self) -> (buf: &Vec<u8>) {
        &self.buf
    }

    fn buf_mut(&mut self) -> (buf: &mut Vec<u8>)
        ensures
            final(self)@ == (ReaderView { buf: final(buf)@, ..old(self)@ }),
    {
        &mut self.buf
    }
}

/// A failure to bring about on purpose.
#[derive(Debug, Clone, Copy, Eq, Hash, PartialEq)]
pub enum Failure {
    /// Report that reading failed.
    Io,
    /// Lose the message.
    Drop,
}

/// Reads messages as its inner reader does, but brings about failures now and then, and shows
/// each message to an inspector.
pub struct S2CMessageReaderTestWrapper<F, I> where F: FnMut() -> usize, I: Fn(&S2cMessage) {
    inner: S2CMessageReaderImpl,
    failures: VecDeque<Failure>,
    reading_counter: usize,
    fail_every: F,
    message_inspector: I,
}

/// The contents of an [`S2CMessageReaderTestWrapper`], but for the two closures.
pub struct TestWrapperView {
    pub inner: ReaderView,
    pub failures: Seq<Failure>,
    pub reading_counter: usize,
}

impl<F, I> View for S2CMessageReaderTestWrapper<F, I> where
    F: FnMut() -> usize,
    I: Fn(&S2cMessage),
 {
    type V = TestWrapperView;

    closed spec fn view(&self) -> TestWrapperView {
        TestWrapperView {
            inner: self.inner@,
            failures: self.failures@,
            reading_counter: self.reading_counter,
        }
    }
}

/// The failures with the first one moved to the end.
pub open spec fn rotated(failures: Seq<Failure>) -> Seq<Failure> {
    failures.drop_first().push(failures[0])
}

impl TestWrapperView {
    /// The failure that the next message meets: every so many messages one, as long as there are
    /// failures to bring about.
    pub open spec fn next_failure(self, fail_every: usize) -> Option<Failure> {
        if fail_every > 0 && (self.reading_counter + 1) % (fail_every as int) == 0
            && self.failures.len() > 0 {
            Some(self.failures[0])
        } else {
            None
        }
    }

    /// What becomes of a message that was read.
    pub open spec fn yields(self, message: S2cMessage, fail_every: usize, action: ReadAction) -> bool {
        match self.next_failure(fail_every) {
            Some(Failure::Io) => action matches ReadAction::Return(Err(NetworkError::Io { err }))
                && err@ == "Error"@,
            Some(Failure::Drop) => action == ReadAction::ReadSize,
            None => action == ReadAction::Return(Ok(message)),
        }
    }

    /// The wrapper after a message was read.
    pub open spec fn after_message(self, fail_every: usize) -> TestWrapperView {
        TestWrapperView {
            reading_counter: (self.reading_counter + 1) as usize,
            failures: if self.next_failure(fail_every) is Some {
                rotated(self.failures)
            } else {
                self.failures
            },
            ..self
        }
    }
}

impl<F, I> S2CMessageReaderTestWrapper<F, I> where F: FnMut() -> usize, I: Fn(&S2cMessage) {
    /// A wrapper that has read nothing.
    pub fn new(
        inner: S2CMessageReaderImpl,
        failures: VecDeque<Failure>,
        fail_every: F,
        message_inspector: I,
    ) -> (wrapper: Self)
        ensures
            wrapper@ == (TestWrapperView {
                inner: inner@,
                failures: failures@,
                reading_counter: 0,
            }),
            wrapper.fail_every_source() == fail_every,
            wrapper.inspector() == message_inspector,
            call_requires(fail_every, ()) && (forall|message: &S2cMessage| #[trigger]
                call_requires(message_inspector, (message,))) ==> wrapper.ready(),
    {
        S2CMessageReaderTestWrapper {
            inner,
            failures,
            reading_counter: 0,
            fail_every,
            message_inspector,
        }
    }

    /// What says after how many messages one fails.
    pub closed spec fn fail_every_source(&self) -> F {
        self.fail_every
    }

    /// What every message is shown to.
    pub closed spec fn inspector(&self) -> I {
        self.message_inspector
    }

    /// Counts a message that was read, and decides what becomes of it.
    pub fn message_read(&mut self, message: S2cMessage, fail_every: usize) -> (action: ReadAction)
        requires
            old(self)@.reading_counter < usize::MAX,
        ensures
            final(self)@ == old(self)@.after_message(fail_every),
            old(self)@.yields(message, fail_every, action),
            final(self).inspector() == old(self).inspector(),
            final(self).fail_every_source() == old(self).fail_every_source(),
    {
        self.reading_counter = self.reading_counter + 1;
        let should_fail = fail_every > 0 && self.reading_counter % fail_every == 0;
        if !should_fail {
            return ReadAction::Return(Ok(message));
        }
        match self.failures.pop_front() {
            Some(failure) => {
                self.failures.push_back(failure);
                assert(self.failures@ =~= rotated(old(self)@.failures));
                match failure {
                    Failure::Io => ReadAction::Return(
                        Err(NetworkError::Io { err: "Error".to_owned() }),
                    ),
                    Failure::Drop => self.inner.read_next_message(ReadEvent::Wanted),
                }
            },
            None => ReadAction::Return(Ok(message)),
        }
    }
}

impl<F, I> S2cMessageReader for S2CMessageReaderTestWrapper<F, I> where
    F: FnMut() -> usize,
    I: Fn(&S2cMessage),
 {
    /// The rate can be asked for, every message can be shown, and the counter has room.
    open spec fn ready(&self) -> bool {
        &&& call_requires(self.fail_every_source(), ())
        &&& forall|message: &S2cMessage| #[trigger] call_requires(self.inspector(), (message,))
        &&& self@.reading_counter < usize::MAX
    }

    open spec fn buffer(&self) -> Seq<u8> {
        self@.inner.buf
    }

    fn read_next_message(&mut self, event: ReadEvent) -> (action: ReadAction)
        ensures
            match event {
                ReadEvent::Decoded(Ok(message)) => exists|fail_every: usize|
                    {
                        &&& #[trigger] old(self)@.yields(message, fail_every, action)
                        &&& call_ensures(old(self).fail_every_source(), (), fail_every)
                        &&& call_ensures(old(self).inspector(), (&message,), ())
                        &&& final(self)@ == old(self)@.after_message(fail_every)
                    },
                _ => action == old(self)@.inner.action(event) && final(self)@ == (
                TestWrapperView { inner: old(self)@.inner.after(event), ..old(self)@ }),
            },
            final(self).inspector() == old(self).inspector(),
            final(self).fail_every_source() == old(self).fail_every_source(),
            final(self)@.reading_counter < usize::MAX ==> final(self).ready(),
    {
        match self.inner.read_next_message(event) {
            ReadAction::Return(Ok(message)) => {
                assert(self.inspector() == old(self).inspector());
                assert(call_requires(self.inspector(), (&message,)));
                (self.message_inspector)(&message);
                let fail_every: usize = (self.fail_every)();
                self.message_read(message, fail_every)
            },
            other => other,
        }
    }

    fn buf(&self) -> (buf: &Vec<u8>) {
        self.inner.buf()
    }

    fn buf_mut(&mut self) -> (buf: &mut Vec<u8>)
        ensures
            final(self)@ == (TestWrapperView {
                inner: ReaderView { buf: final(buf)@, ..old(self)@.inner },
                ..old(self)@
            }),
            final(self).inspector() == old(self).inspector(),
            final(self).fail_every_source() == old(self).fail_every_source(),
            final(self).ready() == old(self).ready(),
    {
        self.inner.buf_mut()
    }
}

/// A message that was sent in a frame, and is not too long for the reader, is read whole: the
/// bytes that are handed to the decoder are its own, and the next read starts behind it.
pub proof fn law_sent_message_is_read(reader: ReaderView, payload: Seq<u8>, rest: Seq<u8>)
    requires
        payload.len() <= reader.max_message_size,
    ensures
        ({
            let stream = frame_bytes(payload) + rest;
            let size = header_value(stream.take(HEADER_SIZE as int)) as u32;
            let body = stream.skip(HEADER_SIZE as int);
            &&& reader.action(ReadEvent::Wanted) == ReadAction::ReadSize
            &&& reader.action(ReadEvent::SizeRead(size)) == ReadAction::ReadBody(size)
            &&& reader.after(ReadEvent::SizeRead(size)).buf.len() >= size
            &&& reader.action(ReadEvent::BodyRead(size)) == ReadAction::Decode(size)
            &&& body.take(size as int) == payload
            &&& body.skip(size as int) == rest
        }),
{
    law_frame_is_read_back(payload, rest);
}

/// A message that is too long for the reader is refused with its length, and the next read
/// starts behind it.
pub proof fn law_long_message_is_skipped(reader: ReaderView, payload: Seq<u8>, rest: Seq<u8>)
    requires
        reader.max_message_size < payload.len() <= u32::MAX,
    ensures
        ({
            let stream = frame_bytes(payload) + rest;
            let size = header_value(stream.take(HEADER_SIZE as int)) as u32;
            &&& reader.action(ReadEvent::Wanted) == ReadAction::ReadSize
            &&& size == payload.len()
            &&& reader.action(ReadEvent::SizeRead(size)) == ReadAction::Skip(size)
            &&& reader.after(ReadEvent::SizeRead(size)) == reader
            &&& stream.skip(HEADER_SIZE as int).skip(size as int) == rest
            &&& reader.action(ReadEvent::Skipped(size)) == ReadAction::Return(
                Err(NetworkError::MessageTooLarge { max: reader.max_message_size, size }),
            )
        }),
{
    law_frame_is_read_back(payload, rest);
}

/// The buffer only grows, and what it holds stays.
pub proof fn law_buffer_only_grows(reader: ReaderView, event: ReadEvent)
    ensures
        reader.after(event).buf.len() >= reader.buf.len(),
        reader.after(event).buf.take(reader.buf.len() as int) == reader.buf,
        reader.after(event).max_message_size == reader.max_message_size,
{
    assert(reader.after(event).buf.take(reader.buf.len() as int) =~= reader.buf);
}

impl TestWrapperView {
    /// The wrapper after that many messages, all under the same rate of failures.
    pub open spec fn after_messages(self, fail_every: usize, n: nat) -> TestWrapperView
        decreases n,
    {
        if n == 0 {
            self
        } else {
            self.after_messages(fail_every, (n - 1) as nat).after_message(fail_every)
        }
    }
}

/// With a rate of one in `fail_every`, the messages that fail are those whose number is a
/// multiple of it, and the failures come in turn, over and over.
pub proof fn law_failures_come_in_turn(wrapper: TestWrapperView, fail_every: usize, n: nat)
    requires
        wrapper.reading_counter == 0,
        wrapper.failures.len() > 0,
        fail_every > 0,
        n < usize::MAX,
    ensures
        ({
            let before = wrapper.after_messages(fail_every, n);
            let count = wrapper.failures.len() as int;
            let failed = n as int / fail_every as int;
            &&& before.reading_counter == n
            &&& before.inner == wrapper.inner
            &&& before.failures == Seq::new(
                wrapper.failures.len(),
                |i: int| wrapper.failures[(failed + i) % count],
            )
            &&& before.next_failure(fail_every) == if (n as int + 1) % (fail_every as int) == 0 {
                Some(wrapper.failures[failed % count])
            } else {
                None
            }
        }),
    decreases n,
{
    let count = wrapper.failures.len() as int;
    let every = fail_every as int;
    let failed = n as int / every;
    let before = wrapper.after_messages(fail_every, n);
    let expected = Seq::new(wrapper.failures.len(), |i: int| wrapper.failures[(failed + i) % count]);
    if n == 0 {
        assert(0int / every == 0) by {
            lemma_div_basics(every);
        }
        assert forall|i: int| 0 <= i < count implies before.failures[i] == expected[i] by {
            lemma_small_mod(i as nat, count as nat);
        }
        assert(before.failures =~= expected);
    } else {
        let m = (n - 1) as nat;
        law_failures_come_in_turn(wrapper, fail_every, m);
        let earlier = wrapper.after_messages(fail_every, m);
        let failed_earlier = m as int / every;
        lemma_successor(m as int, every);
        if n as int % every == 0 {
            assert(failed == failed_earlier + 1);
            assert forall|i: int| 0 <= i < count implies before.failures[i] == expected[i] by {
                if i < count - 1 {
                    assert(before.failures[i] == earlier.failures[i + 1]);
                } else {
                    assert(before.failures[i] == earlier.failures[0]);
                    assert((failed + i) == failed_earlier + count);
                    lemma_mod_add_multiples_vanish(failed_earlier, count);
                }
            }
            assert(before.failures =~= expected);
        } else {
            assert(failed == failed_earlier);
            assert(before.failures =~= expected);
        }
    }
    assert(before.failures[0] == wrapper.failures[(failed + 0) % count]);
}

/// Counting one further changes the quotient only at a multiple.
proof fn lemma_successor(m: int, every: int)
    requires
        m >= 0,
        every > 0,
    ensures
        (m + 1) % every == 0 ==> (m + 1) / every == m / every + 1,
        (m + 1) % every != 0 ==> (m + 1) / every == m / every,
{
    let q = m / every;
    let r = m % every;
    lemma_fundamental_div_mod(m, every);
    lemma_mod_bound(m, every);
    if r + 1 < every {
        assert(m + 1 == q * every + (r + 1)) by (nonlinear_arith)
            requires
                m == every * q + r,
        ;
        lemma_fundamental_div_mod_converse(m + 1, every, q, r + 1);
    } else {
        assert(m + 1 == (q + 1) * every + 0) by (nonlinear_arith)
            requires
                m == every * q + r,
                r + 1 == every,
        ;
        lemma_fundamental_div_mod_converse(m + 1, every, q + 1, 0);
    }
}

/// Once the bytes of a frame were decoded, the reader returns exactly the message that they were
/// decoded to, whatever it holds; and a failure to decode or to read is returned as such, with its
/// reason. None of this depends on the reader, or changes it.
pub proof fn law_decoded_message_is_returned(reader: ReaderView, message: S2cMessage, reason: String)
    ensures
        reader.action(ReadEvent::Decoded(Ok(message))) == ReadAction::Return(Ok(message)),
        reader.action(ReadEvent::Decoded(Err(reason))) == ReadAction::Return(
            Err(NetworkError::InvalidProtobuf { err: reason }),
        ),
        reader.action(ReadEvent::Failed(reason)) == ReadAction::Return(
            Err(NetworkError::Io { err: reason }),
        ),
        forall|event: ReadEvent|
            event !is SizeRead ==> (#[trigger] reader.after(event)) == reader,
{
}

/// The length of a message decides, against the limit of the reader, whether it is read or skipped.
/// Reading it makes the buffer long enough, with zeros at its end, and keeps what it holds.
pub proof fn law_length_decides(reader: ReaderView, size: u32)
    ensures
        reader.action(ReadEvent::Wanted) == ReadAction::ReadSize,
        size > reader.max_message_size ==> {
            &&& reader.action(ReadEvent::SizeRead(size)) == ReadAction::Skip(size)
            &&& reader.after(ReadEvent::SizeRead(size)) == reader
            &&& reader.action(ReadEvent::Skipped(size)) == ReadAction::Return(
                Err(NetworkError::MessageTooLarge { max: reader.max_message_size, size }),
            )
        },
        size <= reader.max_message_size ==> {
            let after = reader.after(ReadEvent::SizeRead(size));
            &&& reader.action(ReadEvent::SizeRead(size)) == ReadAction::ReadBody(size)
            &&& reader.action(ReadEvent::BodyRead(size)) == ReadAction::Decode(size)
            &&& after.max_message_size == reader.max_message_size
            &&& after.buf.len() == if reader.buf.len() < size { size as nat } else { reader.buf.len() }
            &&& forall|i: int|
                0 <= i < after.buf.len() ==> #[trigger] after.buf[i] == if i < reader.buf.len() {
                    reader.buf[i]
                } else {
                    0u8
                }
        },
        reader.action(ReadEvent::Skipped(size)) == ReadAction::Return(
            Err(NetworkError::MessageTooLarge { max: reader.max_message_size, size }),
        ),
        reader.action(ReadEvent::BodyRead(size)) == ReadAction::Decode(size),
{
}

/// Every frame up to the limit yields its own message: from its first byte to the message that its
/// payload decodes to, and the next frame is read from where it ends.
pub proof fn law_frame_yields_its_message(
    reader: ReaderView,
    payload: Seq<u8>,
    rest: Seq<u8>,
    message: S2cMessage,
)
    requires
        payload.len() <= reader.max_message_size,
    ensures
        ({
            let stream = frame_bytes(payload) + rest;
            let size = header_value(stream.take(HEADER_SIZE as int)) as u32;
            let sized = reader.after(ReadEvent::SizeRead(size));
            &&& size == payload.len()
            &&& reader.action(ReadEvent::Wanted) == ReadAction::ReadSize
            &&& reader.action(ReadEvent::SizeRead(size)) == ReadAction::ReadBody(size)
            &&& sized.action(ReadEvent::BodyRead(size)) == ReadAction::Decode(size)
            &&& sized.action(ReadEvent::Decoded(Ok(message))) == ReadAction::Return(Ok(message))
            &&& sized.action(ReadEvent::Wanted) == ReadAction::ReadSize
            &&& stream.skip(HEADER_SIZE as int).take(size as int) == payload
            &&& stream.skip(HEADER_SIZE as int).skip(size as int) == rest
        }),
{
    law_frame_is_read_back(payload, rest);
}

/// A message fails exactly where its number is a multiple of the rate and there are failures to
/// bring about: then it meets the one that is first in line, which goes to the end of the line.
/// Every other message is returned unchanged. Each message counts, and the inner reader is left
/// alone.
pub proof fn law_message_fails_by_its_number(
    wrapper: TestWrapperView,
    message: S2cMessage,
    fail_every: usize,
    action: ReadAction,
)
    requires
        wrapper.reading_counter < usize::MAX,
        wrapper.yields(message, fail_every, action),
    ensures
        ({
            let number = wrapper.reading_counter + 1;
            let fails = fail_every > 0 && wrapper.failures.len() > 0 && number % (fail_every as int)
                == 0;
            let after = wrapper.after_message(fail_every);
            let len = wrapper.failures.len();
            &&& wrapper.next_failure(fail_every) is Some <==> fails
            &&& !fails ==> action == ReadAction::Return(Ok(message)) && after.failures
                == wrapper.failures
            &&& fails && wrapper.failures[0] == Failure::Io ==> (action matches ReadAction::Return(
                Err(NetworkError::Io { err }),
            ) && err@ == "Error"@)
            &&& fails && wrapper.failures[0] == Failure::Drop ==> action == ReadAction::ReadSize
            &&& fails ==> after.failures.len() == len && after.failures[len - 1]
                == wrapper.failures[0] && forall|i: int|
                0 <= i < len - 1 ==> #[trigger] after.failures[i] == wrapper.failures[i + 1]
            &&& after.reading_counter == number
            &&& after.inner == wrapper.inner
        }),
{
}

} // verus!
