//! The message store: an ordered sequence of byte buffers that only grows,
//! together with the guard conditions on insertion and retrieval.

use vstd::prelude::*;

verus! {

/// Largest accepted message, in bytes (the bound is inclusive).
pub const MAX_MESSAGE_SIZE_BYTES: usize = 1024;

/// The fatal error kinds. Each one leaves the store unchanged; the hosting
/// layer surfaces it as an abort of the whole invocation.
#[derive(Clone, Copy, Debug, PartialEq, Eq, Structural)]
pub enum StoreError {
    /// Raised by `add` when the message is longer than `MAX_MESSAGE_SIZE_BYTES`.
    MessageTooLarge,
    /// Raised by `get` when the index is not below the store's length.
    IndexOutOfBounds,
    /// Raised by `get_multiple` when the start index is not below the store's length.
    StartIndexOutOfBounds,
}

/// What `add` does, on the mathematical model of the store: reject a message
/// longer than the bound, otherwise append it at the end.
pub open spec fn spec_add(s: Seq<Seq<u8>>, m: Seq<u8>) -> Result<Seq<Seq<u8>>, StoreError> {
    if m.len() > MAX_MESSAGE_SIZE_BYTES {
        Err(StoreError::MessageTooLarge)
    } else {
        Ok(s.push(m))
    }
}

/// What `get` returns, on the mathematical model of the store.
pub open spec fn spec_get(s: Seq<Seq<u8>>, index: int) -> Result<Seq<u8>, StoreError>
    recommends
        0 <= index,
{
    if index >= s.len() {
        Err(StoreError::IndexOutOfBounds)
    } else {
        Ok(s[index])
    }
}

/// What `get_multiple` returns, on the mathematical model of the store: the
/// slice from `start_index` to the end of the requested range, clamped to the
/// store's length. An overshooting `count` is not an error; an out-of-bounds
/// `start_index` is.
pub open spec fn spec_get_multiple(s: Seq<Seq<u8>>, start_index: int, count: int) -> Result<
    Seq<Seq<u8>>,
    StoreError,
>
    recommends
        0 <= start_index,
        0 <= count,
{
    if start_index >= s.len() {
        Err(StoreError::StartIndexOutOfBounds)
    } else if start_index + count < s.len() {
        Ok(s.subrange(start_index, start_index + count))
    } else {
        Ok(s.subrange(start_index, s.len() as int))
    }
}

/// An append-only message log. Its abstract value (the view) is the sequence
/// of stored messages, each message a sequence of bytes, in insertion order.
pub struct BlockchainMessenger {
    messages: Vec<Vec<u8>>,
}

impl View for BlockchainMessenger {
    type V = Seq<Seq<u8>>;

    closed spec fn view(&self) -> Seq<Seq<u8>> {
        self.messages.deep_view()
    }
}

impl BlockchainMessenger {
    /// Well-formedness: every stored message respects the size bound. `add`
    /// enforces this strictly before insertion, so it holds throughout the
    /// store's lifetime.
    pub open spec fn wf(&self) -> bool {
        forall|i: int|
            0 <= i < self@.len() ==> (#[trigger] self@[i]).len() <= MAX_MESSAGE_SIZE_BYTES
    }

    /// Appends `message` at the end of the store, at index `old(self)@.len()`,
    /// unless it is longer than `MAX_MESSAGE_SIZE_BYTES`, in which case the
    /// store is left unchanged and `MessageTooLarge` is reported. Messages
    /// already stored keep their index: the sequence only grows.
    pub fn add(&mut self, message: Vec<u8>) -> (r: Result<(), StoreError>)
        ensures
            spec_add(old(self)@, message@) matches Ok(s) ==> (r == Ok::<(), StoreError>(())
                && final(self)@ == s),
            spec_add(old(self)@, message@) matches Err(e) ==> (r == Err::<(), StoreError>(e)
                && final(self)@ == old(self)@),
            old(self)@.len() <= final(self)@.len(),
            forall|i: int| 0 <= i < old(self)@.len() ==> final(self)@[i] == old(self)@[i],
            old(self).wf() ==> final(self).wf(),
    {
        if message.len() > MAX_MESSAGE_SIZE_BYTES {
            Err(StoreError::MessageTooLarge)
        } else {
            let ghost prior = self@;
            let ghost appended = message@;
            self.messages.push(message);
            proof {
                assert(self@ =~~= prior.push(appended));
            }
            Ok(())
        }
    }

    /// Returns a copy of the message stored at `index`, or `IndexOutOfBounds`
    /// when `index` is not below the store's length (in particular, always on
    /// an empty store). Reads never change the store: the receiver is shared,
    /// and the result is a function of the store's contents and the index
    /// alone, so repeated calls return equal results.
    pub fn get(&self, index: usize) -> (r: Result<Vec<u8>, StoreError>)
        ensures
            spec_get(self@, index as int) matches Ok(m) ==> (r matches Ok(v) && v@ == m),
            spec_get(self@, index as int) matches Err(e) ==> r == Err::<Vec<u8>, StoreError>(e),
    {
        if index >= self.messages.len() {
            Err(StoreError::IndexOutOfBounds)
        } else {
            Ok(self.clone_message(index))
        }
    }

    /// Returns copies of the messages in `[start_index, end_index)`, where
    /// `end_index` clamps `start_index + num_msgs` to the store's length: an
    /// overshooting `num_msgs` is not an error, but a `start_index` that is
    /// not below the store's length (in particular, on an empty store) is
    /// rejected with `StartIndexOutOfBounds`. Reads never change the store,
    /// and repeated calls return equal results.
    pub fn get_multiple(&self, start_index: usize, num_msgs: usize) -> (r: Result<
        Vec<Vec<u8>>,
        StoreError,
    >)
        ensures
            spec_get_multiple(self@, start_index as int, num_msgs as int) matches Ok(s)
                ==> (r matches Ok(v) && v.deep_view() == s),
            spec_get_multiple(self@, start_index as int, num_msgs as int) matches Err(e)
                ==> r == Err::<Vec<Vec<u8>>, StoreError>(e),
    {
        let len = self.messages.len();
        if start_index >= len {
            Err(StoreError::StartIndexOutOfBounds)
        } else {
            let end_index = if num_msgs < len - start_index {
                start_index + num_msgs
            } else {
                len
            };
            let ghost goal = spec_get_multiple(self@, start_index as int, num_msgs as int)->Ok_0;
            let mut out: Vec<Vec<u8>> = Vec::new();
            let mut i = start_index;
            proof {
                assert(out.deep_view() =~= goal.subrange(0, 0));
            }
            while i < end_index
                invariant
                    start_index <= i <= end_index <= self@.len(),
                    goal == self@.subrange(start_index as int, end_index as int),
                    out.deep_view() == goal.subrange(0, i - start_index),
                decreases end_index - i,
            {
                let ghost prev = out.deep_view();
                let m = self.clone_message(i);
                out.push(m);
                proof {
                    assert(out.deep_view() =~~= prev.push(self@[i as int]));
                    assert(out.deep_view() =~= goal.subrange(0, i + 1 - start_index));
                }
                i += 1;
            }
            proof {
                assert(out.deep_view() =~= goal);
            }
            Ok(out)
        }
    }

    /// Rebuilds a store from a sequence of messages, as the hosting layer does
    /// when it decodes persisted state: the round trip through `into_messages`
    /// restores the store exactly. Every message must respect the size bound;
    /// otherwise `MessageTooLarge` is reported, as `add` would have.
    pub fn from_messages(messages: Vec<Vec<u8>>) -> (r: Result<BlockchainMessenger, StoreError>)
        ensures
            (forall|i: int|
                0 <= i < messages.deep_view().len() ==> (#[trigger] messages.deep_view()[i]).len()
                    <= MAX_MESSAGE_SIZE_BYTES) ==> (r matches Ok(s) && s@ == messages.deep_view()
                && s.wf()),
            (exists|i: int|
                0 <= i < messages.deep_view().len() && (#[trigger] messages.deep_view()[i]).len()
                    > MAX_MESSAGE_SIZE_BYTES) ==> r == Err::<BlockchainMessenger, StoreError>(
                StoreError::MessageTooLarge,
            ),
    {
        let mut i: usize = 0;
        while i < messages.len()
            invariant
                i <= messages@.len(),
                forall|j: int|
                    0 <= j < i ==> (#[trigger] messages.deep_view()[j]).len()
                        <= MAX_MESSAGE_SIZE_BYTES,
            decreases messages@.len() - i,
        {
            if messages[i].len() > MAX_MESSAGE_SIZE_BYTES {
                proof {
                    assert(messages.deep_view()[i as int].len() > MAX_MESSAGE_SIZE_BYTES);
                }
                return Err(StoreError::MessageTooLarge);
            }
            i += 1;
        }
        Ok(BlockchainMessenger { messages })
    }

    /// Hands the stored messages out, in insertion order, for the hosting
    /// layer to encode and persist.
    pub fn into_messages(self) -> (v: Vec<Vec<u8>>)
        ensures
            v.deep_view() == self@,
    {
        self.messages
    }

    /// Returns a copy of the message at `index`, equal byte for byte.
    fn clone_message(&self, index: usize) -> (m: Vec<u8>)
        requires
            index < self@.len(),
        ensures
            m@ == self@[index as int],
            m.deep_view() == self@[index as int],
    {
        let m = self.messages[index].clone();
        proof {
            let orig = self.messages@[index as int];
            assert forall|j: int| 0 <= j < m@.len() implies m@[j] == orig@[j] by {
                assert(cloned::<u8>(orig@[j], m@[j]));
            }
            assert(m@ =~= orig@);
            assert(m.deep_view() =~= m@);
            assert(orig.deep_view() =~= orig@);
        }
        m
    }
}

impl Default for BlockchainMessenger {
    /// The store starts empty.
    fn default() -> (s: Self)
        ensures
            s@ == Seq::<Seq<u8>>::empty(),
            s.wf(),
    {
        let s = BlockchainMessenger { messages: Vec::new() };
        proof {
            assert(s@ =~= Seq::<Seq<u8>>::empty());
        }
        s
    }
}

} // verus!
