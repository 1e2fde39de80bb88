//! Fonts held in memory: the stream that serves a font's bytes to the
//! system, and the registry that finds a stream again by its key.

use crate::helpers::{E_FAIL, E_INVALIDARG, E_NOTIMPL};
use std::collections::HashMap;
use vstd::prelude::*;

verus! {

broadcast use vstd::std_specs::hash::group_hash_axioms;

/// The bytes of one font, together with the key under which the stream
/// is registered.
pub struct FontFileStream {
    key: usize,
    data: Vec<u8>,
}

impl FontFileStream {
    /// The key under which the stream is registered.
    pub closed spec fn registered_key(&self) -> usize {
        self.key
    }

    /// The bytes of the font.
    pub closed spec fn bytes(&self) -> Seq<u8> {
        self.data@
    }

    pub fn new(key: usize, data: Vec<u8>) -> (stream: FontFileStream)
        ensures
            stream.registered_key() == key,
            stream.bytes() == data@,
    {
        FontFileStream { key, data }
    }

    /// The key under which the stream is registered.
    pub fn key(&self) -> (key: usize)
        ensures
            key == self.registered_key(),
    {
        self.key
    }

    /// The bytes of the font from `file_offset` on, of which the first
    /// `fragment_size` are the fragment that was asked for. A fragment
    /// that ends beyond the font is refused as an invalid argument,
    /// whatever the offset and the size: their sum is taken without
    /// wrapping.
    pub fn read_file_fragment(&self, file_offset: u64, fragment_size: u64) -> (fragment: Result<
        &[u8],
        i32,
    >)
        ensures
            fragment is Ok <==> file_offset + fragment_size <= self.bytes().len(),
            fragment matches Ok(rest) ==> rest@ == self.bytes().skip(file_offset as int)
                && rest@.take(fragment_size as int) == self.bytes().subrange(
                file_offset as int,
                file_offset + fragment_size,
            ),
            fragment matches Err(code) ==> code == E_INVALIDARG,
    {
        let len: usize = self.data.len();
        let end: u64 = match file_offset.checked_add(fragment_size) {
            Some(end) => end,
            None => {
                return Err(E_INVALIDARG);
            },
        };
        if end > len as u64 {
            return Err(E_INVALIDARG);
        }
        let rest = vstd::slice::slice_subrange(self.data.as_slice(), file_offset as usize, len);
        Ok(rest)
    }

    /// The size of the font in bytes.
    pub fn file_size(&self) -> (size: u64)
        ensures
            size == self.bytes().len(),
    {
        self.data.len() as u64
    }

    /// The time of the last change to the font, which a font in memory
    /// does not have: always the status code `E_NOTIMPL`.
    pub fn last_write_time(&self) -> (time: Result<u64, i32>)
        ensures
            time == Err::<u64, i32>(E_NOTIMPL),
    {
        Err(E_NOTIMPL)
    }
}

/// The registry of the streams of fonts held in memory. Each stream is
/// registered under a key of its own, taken from a counter, and leaves
/// the registry once, when it is destroyed.
pub struct DataFontHelper<S> {
    next_key: usize,
    streams: HashMap<usize, S>,
}

impl<S> DataFontHelper<S> {
    /// The key that the next font will get.
    pub closed spec fn next_key(&self) -> usize {
        self.next_key
    }

    /// The streams that are registered, by key.
    pub closed spec fn registered(&self) -> Map<usize, S> {
        self.streams@
    }

    /// The keys in use are keys that the counter has handed out: every
    /// registered key lies below the next key. It holds of a new
    /// registry, and for as long as streams are registered under reserved
    /// keys only and the counter has not started again at zero.
    pub open spec fn wf(&self) -> bool {
        forall|k: usize| self.registered().contains_key(k) ==> k < self.next_key()
    }

    /// A registry without streams, whose first key is zero.
    pub fn new() -> (helper: Self)
        ensures
            helper.wf(),
            helper.next_key() == 0,
            helper.registered() == Map::<usize, S>::empty(),
    {
        DataFontHelper { next_key: 0, streams: HashMap::new() }
    }

    /// Hands out the key for the next font. Keys count up from zero and
    /// start again at zero after the largest. In a well-formed registry
    /// the key handed out is free: no stream is registered under it.
    pub fn reserve_key(&mut self) -> (key: usize)
        ensures
            key == old(self).next_key(),
            final(self).next_key() == (if key == usize::MAX {
                0
            } else {
                key + 1
            }),
            final(self).registered() == old(self).registered(),
            old(self).wf() ==> !final(self).registered().contains_key(key),
            old(self).wf() && key < usize::MAX ==> final(self).wf(),
    {
        let key = self.next_key;
        self.next_key = if key == usize::MAX {
            0
        } else {
            key + 1
        };
        proof {
            if old(self).wf() && key < usize::MAX {
                assert forall|k: usize| self.registered().contains_key(k) implies k
                    < self.next_key() by {
                    assert(old(self).registered().contains_key(k));
                }
            }
        }
        key
    }

    /// Registers the stream of a font under its key. A stream that was
    /// registered under the same key is replaced; under a key that was
    /// reserved from a well-formed registry there was none. The registry
    /// stays well-formed where the key is one that the counter has handed
    /// out.
    pub fn register_font_buffer(&mut self, key: usize, stream: S)
        ensures
            final(self).registered() == old(self).registered().insert(key, stream),
            final(self).next_key() == old(self).next_key(),
            old(self).wf() && key < old(self).next_key() ==> final(self).wf(),
    {
        self.streams.insert(key, stream);
        proof {
            if old(self).wf() && key < old(self).next_key() {
                assert forall|k: usize| self.registered().contains_key(k) implies k
                    < self.next_key() by {
                    if k != key {
                        assert(old(self).registered().contains_key(k));
                    }
                }
            }
        }
    }

    /// Tells whether a stream is registered under the key.
    pub fn is_registered(&self, key: usize) -> (registered: bool)
        ensures
            registered == self.registered().contains_key(key),
    {
        self.streams.contains_key(&key)
    }

    /// Finds the stream that a font file reference names by its key.
    /// `key` is `None` where the reference holds no key at all, which is
    /// refused as an invalid argument; a key under which nothing is
    /// registered gives `E_FAIL`.
    pub fn create_stream_from_key(&self, key: Option<usize>) -> (stream: Result<&S, i32>)
        ensures
            match key {
                None => stream == Err::<&S, i32>(E_INVALIDARG),
                Some(k) => if self.registered().contains_key(k) {
                    stream == Ok::<&S, i32>(&self.registered()[k])
                } else {
                    stream == Err::<&S, i32>(E_FAIL)
                },
            },
    {
        match key {
            None => Err(E_INVALIDARG),
            Some(k) => match self.streams.get(&k) {
                Some(stream) => Ok(stream),
                None => Err(E_FAIL),
            },
        }
    }

    /// Takes the stream of a destroyed font out of the registry. The key
    /// must be registered: a stream leaves the registry exactly once.
    pub fn unregister_font_data(&mut self, key: usize)
        requires
            old(self).registered().contains_key(key),
        ensures
            final(self).registered() == old(self).registered().remove(key),
            !final(self).registered().contains_key(key),
            final(self).next_key() == old(self).next_key(),
            old(self).wf() ==> final(self).wf(),
    {
        self.streams.remove(&key);
        proof {
            if old(self).wf() {
                assert forall|k: usize| self.registered().contains_key(k) implies k
                    < self.next_key() by {
                    assert(old(self).registered().contains_key(k));
                }
            }
        }
    }
}

/// A font that is registered under a key just reserved takes the place
/// of no other: from a well-formed registry whose counter has not reached
/// its end, reserving a key and registering under it adds one stream
/// under a new key and leaves the registry well-formed.
pub proof fn lemma_reserved_key_is_new<S>(
    before: DataFontHelper<S>,
    reserved: DataFontHelper<S>,
    after: DataFontHelper<S>,
    key: usize,
    stream: S,
)
    requires
        before.wf(),
        before.next_key() < usize::MAX,
        key == before.next_key(),
        reserved.next_key() == key + 1,
        reserved.registered() == before.registered(),
        after.next_key() == reserved.next_key(),
        after.registered() == reserved.registered().insert(key, stream),
    ensures
        !before.registered().contains_key(key),
        after.wf(),
        after.registered().remove(key) == before.registered(),
        forall|k: usize| k != key ==> (after.registered().contains_key(k)
            <==> before.registered().contains_key(k)),
{
    assert(after.registered().remove(key) =~= before.registered());
    assert forall|k: usize| after.registered().contains_key(k) implies k < after.next_key() by {
        if k != key {
            assert(before.registered().contains_key(k));
        }
    }
}

} // verus!
