//! The keychain: imported private keys under dense integer handles.

use crate::crypto::{
    public_key_len, public_key_of, sign_outcome, signature_len, Error, KeyType, PrivateKey,
    PublicKey, Signature,
};
use vstd::prelude::*;

verus! {

/// A key as the keychain's model sees it: the algorithm and the secret.
pub type KeyModel = (KeyType, Seq<u8>);

/// What signing `msg` with the key under `handle` returns.
pub open spec fn sign_at(keys: Seq<KeyModel>, handle: int, msg: Seq<u8>) -> Result<
    (KeyType, Seq<u8>),
    Error,
> {
    if 0 <= handle < keys.len() {
        sign_outcome(keys[handle].0, keys[handle].1, msg)
    } else {
        Err(Error::InvalidHandle)
    }
}

/// The public key of the key under `handle`.
pub open spec fn public_key_at(keys: Seq<KeyModel>, handle: int) -> Result<
    (KeyType, Seq<u8>),
    Error,
> {
    if 0 <= handle < keys.len() {
        Ok((keys[handle].0, public_key_of(keys[handle].0, keys[handle].1)))
    } else {
        Err(Error::InvalidHandle)
    }
}

/// The keychain after importing `keys` one after another.
pub open spec fn import_all(chain: Seq<KeyModel>, keys: Seq<KeyModel>) -> Seq<KeyModel>
    decreases keys.len(),
{
    if keys.len() == 0 {
        chain
    } else {
        import_all(chain.push(keys[0]), keys.drop_first())
    }
}

/// The handles that importing `keys` one after another returns: each import
/// returns the number of keys held before it.
pub open spec fn import_handles(chain: Seq<KeyModel>, keys: Seq<KeyModel>) -> Seq<int>
    decreases keys.len(),
{
    if keys.len() == 0 {
        Seq::empty()
    } else {
        seq![chain.len() as int] + import_handles(chain.push(keys[0]), keys.drop_first())
    }
}

/// Importing `keys` into a keychain of `n` keys returns the handles
/// `n, n + 1, ..` in order and appends the keys in order.
pub proof fn lemma_import_handles(chain: Seq<KeyModel>, keys: Seq<KeyModel>)
    ensures
        import_handles(chain, keys).len() == keys.len(),
        forall|i: int|
            0 <= i < keys.len() ==> #[trigger] import_handles(chain, keys)[i] == chain.len() + i,
        import_all(chain, keys) == chain + keys,
    decreases keys.len(),
{
    if keys.len() == 0 {
        assert(chain + keys =~= chain);
    } else {
        let next = chain.push(keys[0]);
        let rest = keys.drop_first();
        lemma_import_handles(next, rest);
        let tail = import_handles(next, rest);
        let all = import_handles(chain, keys);
        assert(all == seq![chain.len() as int] + tail);
        assert forall|i: int| 0 <= i < keys.len() implies #[trigger] all[i] == chain.len() + i by {
            if i > 0 {
                assert(all[i] == tail[i - 1]);
            }
        }
        assert(next + rest =~= chain + keys);
    }
}

/// After `n` imports into a new keychain the handles returned are exactly
/// `0, 1, .., n - 1`, in order, and the keychain holds the `n` keys in the
/// order they were imported.
pub proof fn lemma_handles_dense(keys: Seq<KeyModel>)
    ensures
        import_handles(Seq::empty(), keys).len() == keys.len(),
        forall|i: int|
            0 <= i < keys.len() ==> #[trigger] import_handles(Seq::empty(), keys)[i] == i,
        import_all(Seq::empty(), keys) == keys,
{
    lemma_import_handles(Seq::empty(), keys);
    assert(Seq::<KeyModel>::empty() + keys =~= keys);
}

/// An ordered sequence of imported private keys. A key's handle is its
/// position; keys are only ever appended, so a handle is never reissued.
pub struct Keychain {
    keys: Vec<PrivateKey>,
}

impl View for Keychain {
    type V = Seq<KeyModel>;

    closed spec fn view(&self) -> Seq<KeyModel> {
        Seq::new(self.keys@.len(), |i: int| self.keys@[i]@)
    }
}

impl Keychain {
    /// A keychain that holds no key.
    pub fn new() -> (chain: Keychain)
        ensures
            chain@ == Seq::<KeyModel>::empty(),
    {
        let chain = Keychain { keys: Vec::new() };
        assert(chain@ =~= Seq::<KeyModel>::empty());
        chain
    }

    /// The number of keys held, which is the handle the next import returns.
    pub fn len(&self) -> (n: usize)
        ensures
            n == self@.len(),
    {
        self.keys.len()
    }

    /// Appends a key and returns its handle: the number of keys held before.
    pub fn import(&mut self, src: PrivateKey) -> (handle: usize)
        ensures
            final(self)@ == old(self)@.push(src@),
            handle == old(self)@.len(),
            final(self)@ == import_all(old(self)@, seq![src@]),
            seq![handle as int] == import_handles(old(self)@, seq![src@]),
    {
        let handle = self.keys.len();
        self.keys.push(src);
        proof {
            assert(self@ =~= old(self)@.push(src@));
            let one = seq![src@];
            assert(one.drop_first() =~= Seq::<KeyModel>::empty());
            assert(import_all(old(self)@.push(one[0]), one.drop_first()) == old(self)@.push(
                one[0],
            ));
            assert(import_handles(old(self)@.push(one[0]), one.drop_first()) =~= Seq::<
                int,
            >::empty());
            assert(seq![handle as int] =~= import_handles(old(self)@, one));
        }
        handle
    }

    /// Signs `msg` with the key under `handle`; a handle that names no key is
    /// an error.
    pub fn try_sign(&self, handle: usize, msg: &[u8]) -> (r: Result<Signature, Error>)
        ensures
            r is Ok <==> sign_at(self@, handle as int, msg@) is Ok,
            r matches Ok(sig) ==> sign_at(self@, handle as int, msg@) == Ok::<
                (KeyType, Seq<u8>),
                Error,
            >(sig@) && sig@.1.len() == signature_len(sig@.0),
            r matches Err(e) ==> sign_at(self@, handle as int, msg@) == Err::<
                (KeyType, Seq<u8>),
                Error,
            >(e),
    {
        if handle < self.keys.len() {
            self.keys[handle].try_sign(msg)
        } else {
            Err(Error::InvalidHandle)
        }
    }

    /// The public key of the key under `handle`; a handle that names no key
    /// is an error.
    pub fn public_key(&self, handle: usize) -> (r: Result<PublicKey, Error>)
        ensures
            r is Ok <==> 0 <= handle < self@.len(),
            r matches Ok(public) ==> public_key_at(self@, handle as int) == Ok::<
                (KeyType, Seq<u8>),
                Error,
            >(public@) && public@.1.len() == public_key_len(public@.0),
            r matches Err(e) ==> e == Error::InvalidHandle,
    {
        if handle < self.keys.len() {
            Ok(self.keys[handle].public_key())
        } else {
            Err(Error::InvalidHandle)
        }
    }
}

} // verus!
