//! The 8-bit stream cipher that protects packet payloads.
//!
//! The cipher is modelled by [`Rc4State`]: a permutation table of 256 bytes and
//! two indices. [`keyed`] is the state that the key schedule leaves, [`step`]
//! is one turn of the generator and [`crypt`] is what a run of the generator
//! does to a payload.

use vstd::prelude::*;

verus! {

/// The mathematical state of a cipher: two indices and the permutation table.
pub struct Rc4State {
    pub i: u8,
    pub j: u8,
    pub s: Seq<u8>,
}

/// `s` with the entries at `a` and `b` exchanged.
pub open spec fn swapped(s: Seq<u8>, a: int, b: int) -> Seq<u8> {
    s.update(a, s[b]).update(b, s[a])
}

/// The table the key schedule starts from: entry `k` holds `k`.
pub open spec fn identity_table() -> Seq<u8> {
    Seq::new(256, |k: int| k as u8)
}

/// The table and the running index `j` after the first `n` rounds of the key
/// schedule.
pub open spec fn schedule(key: Seq<u8>, n: nat) -> (Seq<u8>, u8)
    decreases n,
{
    if n == 0 {
        (identity_table(), 0u8)
    } else {
        let (s, j) = schedule(key, (n - 1) as nat);
        let i = n - 1;
        let j2 = ((j + s[i] + key[i % (key.len() as int)]) % 256) as u8;
        (swapped(s, i, j2 as int), j2)
    }
}

/// The state of a freshly keyed cipher.
pub open spec fn keyed(key: Seq<u8>) -> Rc4State {
    Rc4State { i: 0, j: 0, s: schedule(key, 256).0 }
}

/// One turn of the keystream generator.
pub open spec fn step(st: Rc4State) -> Rc4State {
    let i = ((st.i + 1) % 256) as u8;
    let j = ((st.j + st.s[i as int]) % 256) as u8;
    Rc4State { i, j, s: swapped(st.s, i as int, j as int) }
}

/// The keystream byte that the turn leading to `st` gives out.
pub open spec fn output(st: Rc4State) -> u8 {
    st.s[(st.s[st.i as int] + st.s[st.j as int]) % 256]
}

/// The state after `n` turns.
pub open spec fn advance(st: Rc4State, n: nat) -> Rc4State
    decreases n,
{
    if n == 0 {
        st
    } else {
        step(advance(st, (n - 1) as nat))
    }
}

/// The first `n` keystream bytes that a cipher in state `st` gives out.
pub open spec fn keystream(st: Rc4State, n: nat) -> Seq<u8> {
    Seq::new(n, |k: int| output(advance(st, (k + 1) as nat)))
}

/// `data` combined byte by byte with the keystream of a cipher in state `st`.
pub open spec fn crypt(st: Rc4State, data: Seq<u8>) -> Seq<u8> {
    Seq::new(data.len(), |k: int| data[k] ^ keystream(st, data.len())[k])
}

/// A key is usable when it has between 1 and 256 bytes.
pub open spec fn valid_key(key: Seq<u8>) -> bool {
    1 <= key.len() <= 256
}

/// The state of one direction of an encrypted stream.
#[derive(Clone)]
pub struct Rc4 {
    i: u8,
    j: u8,
    state: [u8; 256],
}

impl View for Rc4 {
    type V = Rc4State;

    closed spec fn view(&self) -> Rc4State {
        Rc4State { i: self.i, j: self.j, s: self.state@ }
    }
}

impl Rc4 {
    /// Runs the key schedule.
    pub fn new(key: &[u8]) -> (rc4: Self)
        requires
            valid_key(key@),
        ensures
            rc4@ == keyed(key@),
    {
        let mut state = [0u8; 256];
        let mut k: usize = 0;
        while k < 256
            invariant
                k <= 256,
                forall|m: int| 0 <= m < k ==> state@[m] == m as u8,
            decreases 256 - k,
        {
            state[k] = k as u8;
            k += 1;
        }
        assert(state@ =~= identity_table());
        let mut j: u8 = 0;
        let mut i: usize = 0;
        while i < 256
            invariant
                i <= 256,
                valid_key(key@),
                (state@, j) == schedule(key@, i as nat),
            decreases 256 - i,
        {
            let sum: u16 = (j as u16 + state[i] as u16 + key[i % key.len()] as u16) % 256;
            let j2: u8 = sum as u8;
            let a: u8 = state[i];
            let b: u8 = state[j2 as usize];
            state[i] = b;
            state[j2 as usize] = a;
            proof {
                let (s0, j0) = schedule(key@, i as nat);
                assert(state@ =~= swapped(s0, i as int, j2 as int));
            }
            j = j2;
            i += 1;
        }
        Rc4 { i: 0, j: 0, state }
    }

    /// Turns the generator once and returns the keystream byte.
    fn next(&mut self) -> (out: u8)
        ensures
            final(self)@ == step(old(self)@),
            out == output(step(old(self)@)),
    {
        let i: u8 = ((self.i as u16 + 1) % 256) as u8;
        let j: u8 = ((self.j as u16 + self.state[i as usize] as u16) % 256) as u8;
        let a: u8 = self.state[i as usize];
        let b: u8 = self.state[j as usize];
        self.state[i as usize] = b;
        self.state[j as usize] = a;
        self.i = i;
        self.j = j;
        assert(self.state@ =~= swapped(old(self).state@, i as int, j as int));
        let idx: u8 = ((self.state[i as usize] as u16 + self.state[j as usize] as u16) % 256) as u8;
        self.state[idx as usize]
    }

    /// Encrypts or decrypts `bytes` in place and moves the cipher on by as
    /// many turns as there are bytes.
    pub fn process(&mut self, bytes: &mut [u8])
        ensures
            final(bytes)@ == crypt(old(self)@, old(bytes)@),
            final(self)@ == advance(old(self)@, old(bytes)@.len()),
    {
        self.process_from(bytes, 0);
        assert(old(bytes)@.skip(0) =~= old(bytes)@);
        assert(old(bytes)@.take(0) + crypt(old(self)@, old(bytes)@) =~= crypt(
            old(self)@,
            old(bytes)@,
        ));
    }

    /// Encrypts or decrypts the bytes from offset `from` on in place, leaves
    /// those before it as they are, and moves the cipher on by as many turns
    /// as there are bytes from `from` on.
    pub fn process_from(&mut self, bytes: &mut [u8], from: usize)
        requires
            from <= old(bytes)@.len(),
        ensures
            final(bytes)@ == old(bytes)@.take(from as int) + crypt(
                old(self)@,
                old(bytes)@.skip(from as int),
            ),
            final(self)@ == advance(old(self)@, (old(bytes)@.len() - from) as nat),
    {
        let n = bytes.len();
        let mut k: usize = from;
        while k < n
            invariant
                from <= k <= n,
                n == bytes@.len(),
                n == old(bytes)@.len(),
                self@ == advance(old(self)@, (k - from) as nat),
                forall|m: int|
                    from <= m < k ==> bytes@[m] == old(bytes)@[m] ^ output(
                        advance(old(self)@, (m - from + 1) as nat),
                    ),
                forall|m: int| 0 <= m < from ==> bytes@[m] == old(bytes)@[m],
                forall|m: int| k <= m < n ==> bytes@[m] == old(bytes)@[m],
            decreases n - k,
        {
            let ks: u8 = self.next();
            let b: u8 = bytes[k];
            bytes[k] = b ^ ks;
            k += 1;
        }
        assert(bytes@ =~= old(bytes)@.take(from as int) + crypt(
            old(self)@,
            old(bytes)@.skip(from as int),
        ));
    }
}

/// Encrypting keeps the length.
pub proof fn lemma_crypt_len(st: Rc4State, data: Seq<u8>)
    ensures
        crypt(st, data).len() == data.len(),
{
}

/// Encrypting twice from the same state gives the data back: decrypting is
/// encrypting.
pub proof fn lemma_crypt_involution(st: Rc4State, data: Seq<u8>)
    ensures
        crypt(st, crypt(st, data)) == data,
{
    assert forall|k: int| 0 <= k < data.len() implies crypt(st, crypt(st, data))[k] == data[k] by {
        let d: u8 = data[k];
        let x: u8 = keystream(st, data.len())[k];
        assert((d ^ x) ^ x == d) by (bit_vector);
    }
    assert(crypt(st, crypt(st, data)) =~= data);
}

/// What was encrypted under a key is decrypted under the same key.
pub proof fn lemma_decrypt_encrypt(key: Seq<u8>, data: Seq<u8>)
    requires
        valid_key(key),
    ensures
        crypt(keyed(key), crypt(keyed(key), data)) == data,
{
    lemma_crypt_involution(keyed(key), data);
}

/// Turning the generator `a` times and then `b` times is turning it `a + b`
/// times.
pub proof fn lemma_advance_add(st: Rc4State, a: nat, b: nat)
    ensures
        advance(advance(st, a), b) == advance(st, a + b),
    decreases b,
{
    if b > 0 {
        lemma_advance_add(st, a, (b - 1) as nat);
    }
}

/// The keystream goes on where it stopped: the bytes of two runs in a row are
/// the bytes of one long run.
pub proof fn lemma_keystream_continues(st: Rc4State, a: nat, b: nat)
    ensures
        keystream(st, a) + keystream(advance(st, a), b) == keystream(st, a + b),
{
    assert forall|k: int| 0 <= k < b implies keystream(advance(st, a), b)[k] == keystream(
        st,
        a + b,
    )[a + k] by {
        lemma_advance_add(st, a, (k + 1) as nat);
    }
    assert(keystream(st, a) + keystream(advance(st, a), b) =~= keystream(st, a + b));
}

} // verus!
