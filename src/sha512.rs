//! The hasher over 64-bit block words, and the SHA-512 padding of a byte
//! message into such words.
use vstd::prelude::*;
use crate::compression::{assign_digest, compress, initialize_with_iv, initialize_with_state, State};
use crate::padding::{padded_len, padded_words, preprocess_message};
use crate::reference::{compress_spec, hash_words, iv_seq, lemma_hash_append, BLOCK_SIZE};

verus! {

/// The number of words in the whole 16-word blocks of `n` words.
pub open spec fn whole_len(n: nat) -> nat {
    16 * (n / 16)
}

/// `s` followed by zero words up to the next multiple of 16 words.
pub open spec fn zero_pad(s: Seq<u64>) -> Seq<u64> {
    s + Seq::new(((16 - s.len() % 16) % 16) as nat, |i: int| 0u64)
}

/// The chip that lays out the SHA-512 core: it loads states, compresses
/// blocks and exposes digests.
#[derive(Debug, Copy, Clone)]
pub struct Table16Chip;

impl Table16Chip {
    /// The state loaded with the initial hash value.
    pub fn initialization_vector(&self) -> (r: State)
        ensures
            r.wf(),
            r.value() == iv_seq(),
    {
        initialize_with_iv()
    }

    /// A new initial round loaded from the state of a previous block.
    pub fn initialization(&self, init_state: &State) -> (r: State)
        requires
            init_state.wf(),
        ensures
            r.wf(),
            r.value() == init_state.value(),
    {
        initialize_with_state(init_state)
    }

    /// Compresses one block into the state, feed-forward included.
    pub fn compress(&self, initialized_state: &State, input: &Vec<u64>) -> (r: State)
        requires
            initialized_state.wf(),
            input.len() == BLOCK_SIZE,
        ensures
            r.wf(),
            r.value() == compress_spec(initialized_state.value(), input@),
    {
        compress(initialized_state, input)
    }

    /// The eight digest words of a state.
    pub fn digest(&self, state: &State) -> (r: Vec<u64>)
        requires
            state.wf(),
        ensures
            r@ == state.value(),
    {
        assign_digest(state)
    }
}

/// A hasher that takes its input in 64-bit words and compresses each block
/// as soon as it is full.
pub struct Sha512 {
    chip: Table16Chip,
    state: State,
    cur_block: Vec<u64>,
    length: usize,
    absorbed: Ghost<Seq<u64>>,
}

impl Sha512 {
    /// The state is the hash of the whole blocks absorbed, the partial block is
    /// shorter than a block, and `length` counts the bits taken in.
    pub closed spec fn wf(&self) -> bool {
        &&& self.state.wf()
        &&& self.absorbed@.len() % 16 == 0
        &&& self.state.value() == hash_words(self.absorbed@)
        &&& self.cur_block@.len() < 16
        &&& self.length == 64 * (self.absorbed@.len() + self.cur_block@.len())
    }

    /// Every word taken in so far.
    pub closed spec fn data(&self) -> Seq<u64> {
        self.absorbed@ + self.cur_block@
    }

    /// Number of bits taken in so far.
    pub closed spec fn bit_length(&self) -> nat {
        self.length as nat
    }

    /// The words taken in but not yet compressed.
    pub closed spec fn buffered(&self) -> Seq<u64> {
        self.cur_block@
    }

    /// The values of the running hash state.
    pub closed spec fn state_value(&self) -> Seq<u64> {
        self.state.value()
    }

    /// The running state is the hash of the whole blocks of the data, and the
    /// buffer holds the data's tail beyond its last whole block.
    pub open spec fn layout_holds(&self) -> bool {
        &&& self.buffered() == self.data().skip(whole_len(self.data().len()) as int)
        &&& self.state_value() == hash_words(self.data().take(whole_len(self.data().len()) as int))
    }

    proof fn lemma_layout(&self)
        requires
            self.wf(),
        ensures
            self.layout_holds(),
    {
        let n = self.absorbed@.len();
        let c = self.cur_block@.len();
        assert(whole_len(n + c) == n) by (nonlinear_arith)
            requires
                n % 16 == 0,
                c < 16,
                whole_len(n + c) == 16 * ((n + c) / 16),
        ;
        assert(self.data().skip(n as int) =~= self.cur_block@);
        assert(self.data().take(n as int) =~= self.absorbed@);
    }

    /// A hasher that has taken in nothing.
    pub fn new(chip: Table16Chip) -> (r: Self)
        ensures
            r.wf(),
            r.data() == Seq::<u64>::empty(),
            r.bit_length() == 0,
            r.layout_holds(),
    {
        reveal(hash_words);
        let state = chip.initialization_vector();
        let r = Sha512 {
            chip,
            state,
            cur_block: Vec::new(),
            length: 0,
            absorbed: Ghost(Seq::empty()),
        };
        assert(r.absorbed@.len() < 16);
        assert(r.data() =~= Seq::<u64>::empty());
        proof {
            r.lemma_layout();
        }
        r
    }

    /// Takes in `data`, compressing every block that fills up.
    pub fn update(&mut self, data: &Vec<u64>)
        requires
            old(self).wf(),
            old(self).bit_length() + 64 * data.len() <= usize::MAX,
        ensures
            final(self).wf(),
            final(self).data() == old(self).data() + data@,
            final(self).bit_length() == old(self).bit_length() + 64 * data.len(),
            final(self).layout_holds(),
    {
        let ghost start = self.data();
        let mut i: usize = 0;
        while i < data.len()
            invariant
                self.wf(),
                i <= data.len(),
                self.data() == start + data@.subrange(0, i as int),
                self.bit_length() + 64 * (data.len() - i) <= usize::MAX,
                self.bit_length() == old(self).bit_length() + 64 * i,
            decreases data.len() - i,
        {
            let ghost before = self.data();
            self.cur_block.push(data[i]);
            self.length = self.length + 64;
            if self.cur_block.len() == BLOCK_SIZE {
                let ghost old_abs = self.absorbed@;
                let ghost block = self.cur_block@;
                let next = self.chip.initialization(&self.state);
                self.state = self.chip.compress(&next, &self.cur_block);
                self.absorbed = Ghost(old_abs + block);
                self.cur_block = Vec::new();
                proof {
                    lemma_hash_append(old_abs, block);
                }
            }
            assert(data@.subrange(0, i + 1) =~= data@.subrange(0, i as int).push(data@[i as int]));
            assert(self.data() =~= before.push(data@[i as int]));
            i = i + 1;
        }
        assert(data@.subrange(0, data.len() as int) =~= data@);
        proof {
            self.lemma_layout();
        }
    }

    /// Zero-pads the partial block, if any, compresses it, and returns the
    /// eight digest words.
    pub fn finalize(self) -> (r: Vec<u64>)
        requires
            self.wf(),
        ensures
            r@ == hash_words(zero_pad(self.data())),
    {
        let mut this = self;
        let ghost data = this.data();
        if this.cur_block.len() > 0 {
            let ghost abs = this.absorbed@;
            let ghost cur = this.cur_block@;
            while this.cur_block.len() < BLOCK_SIZE
                invariant
                    this.state.wf(),
                    this.state.value() == hash_words(abs),
                    this.absorbed@ == abs,
                    abs.len() % 16 == 0,
                    data == abs + cur,
                    0 < cur.len() < 16,
                    this.cur_block@.len() <= 16,
                    this.cur_block@ == cur + Seq::new(
                        (this.cur_block@.len() - cur.len()) as nat,
                        |i: int| 0u64,
                    ),
                    cur.len() <= this.cur_block@.len(),
                decreases 16 - this.cur_block.len(),
            {
                let ghost prev = this.cur_block@;
                this.cur_block.push(0u64);
                assert(this.cur_block@ =~= cur + Seq::new(
                    (this.cur_block@.len() - cur.len()) as nat,
                    |i: int| 0u64,
                ));
            }
            let next = this.chip.initialization(&this.state);
            this.state = this.chip.compress(&next, &this.cur_block);
            proof {
                assert(abs + this.cur_block@ =~= zero_pad(data));
                lemma_hash_append(abs, this.cur_block@);
            }
        } else {
            assert(zero_pad(data) =~= this.absorbed@);
        }
        this.chip.digest(&this.state)
    }

    /// Hashes `data` in one go: a new hasher, one update, and finalization.
    pub fn digest(chip: Table16Chip, data: &Vec<u64>) -> (r: Vec<u64>)
        requires
            64 * data.len() <= usize::MAX,
        ensures
            r@ == hash_words(zero_pad(data@)),
    {
        let mut hasher = Sha512::new(chip);
        hasher.update(data);
        assert(hasher.data() =~= data@);
        hasher.finalize()
    }
}

/// SHA-512 of a byte message: the hash of its padded block words.
pub open spec fn sha512_spec(message: Seq<u8>) -> Seq<u64> {
    hash_words(padded_words(message))
}

/// SHA-512 of `message`, as eight 64-bit words: the message is padded into
/// blocks, which the core compresses one after the other.
pub fn sha512_message(message: &Vec<u8>) -> (r: Vec<u64>)
    requires
        8 * message.len() + 1152 <= usize::MAX,
    ensures
        r@ == sha512_spec(message@),
{
    let words = preprocess_message(message);
    assert(zero_pad(words@) =~= words@);
    assert(words@.len() == padded_len(message@.len()) / 8);
    Sha512::digest(Table16Chip, &words)
}

} // verus!
