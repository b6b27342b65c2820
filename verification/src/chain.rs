//! Read-only projections of chain state. The blockchain state machine itself
//! (validation, reorganization, consensus) is an external collaborator; this
//! module is the `ChainStore`-shaped read interface the endpoints consume: a
//! chain tip and outputs addressable by commitment.
use vstd::prelude::*;

verus! {

/// An opaque cryptographic value identifying an output, treated here only
/// as a byte sequence (it arrives on the wire hex-encoded).
#[derive(Clone, Debug)]
pub struct Commitment {
    pub bytes: Vec<u8>,
}

impl Commitment {
    pub fn from_vec(v: Vec<u8>) -> (c: Commitment)
        ensures
            c.bytes@ == v@,
    {
        Commitment { bytes: v }
    }
}

/// The current head of the chain.
#[derive(Clone, Debug)]
pub struct Tip {
    pub height: u64,
    pub last_block_h: Vec<u8>,
    pub prev_block_h: Vec<u8>,
    pub total_difficulty: u64,
}

/// An output that has been included in the chain.
#[derive(Clone, Debug)]
pub struct Output {
    pub commit: Commitment,
    pub proof: Vec<u8>,
}

/// A chain store lookup failed.
#[derive(Clone, Copy, PartialEq, Eq, Structural, Debug)]
pub enum StoreError {
    /// The requested datum is absent; distinct from a backend failure.
    NotFound,
    /// An unexpected backend failure.
    Internal,
}

/// Whether some stored output carries the given commitment bytes.
pub open spec fn contains_commit(s: Seq<Output>, c: Seq<u8>) -> bool {
    exists|i: int| 0 <= i < s.len() && s[i].commit.bytes@ == c
}

/// In-memory chain store: the read interface over chain state. Filled once
/// by whatever supplies chain state, then read by the endpoints.
#[derive(Debug)]
pub struct ChainStore {
    pub head: Option<Tip>,
    pub outputs: Vec<Output>,
}

impl ChainStore {
    /// A store with no tip and no outputs.
    pub fn new() -> (s: ChainStore)
        ensures
            s.head is None,
            s.outputs@ == Seq::<Output>::empty(),
    {
        ChainStore { head: None, outputs: Vec::new() }
    }

    /// Record the current chain tip; outputs are untouched.
    pub fn set_head(&mut self, t: Tip)
        ensures
            final(self).head == Some(t),
            final(self).outputs@ == old(self).outputs@,
    {
        self.head = Some(t);
    }

    /// Append an output to the store; the tip is untouched.
    pub fn add_output(&mut self, o: Output)
        ensures
            final(self).outputs@ == old(self).outputs@.push(o),
            final(self).head == old(self).head,
    {
        self.outputs.push(o);
    }

    /// The current chain tip; `NotFound` exactly when none was recorded.
    pub fn head(&self) -> (r: Result<&Tip, StoreError>)
        ensures
            r matches Ok(t) ==> self.head == Some(*t),
            r is Err <==> self.head is None,
            r matches Err(e) ==> e == StoreError::NotFound,
    {
        match &self.head {
            Some(t) => Ok(t),
            None => Err(StoreError::NotFound),
        }
    }

    /// Look an output up by its commitment. Succeeds exactly when some
    /// stored output carries these commitment bytes, and then returns such
    /// an output; absence is `NotFound`, never a backend failure.
    pub fn get_output_by_commit(&self, commit: &Commitment) -> (r: Result<&Output, StoreError>)
        ensures
            r matches Ok(o) ==> exists|i: int|
                0 <= i < self.outputs@.len() && self.outputs@[i] == *o
                    && self.outputs@[i].commit.bytes@ == commit.bytes@,
            r is Err <==> !contains_commit(self.outputs@, commit.bytes@),
            r matches Err(e) ==> e == StoreError::NotFound,
    {
        let n = self.outputs.len();
        let mut i: usize = 0;
        while i < n
            invariant
                i <= n,
                n == self.outputs@.len(),
                forall|j: int| 0 <= j < i ==> self.outputs@[j].commit.bytes@ != commit.bytes@,
            decreases n - i,
        {
            let o = &self.outputs[i];
            if bytes_eq(&o.commit.bytes, &commit.bytes) {
                return Ok(o);
            }
            i = i + 1;
        }
        Err(StoreError::NotFound)
    }
}

/// Byte-wise equality of two byte vectors.
pub fn bytes_eq(a: &Vec<u8>, b: &Vec<u8>) -> (r: bool)
    ensures
        r <==> a@ == b@,
{
    if a.len() != b.len() {
        proof {
            assert(a@ != b@);
        }
        return false;
    }
    let n = a.len();
    let mut i: usize = 0;
    while i < n
        invariant
            i <= n,
            n == a@.len(),
            a@.len() == b@.len(),
            forall|j: int| 0 <= j < i ==> a@[j] == b@[j],
        decreases n - i,
    {
        if a[i] != b[i] {
            return false;
        }
        i = i + 1;
    }
    proof {
        assert(a@ =~= b@);
    }
    true
}

} // verus!
