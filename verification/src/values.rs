//! Plain value types shared by the gateway's pipelines: payment hashes,
//! preimages, contract identifiers and transaction outpoints, each with its
//! mathematical view.

use vstd::prelude::*;

verus! {

/// Copies a byte vector; the copy holds exactly the same bytes.
pub fn copy_bytes(v: &Vec<u8>) -> (r: Vec<u8>)
    ensures
        r@ == v@,
{
    let r = v.clone();
    proof {
        assert(r@ =~= v@);
    }
    r
}

/// A Lightning payment hash: exactly 32 bytes, validated on construction.
#[derive(Debug, Clone, PartialEq, Eq)]
pub struct PaymentHash {
    pub bytes: Vec<u8>,
}

impl View for PaymentHash {
    type V = Seq<u8>;

    open spec fn view(&self) -> Seq<u8> {
        self.bytes@
    }
}

impl PaymentHash {
    /// A well-formed payment hash holds exactly 32 bytes.
    pub open spec fn wf(&self) -> bool {
        self@.len() == 32
    }

    /// Parses a payment hash from raw bytes. Succeeds exactly when the slice
    /// is 32 bytes long, in which case the hash holds those bytes unchanged.
    pub fn parse(bytes: &Vec<u8>) -> (r: Option<PaymentHash>)
        ensures
            r is Some <==> bytes@.len() == 32,
            r matches Some(h) ==> h@ == bytes@ && h.wf(),
    {
        if bytes.len() == 32 {
            Some(PaymentHash { bytes: copy_bytes(bytes) })
        } else {
            None
        }
    }

    /// Copies the hash; the copy denotes the same 32 bytes.
    pub fn duplicate(&self) -> (r: PaymentHash)
        ensures
            r@ == self@,
    {
        PaymentHash { bytes: copy_bytes(&self.bytes) }
    }
}

/// A payment preimage: exactly 32 bytes, validated on construction.
#[derive(Debug, Clone, PartialEq, Eq)]
pub struct Preimage {
    pub bytes: Vec<u8>,
}

impl View for Preimage {
    type V = Seq<u8>;

    open spec fn view(&self) -> Seq<u8> {
        self.bytes@
    }
}

impl Preimage {
    /// A well-formed preimage holds exactly 32 bytes.
    pub open spec fn wf(&self) -> bool {
        self@.len() == 32
    }

    /// Parses a preimage from raw bytes. Succeeds exactly when the slice is
    /// 32 bytes long, in which case the preimage holds those bytes unchanged.
    pub fn parse(bytes: &Vec<u8>) -> (r: Option<Preimage>)
        ensures
            r is Some <==> bytes@.len() == 32,
            r matches Some(p) ==> p@ == bytes@ && p.wf(),
    {
        if bytes.len() == 32 {
            Some(Preimage { bytes: copy_bytes(bytes) })
        } else {
            None
        }
    }
}

/// A federation contract identifier, carried through opaquely as bytes.
#[derive(Debug, Clone, PartialEq, Eq)]
pub struct ContractId {
    pub bytes: Vec<u8>,
}

impl View for ContractId {
    type V = Seq<u8>;

    open spec fn view(&self) -> Seq<u8> {
        self.bytes@
    }
}

impl ContractId {
    /// Copies the identifier; the copy denotes the same bytes.
    pub fn duplicate(&self) -> (r: ContractId)
        ensures
            r@ == self@,
    {
        ContractId { bytes: copy_bytes(&self.bytes) }
    }
}

/// The mathematical value of a transaction outpoint.
pub struct OutPointModel {
    pub txid: Seq<u8>,
    pub out_idx: u64,
}

/// A federation transaction outpoint: a transaction identifier plus an output
/// index, carried through opaquely.
#[derive(Debug, Clone, PartialEq, Eq)]
pub struct OutPoint {
    pub txid: Vec<u8>,
    pub out_idx: u64,
}

impl View for OutPoint {
    type V = OutPointModel;

    open spec fn view(&self) -> OutPointModel {
        OutPointModel { txid: self.txid@, out_idx: self.out_idx }
    }
}

} // verus!
