//! Encoding of the transactions into the staged file's content.
use vstd::prelude::*;

use algonaut::transaction::SignedTransaction;

use crate::error::LaunchError;

verus! {

#[verifier::external_type_specification]
#[verifier::external_body]
pub struct ExSignedTransaction(SignedTransaction);

/// The message-pack encoding of a signed transaction, none where it cannot
/// be encoded.
pub uninterp spec fn msgpack_of(t: SignedTransaction) -> Option<Seq<u8>>;

/// Relies on `algonaut::core::ToMsgPack::to_msg_pack` for signed
/// transactions: its named message-pack encoding, or an error; the encoding
/// depends on the transaction alone.
#[verifier::external_body]
fn encode_transaction(t: &SignedTransaction) -> (r: Option<Vec<u8>>)
    ensures
        r is Some == msgpack_of(*t) is Some,
        r matches Some(b) ==> b@ == msgpack_of(*t)->Some_0,
{
    algonaut::core::ToMsgPack::to_msg_pack(t).ok()
}

/// Every transaction of `txns` can be encoded.
pub open spec fn all_encodable(txns: Seq<SignedTransaction>) -> bool {
    forall|i: int| 0 <= i < txns.len() ==> (#[trigger] msgpack_of(txns[i])) is Some
}

/// The encodings of `txns`, one after another in their order.
pub open spec fn encodings(txns: Seq<SignedTransaction>) -> Seq<u8>
    decreases txns.len(),
{
    if txns.len() == 0 {
        seq![]
    } else {
        encodings(txns.drop_last()) + msgpack_of(txns.last())->Some_0
    }
}

/// The content of the staged transaction file: the encodings of all
/// transactions concatenated in input order, or `Encoding` if any of them
/// cannot be encoded.
pub fn stage_bytes(txns: &[SignedTransaction]) -> (r: Result<Vec<u8>, LaunchError>)
    ensures
        all_encodable(txns@) <==> r is Ok,
        r matches Ok(b) ==> b@ == encodings(txns@),
        r matches Err(e) ==> e == LaunchError::Encoding,
{
    let mut bytes: Vec<u8> = Vec::new();
    let mut i: usize = 0;
    while i < txns.len()
        invariant
            i <= txns@.len(),
            all_encodable(txns@.subrange(0, i as int)),
            bytes@ == encodings(txns@.subrange(0, i as int)),
        decreases txns@.len() - i,
    {
        let t = &txns[i];
        match encode_transaction(t) {
            Some(b) => {
                let mut b = b;
                let ghost prefix = txns@.subrange(0, i as int);
                let ghost next = txns@.subrange(0, i + 1);
                assert(next.drop_last() =~= prefix);
                bytes.append(&mut b);
                i = i + 1;
                assert(all_encodable(txns@.subrange(0, i as int))) by {
                    assert forall|j: int| 0 <= j < next.len() implies (#[trigger] msgpack_of(
                        next[j],
                    )) is Some by {
                        if j < prefix.len() {
                            assert(next[j] == prefix[j]);
                        }
                    }
                }
            },
            None => {
                assert(!all_encodable(txns@)) by {
                    assert(msgpack_of(txns@[i as int]) is None);
                }
                return Err(LaunchError::Encoding);
            },
        }
    }
    assert(txns@.subrange(0, i as int) =~= txns@);
    Ok(bytes)
}

} // verus!
