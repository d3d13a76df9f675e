use vstd::prelude::*;

verus! {

/// Whether `bytes` holds a zero byte.
pub open spec fn has_nul(bytes: Seq<u8>) -> bool {
    exists|i: int| 0 <= i < bytes.len() && bytes[i] == 0
}

/// Whether `p` is the position of the first zero byte of `bytes`.
pub open spec fn is_first_nul(bytes: Seq<u8>, p: int) -> bool {
    &&& 0 <= p < bytes.len()
    &&& bytes[p] == 0
    &&& forall|j: int| 0 <= j < p ==> bytes[j] != 0
}

/// The position of the first zero byte of `bytes`, if there is one.
pub fn first_nul_position(bytes: &[u8]) -> (r: Option<usize>)
    ensures
        r is None <==> !has_nul(bytes@),
        r matches Some(p) ==> is_first_nul(bytes@, p as int),
{
    let mut i: usize = 0;
    while i < bytes.len()
        invariant
            i <= bytes@.len(),
            forall|j: int| 0 <= j < i ==> bytes@[j] != 0,
        decreases bytes@.len() - i,
    {
        if bytes[i] == 0 {
            return Some(i);
        }
        i = i + 1;
    }
    None
}

/// Text that cannot be handed to the native library: it holds a zero byte, the first at
/// byte `position`, which would end it early.
#[derive(Debug, Clone, Copy, PartialEq, Eq, Structural)]
pub struct MalformedText {
    pub position: usize,
}

/// Checks that `text` can be handed to the native library whole, that is that its
/// encoding holds no zero byte.
pub fn check_text(text: &str) -> (r: Result<(), MalformedText>)
    ensures
        r is Ok <==> !has_nul(vstd::utf8::encode_utf8(text@)),
        r matches Err(e) ==> is_first_nul(vstd::utf8::encode_utf8(text@), e.position as int),
{
    match first_nul_position(text.as_bytes()) {
        Some(position) => Err(MalformedText { position }),
        None => Ok(()),
    }
}

} // verus!
