use vstd::prelude::*;

verus! {

/// The domain-separation context under which committed inputs are signed
/// and verified: the ASCII bytes of "Selecting input". Signer and verifier
/// must use it byte for byte, or no signature checks out.
pub open spec fn commit_context() -> Seq<u8> {
    seq![
        0x53u8, 0x65u8, 0x6cu8, 0x65u8, 0x63u8, 0x74u8, 0x69u8, 0x6eu8, 0x67u8, 0x20u8, 0x69u8,
        0x6eu8, 0x70u8, 0x75u8, 0x74u8,
    ]
}

/// The domain-separation context under which the VRF is evaluated over the
/// aggregate seed: the ASCII bytes of "drawing card".
pub open spec fn draw_context() -> Seq<u8> {
    seq![
        0x64u8, 0x72u8, 0x61u8, 0x77u8, 0x69u8, 0x6eu8, 0x67u8, 0x20u8, 0x63u8, 0x61u8, 0x72u8,
        0x64u8,
    ]
}

/// The bytes of "Selecting input".
pub fn commit_context_bytes() -> (r: Vec<u8>)
    ensures
        r@ == commit_context(),
{
    let mut r: Vec<u8> = Vec::new();
    r.push(0x53);
    r.push(0x65);
    r.push(0x6c);
    r.push(0x65);
    r.push(0x63);
    r.push(0x74);
    r.push(0x69);
    r.push(0x6e);
    r.push(0x67);
    r.push(0x20);
    r.push(0x69);
    r.push(0x6e);
    r.push(0x70);
    r.push(0x75);
    r.push(0x74);
    assert(r@ =~= commit_context());
    r
}

/// The bytes of "drawing card".
pub fn draw_context_bytes() -> (r: Vec<u8>)
    ensures
        r@ == draw_context(),
{
    let mut r: Vec<u8> = Vec::new();
    r.push(0x64);
    r.push(0x72);
    r.push(0x61);
    r.push(0x77);
    r.push(0x69);
    r.push(0x6e);
    r.push(0x67);
    r.push(0x20);
    r.push(0x63);
    r.push(0x61);
    r.push(0x72);
    r.push(0x64);
    assert(r@ =~= draw_context());
    r
}

} // verus!
