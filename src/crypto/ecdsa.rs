use vstd::prelude::*;

verus! {

/// Signature schemes that the host's verification capability understands.
#[derive(Clone, Copy, Debug, PartialEq, Eq, Structural)]
pub enum EcdsaAlgorithmn {
    P256,
    Secp256k1,
}

/// Wire code of P256 in the guest/host protocol.
pub const P256_CODE: i32 = 1;

/// Wire code of Secp256k1 in the guest/host protocol.
pub const SECP256K1_CODE: i32 = 2;

/// The only result of the host capability that means "valid".
pub const VALID_RESULT: i32 = 1;

/// The fixed, versionless integer code under which an algorithm crosses
/// the boundary.
pub open spec fn wire_code(a: EcdsaAlgorithmn) -> i32 {
    match a {
        EcdsaAlgorithmn::P256 => 1,
        EcdsaAlgorithmn::Secp256k1 => 2,
    }
}

/// The boolean outcome for a result code of the host capability: exactly
/// `1` is valid; every other code, negative error codes included, is
/// reported as invalid.
pub open spec fn outcome(host_result: i32) -> bool {
    host_result == 1
}

/// The outcome of a verification whose host call, made with the algorithm's
/// wire code, answered `host_result`.
pub open spec fn verification_outcome(a: EcdsaAlgorithmn, host_result: i32) -> bool {
    outcome(host_result)
}

impl EcdsaAlgorithmn {
    /// The wire code of this algorithm.
    pub fn code(&self) -> (r: i32)
        ensures
            r == wire_code(*self),
    {
        match self {
            EcdsaAlgorithmn::P256 => P256_CODE,
            EcdsaAlgorithmn::Secp256k1 => SECP256K1_CODE,
        }
    }
}

/// Maps a wire code back to its algorithm; `None` for a code that no
/// supported algorithm has.
pub fn algorithm_of_code(code: i32) -> (r: Option<EcdsaAlgorithmn>)
    ensures
        r matches Some(a) ==> wire_code(a) == code,
        r is None <==> (code != 1 && code != 2),
{
    if code == P256_CODE {
        Some(EcdsaAlgorithmn::P256)
    } else if code == SECP256K1_CODE {
        Some(EcdsaAlgorithmn::Secp256k1)
    } else {
        None
    }
}

/// Interprets the result code returned by the host verification capability.
pub fn interpret_result(host_result: i32) -> (r: bool)
    ensures
        r == outcome(host_result),
{
    host_result == VALID_RESULT
}

/// Everything the host capability is handed for one verification: the
/// algorithm's wire code, and the signature, digest and public key, which
/// are passed unchanged.
pub struct VerifyCall<'a> {
    pub signature: &'a [u8],
    pub digest: &'a [u8],
    pub pubkey: &'a [u8],
    pub code: i32,
}

/// Prepares the host call for a verification of `signature` over `digest`
/// under `pubkey` with algorithm `opt`.
pub fn prepare_call<'a>(
    signature: &'a [u8],
    digest: &'a [u8],
    pubkey: &'a [u8],
    opt: EcdsaAlgorithmn,
) -> (r: VerifyCall<'a>)
    ensures
        r.signature@ == signature@,
        r.digest@ == digest@,
        r.pubkey@ == pubkey@,
        r.code == wire_code(opt),
{
    VerifyCall { signature, digest, pubkey, code: opt.code() }
}

/// The integer that the verification entry point reports to the host:
/// `1` for a valid signature, `0` otherwise.
pub fn outcome_code(valid: bool) -> (r: i32)
    ensures
        r == (if valid { 1i32 } else { 0i32 }),
{
    if valid { 1 } else { 0 }
}

/// For either supported algorithm, verification yields `true` exactly when
/// the host capability, called with that algorithm's wire code (`1` for
/// P256, `2` for Secp256k1), answers exactly `1`; any other answer yields
/// `false`.
pub proof fn lemma_verification_exact(a: EcdsaAlgorithmn, host_result: i32)
    ensures
        a == EcdsaAlgorithmn::P256 ==> wire_code(a) == 1,
        a == EcdsaAlgorithmn::Secp256k1 ==> wire_code(a) == 2,
        verification_outcome(a, host_result) <==> host_result == 1,
{
}

/// Verification is a pure function of its inputs: the same algorithm and
/// the same answer of the host capability give the same outcome every time.
pub proof fn lemma_verification_idempotent(
    a1: EcdsaAlgorithmn,
    r1: i32,
    a2: EcdsaAlgorithmn,
    r2: i32,
)
    requires
        a1 == a2,
        r1 == r2,
    ensures
        verification_outcome(a1, r1) == verification_outcome(a2, r2),
{
}

/// The two algorithms travel under distinct wire codes, and each code maps
/// back to its own algorithm.
pub proof fn lemma_wire_codes_distinct(a: EcdsaAlgorithmn, b: EcdsaAlgorithmn)
    ensures
        wire_code(a) == wire_code(b) <==> a == b,
        1 <= wire_code(a) <= 2,
{
}

} // verus!
