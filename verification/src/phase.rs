//! The four phase variants of the worker, their parameter schemas, the
//! validation of a parameter record against the dispatched shape, and the
//! framing of each phase's success payload into the bytes written back to
//! the work item's file.

use vstd::prelude::*;
use crate::errors::WorkerError;
use crate::shape::SectorShape;

verus! {

/// The phase variant a worker instance runs: pre-commit phase 1 or 2,
/// commit phase 2, or the proof-of-space-time check.
#[derive(Clone, Copy, Debug, PartialEq, Eq, Structural)]
pub enum Phase {
    P1,
    P2,
    C2,
    WindowPost,
}

/// The engine-owned sealing configuration carried through to the proving
/// engine: the worker reads none of it, it only travels with the record.
#[derive(Debug, PartialEq, Eq)]
pub struct PorepConfig {
    pub sector_size: u64,
    pub partitions: u8,
    pub porep_id: [u8; 32],
}

/// The engine-owned proof-of-space-time configuration.
#[derive(Debug, PartialEq, Eq)]
pub struct PostConfig {
    pub sector_size: u64,
    pub challenge_count: u64,
    pub sector_count: u64,
}

/// Metadata of one piece packed into the sector.
#[derive(Debug, PartialEq, Eq)]
pub struct PieceInfo {
    pub commitment: [u8; 32],
    pub size: u64,
}

/// An engine-owned record that an earlier phase produced under a specific
/// shape. Its body is opaque here; the shape it was produced under must
/// equal the shape the dispatcher resolved, or the record cannot be read.
#[derive(Debug, PartialEq, Eq)]
pub struct ShapeBoundRecord {
    pub shape: SectorShape,
    pub body: Vec<u8>,
}

/// Parameters of pre-commit phase 1: where to cache, what to seal, and the
/// sealing randomness. No field of this schema is bound to a shape.
#[derive(Debug, PartialEq, Eq)]
pub struct P1Param {
    pub porep_config: PorepConfig,
    pub cache_path: String,
    pub in_path: String,
    pub prover_id: [u8; 32],
    pub sector_id: u64,
    pub ticket: [u8; 32],
    pub piece_infos: Vec<PieceInfo>,
}

/// Parameters of pre-commit phase 2: the phase-1 output, which is bound to
/// the shape it was produced under, and the cache and replica locations.
#[derive(Debug, PartialEq, Eq)]
pub struct P2Param {
    pub porep_config: PorepConfig,
    pub phase1_output: ShapeBoundRecord,
    pub cache_path: String,
    pub replica_path: String,
}

/// Parameters of commit phase 2: the shape-bound commit phase-1 output and
/// the prover and sector identity.
#[derive(Debug, PartialEq, Eq)]
pub struct C2Param {
    pub porep_config: PorepConfig,
    pub phase1_output: ShapeBoundRecord,
    pub prover_id: [u8; 32],
    pub sector_id: u64,
}

/// Parameters of the proof-of-space-time check: a challenge seed and the
/// private replica records, keyed by sector identifier in strictly
/// increasing order, each bound to the shape it was sealed under.
#[derive(Debug, PartialEq, Eq)]
pub struct WindowPostParam {
    pub post_config: PostConfig,
    pub randomness: [u8; 32],
    pub replicas: Vec<(u64, ShapeBoundRecord)>,
    pub prover_id: [u8; 32],
}

/// The parameter record of whichever phase this worker runs.
#[derive(Debug, PartialEq, Eq)]
pub enum PhaseParams {
    P1 { param: P1Param },
    P2 { param: P2Param },
    C2 { param: C2Param },
    WindowPost { param: WindowPostParam },
}

/// The phase whose schema a parameter record belongs to.
pub open spec fn params_phase(p: PhaseParams) -> Phase {
    match p {
        PhaseParams::P1 { .. } => Phase::P1,
        PhaseParams::P2 { .. } => Phase::P2,
        PhaseParams::C2 { .. } => Phase::C2,
        PhaseParams::WindowPost { .. } => Phase::WindowPost,
    }
}

/// Whether the replica table is well formed: sector identifiers strictly
/// increase, so each key names exactly one replica.
pub open spec fn replicas_wf(rs: Seq<(u64, ShapeBoundRecord)>) -> bool {
    forall|i: int| 0 <= i < rs.len() - 1 ==> (#[trigger] rs[i]).0 < rs[i + 1].0
}

/// Whether a parameter record is well formed on its own: for the
/// proof-of-space-time schema, that its replica table is.
pub open spec fn params_wf(p: PhaseParams) -> bool {
    match p {
        PhaseParams::WindowPost { param } => replicas_wf(param.replicas@),
        _ => true,
    }
}

/// Whether every shape-bound sub-record of a parameter record was produced
/// under the given shape. The phase-1 schema has no shape-bound part, so
/// any shape fits it.
pub open spec fn params_match_shape(p: PhaseParams, shape: SectorShape) -> bool {
    match p {
        PhaseParams::P1 { .. } => true,
        PhaseParams::P2 { param } => param.phase1_output.shape == shape,
        PhaseParams::C2 { param } => param.phase1_output.shape == shape,
        PhaseParams::WindowPost { param } => forall|i: int|
            0 <= i < param.replicas@.len() ==> (#[trigger] param.replicas@[i]).1.shape == shape,
    }
}

/// Whether a parameter record may reach the proving engine: it belongs to
/// the running phase, is well formed, and matches the dispatched shape.
pub open spec fn params_valid(phase: Phase, shape: SectorShape, p: PhaseParams) -> bool {
    &&& params_phase(p) == phase
    &&& params_wf(p)
    &&& params_match_shape(p, shape)
}

/// Check a deserialized parameter record against the running phase and the
/// dispatched shape, before the proving engine may be invoked with it. A
/// record of the wrong phase, a malformed replica table, or a shape-bound
/// sub-record produced under another shape is a `DeserializationError`.
pub fn validate_params(phase: Phase, shape: SectorShape, params: &PhaseParams) -> (r: Result<
    (),
    WorkerError,
>)
    ensures
        r is Ok <==> params_valid(phase, shape, *params),
        r is Err ==> r == Err::<(), WorkerError>(WorkerError::DeserializationError),
{
    let ok = match params {
        PhaseParams::P1 { .. } => phase == Phase::P1,
        PhaseParams::P2 { param } => phase == Phase::P2 && param.phase1_output.shape == shape,
        PhaseParams::C2 { param } => phase == Phase::C2 && param.phase1_output.shape == shape,
        PhaseParams::WindowPost { param } => phase == Phase::WindowPost && replicas_check(
            &param.replicas,
            shape,
        ),
    };
    if ok {
        Ok(())
    } else {
        Err(WorkerError::DeserializationError)
    }
}

/// Check that every replica record was sealed under the dispatched shape
/// and that the sector identifiers strictly increase.
fn replicas_check(rs: &Vec<(u64, ShapeBoundRecord)>, shape: SectorShape) -> (r: bool)
    ensures
        r <==> replicas_wf(rs@) && (forall|i: int|
            0 <= i < rs@.len() ==> (#[trigger] rs@[i]).1.shape == shape),
{
    let n = rs.len();
    let mut i: usize = 0;
    while i < n
        invariant
            0 <= i <= n,
            n == rs@.len(),
            forall|k: int| 0 <= k < i ==> (#[trigger] rs@[k]).1.shape == shape,
            forall|k: int| 0 <= k < i && k + 1 < n ==> (#[trigger] rs@[k]).0 < rs@[k + 1].0,
        decreases n - i,
    {
        if !(rs[i].1.shape == shape) {
            return false;
        }
        if i + 1 < n && rs[i].0 >= rs[i + 1].0 {
            proof {
                assert(!((rs@[i as int]).0 < rs@[i as int + 1].0));
            }
            return false;
        }
        i = i + 1;
    }
    true
}

/// The success payload of each phase, as the proving engine and its
/// serialization hand it back: pre-commit phase 1 yields its serialized
/// output record, pre-commit phase 2 a pair of commitments, and the commit
/// and proof-of-space-time phases a proof byte sequence.
#[derive(Debug, PartialEq, Eq)]
pub enum PhaseOutput {
    P1 { output: Vec<u8> },
    P2 { comm_r: [u8; 32], comm_d: [u8; 32] },
    C2 { proof_bytes: Vec<u8> },
    WindowPost { proof_bytes: Vec<u8> },
}

/// The bytes that a success payload writes back to the work item's file:
/// the two pre-commit phase-2 commitments are framed as one 64-byte
/// record, replica commitment first; every other payload is written as it
/// stands.
pub open spec fn result_bytes_spec(o: PhaseOutput) -> Seq<u8> {
    match o {
        PhaseOutput::P1 { output } => output@,
        PhaseOutput::P2 { comm_r, comm_d } => comm_r@ + comm_d@,
        PhaseOutput::C2 { proof_bytes } => proof_bytes@,
        PhaseOutput::WindowPost { proof_bytes } => proof_bytes@,
    }
}

/// Frame a success payload into the bytes to persist.
pub fn result_bytes(o: PhaseOutput) -> (r: Vec<u8>)
    ensures
        r@ == result_bytes_spec(o),
{
    match o {
        PhaseOutput::P1 { output } => output,
        PhaseOutput::P2 { comm_r, comm_d } => {
            let mut buf: Vec<u8> = Vec::new();
            let mut i: usize = 0;
            while i < 32
                invariant
                    0 <= i <= 32,
                    buf@ =~= comm_r@.subrange(0, i as int),
                decreases 32 - i,
            {
                buf.push(comm_r[i]);
                i = i + 1;
            }
            proof {
                assert(buf@ =~= comm_r@);
            }
            let mut j: usize = 0;
            while j < 32
                invariant
                    0 <= j <= 32,
                    buf@ =~= comm_r@ + comm_d@.subrange(0, j as int),
                decreases 32 - j,
            {
                buf.push(comm_d[j]);
                j = j + 1;
            }
            proof {
                assert(buf@ =~= comm_r@ + comm_d@);
            }
            buf
        },
        PhaseOutput::C2 { proof_bytes } => proof_bytes,
        PhaseOutput::WindowPost { proof_bytes } => proof_bytes,
    }
}

} // verus!
