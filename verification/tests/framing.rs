use sector_worker::phase::{result_bytes, PhaseOutput};

#[test]
fn p2_commitments_are_framed_as_one_64_byte_record() {
    let out = PhaseOutput::P2 { comm_r: [0xAA; 32], comm_d: [0xBB; 32] };
    let bytes = result_bytes(out);
    assert_eq!(bytes.len(), 64);
    assert!(bytes[..32].iter().all(|b| *b == 0xAA));
    assert!(bytes[32..].iter().all(|b| *b == 0xBB));
}

#[test]
fn p2_frame_puts_the_replica_commitment_first() {
    let mut comm_r = [0u8; 32];
    let mut comm_d = [0u8; 32];
    for i in 0..32 {
        comm_r[i] = i as u8;
        comm_d[i] = 100 + i as u8;
    }
    let bytes = result_bytes(PhaseOutput::P2 { comm_r, comm_d });
    assert_eq!(&bytes[..32], &comm_r);
    assert_eq!(&bytes[32..], &comm_d);
}

#[test]
fn proof_payloads_are_written_as_they_stand() {
    assert_eq!(
        result_bytes(PhaseOutput::C2 { proof_bytes: vec![9, 8, 7] }),
        vec![9, 8, 7]
    );
    assert_eq!(
        result_bytes(PhaseOutput::WindowPost { proof_bytes: vec![] }),
        Vec::<u8>::new()
    );
    assert_eq!(
        result_bytes(PhaseOutput::P1 { output: b"record".to_vec() }),
        b"record".to_vec()
    );
}
