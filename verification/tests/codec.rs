use rand::Rng;
use shredring::codec::{
    ReedSolError, ReedSolomon, DATA_SHREDS_MAX, PARITY_SHREDS_MAX, REEDSOL_ALIGN,
    REEDSOL_FOOTPRINT,
};

/// Workspace descriptor values every test uses: big enough, well aligned.
const MEM_LEN: usize = 4096;
const MEM_ALIGN: usize = 128;

fn encode(data: &[Vec<u8>], parity_count: usize, shred_sz: u64) -> Vec<Vec<u8>> {
    let mut enc = ReedSolomon::new(MEM_LEN, MEM_ALIGN, shred_sz).unwrap();
    for d in data {
        enc.add_data_shred(d).unwrap();
    }
    let parity_buf = vec![0u8; shred_sz as usize];
    for _ in 0..parity_count {
        enc.add_parity_shred(&parity_buf).unwrap();
    }
    enc.encode_fini().unwrap();
    let mut parity = Vec::new();
    for j in 0..parity_count {
        parity.push(enc.parity_shred(j).unwrap().clone());
    }
    parity
}

#[test]
fn links_correctly() {
    println!("{}", REEDSOL_FOOTPRINT);
}

#[test]
fn round_trip_data_and_parity_erasures() {
    let shred_sz: u64 = 8;
    let data: Vec<Vec<u8>> = (0..4u8).map(|i| (0..8u8).map(|b| i * 17 + b).collect()).collect();
    let parity = encode(&data, 3, shred_sz);

    // Erase data shreds 1 and 3 and parity shred 0: three erasures, three
    // parity shreds, recoverable.
    let mut rec = ReedSolomon::recover_init(MEM_LEN, MEM_ALIGN, shred_sz).unwrap();
    let zero = vec![0u8; shred_sz as usize];
    for (i, d) in data.iter().enumerate() {
        if i == 1 || i == 3 {
            rec.add_erased_shred(true, &zero).unwrap();
        } else {
            rec.add_received_shred(true, d).unwrap();
        }
    }
    for (j, p) in parity.iter().enumerate() {
        if j == 0 {
            rec.add_erased_shred(false, &zero).unwrap();
        } else {
            rec.add_received_shred(false, p).unwrap();
        }
    }
    rec.recover_fini().unwrap();
    for (i, d) in data.iter().enumerate() {
        assert_eq!(rec.data_shred(i).unwrap(), d, "data shred {} not recovered", i);
    }
    for (j, p) in parity.iter().enumerate() {
        assert_eq!(rec.parity_shred(j).unwrap(), p, "parity shred {} not recovered", j);
    }
}

#[test]
fn round_trip_parity_only_erasures() {
    let shred_sz: u64 = 16;
    let data: Vec<Vec<u8>> = (0..5u8).map(|i| vec![i.wrapping_mul(31); 16]).collect();
    let parity = encode(&data, 4, shred_sz);

    let mut rec = ReedSolomon::recover_init(MEM_LEN, MEM_ALIGN, shred_sz).unwrap();
    let junk = vec![0xabu8; shred_sz as usize];
    for d in &data {
        rec.add_received_shred(true, d).unwrap();
    }
    for (j, p) in parity.iter().enumerate() {
        if j % 2 == 0 {
            rec.add_erased_shred(false, &junk).unwrap();
        } else {
            rec.add_received_shred(false, p).unwrap();
        }
    }
    rec.recover_fini().unwrap();
    for (j, p) in parity.iter().enumerate() {
        assert_eq!(rec.parity_shred(j).unwrap(), p);
    }
}

#[test]
fn threshold_law_one_too_many() {
    // With P parity shreds, P + 1 erasures must answer PartialRecovery.
    let shred_sz: u64 = 4;
    let data: Vec<Vec<u8>> = (0..4u8).map(|i| vec![i; 4]).collect();
    let parity = encode(&data, 2, shred_sz);

    let mut rec = ReedSolomon::recover_init(MEM_LEN, MEM_ALIGN, shred_sz).unwrap();
    let zero = vec![0u8; 4];
    // Erase three slots: data 0 and 1, parity 0.
    rec.add_erased_shred(true, &zero).unwrap();
    rec.add_erased_shred(true, &zero).unwrap();
    rec.add_received_shred(true, &data[2]).unwrap();
    rec.add_received_shred(true, &data[3]).unwrap();
    rec.add_erased_shred(false, &zero).unwrap();
    rec.add_received_shred(false, &parity[1]).unwrap();
    assert_eq!(rec.recover_fini(), Err(ReedSolError::PartialRecovery));
}

#[test]
fn encode_is_deterministic() {
    let shred_sz: u64 = 32;
    let data: Vec<Vec<u8>> = (0..6u8).map(|i| (0..32u8).map(|b| i ^ b).collect()).collect();
    let parity1 = encode(&data, 5, shred_sz);
    let parity2 = encode(&data, 5, shred_sz);
    assert_eq!(parity1, parity2);
}

#[test]
fn abort_is_idempotent() {
    let shred_sz: u64 = 4;
    let mut enc = ReedSolomon::new(MEM_LEN, MEM_ALIGN, shred_sz).unwrap();
    let shred = vec![1u8; 4];
    enc.add_data_shred(&shred).unwrap();
    enc.abort();
    enc.abort();
    assert_eq!(enc.add_data_shred(&shred), Err(ReedSolError::Aborted));
    assert_eq!(enc.encode_fini(), Err(ReedSolError::Aborted));

    // Aborting after a finished encode must not crash either, and other
    // sessions keep working.
    let data: Vec<Vec<u8>> = vec![vec![7u8; 4], vec![9u8; 4]];
    let mut enc2 = ReedSolomon::new(MEM_LEN, MEM_ALIGN, shred_sz).unwrap();
    for d in &data {
        enc2.add_data_shred(d).unwrap();
    }
    enc2.add_parity_shred(&shred).unwrap();
    enc2.encode_fini().unwrap();
    enc2.abort();
    enc2.abort();
    let parity = encode(&data, 1, shred_sz);
    assert_eq!(parity.len(), 1);
}

#[test]
fn concrete_scenario_sixteen_by_sixteen() {
    // 16 data shreds, 16 parity shreds, 1024 bytes each, data all ones;
    // zero out 5 random data shreds and 3 random parity shreds, mark them
    // erased, recover, and expect the original bytes back exactly.
    let shred_sz: u64 = 1024;
    let data: Vec<Vec<u8>> = (0..16).map(|_| vec![1u8; 1024]).collect();
    let parity = encode(&data, 16, shred_sz);

    let mut rng = rand::thread_rng();
    let mut data_loss: Vec<usize> = Vec::new();
    while data_loss.len() < 5 {
        let i = rng.gen_range(0..16);
        if !data_loss.contains(&i) {
            data_loss.push(i);
        }
    }
    let mut parity_loss: Vec<usize> = Vec::new();
    while parity_loss.len() < 3 {
        let j = rng.gen_range(0..16);
        if !parity_loss.contains(&j) {
            parity_loss.push(j);
        }
    }

    let zero = vec![0u8; 1024];
    let mut rec = ReedSolomon::recover_init(MEM_LEN, MEM_ALIGN, shred_sz).unwrap();
    for (i, d) in data.iter().enumerate() {
        if data_loss.contains(&i) {
            rec.add_erased_shred(true, &zero).unwrap();
        } else {
            rec.add_received_shred(true, d).unwrap();
        }
    }
    for (j, p) in parity.iter().enumerate() {
        if parity_loss.contains(&j) {
            rec.add_erased_shred(false, &zero).unwrap();
        } else {
            rec.add_received_shred(false, p).unwrap();
        }
    }
    rec.recover_fini().unwrap();
    for (i, d) in data.iter().enumerate() {
        assert_eq!(rec.data_shred(i).unwrap(), d, "data shred {} wrong", i);
    }
    for (j, p) in parity.iter().enumerate() {
        assert_eq!(rec.parity_shred(j).unwrap(), p, "parity shred {} wrong", j);
    }
}

#[test]
fn workspace_alignment_is_checked() {
    assert_eq!(
        ReedSolomon::new(MEM_LEN, 64, 8).err(),
        Some(ReedSolError::InvalidAlignment)
    );
    assert_eq!(
        ReedSolomon::recover_init(MEM_LEN, 0, 8).err(),
        Some(ReedSolError::InvalidAlignment)
    );
    assert!(ReedSolomon::new(MEM_LEN, REEDSOL_ALIGN * 2, 8).is_ok());
}

#[test]
fn workspace_length_is_checked() {
    assert_eq!(
        ReedSolomon::new(REEDSOL_FOOTPRINT - 1, MEM_ALIGN, 8).err(),
        Some(ReedSolError::InsufficientMemory)
    );
    assert!(ReedSolomon::new(REEDSOL_FOOTPRINT, MEM_ALIGN, 8).is_ok());
}

#[test]
fn shred_size_is_checked() {
    let mut enc = ReedSolomon::new(MEM_LEN, MEM_ALIGN, 8).unwrap();
    let wrong = vec![0u8; 7];
    assert_eq!(enc.add_data_shred(&wrong), Err(ReedSolError::InvalidShardSize));
    let right = vec![0u8; 8];
    assert!(enc.add_data_shred(&right).is_ok());
}

#[test]
fn shred_counts_are_bounded() {
    let mut enc = ReedSolomon::new(MEM_LEN, MEM_ALIGN, 1).unwrap();
    let shred = vec![0u8; 1];
    for _ in 0..DATA_SHREDS_MAX {
        enc.add_data_shred(&shred).unwrap();
    }
    assert_eq!(enc.add_data_shred(&shred), Err(ReedSolError::TooManyShreds));
    for _ in 0..PARITY_SHREDS_MAX {
        enc.add_parity_shred(&shred).unwrap();
    }
    assert_eq!(enc.add_parity_shred(&shred), Err(ReedSolError::TooManyShreds));
}

#[test]
fn partial_input_is_rejected() {
    let mut enc = ReedSolomon::new(MEM_LEN, MEM_ALIGN, 4).unwrap();
    assert_eq!(enc.encode_fini(), Err(ReedSolError::PartialInput));
    let shred = vec![0u8; 4];
    enc.add_data_shred(&shred).unwrap();
    assert_eq!(enc.encode_fini(), Err(ReedSolError::PartialInput));
    enc.add_parity_shred(&shred).unwrap();
    assert!(enc.encode_fini().is_ok());
}

#[test]
fn misuse_is_malformed_input() {
    let shred = vec![0u8; 4];
    // Recovery operations on an encode session.
    let mut enc = ReedSolomon::new(MEM_LEN, MEM_ALIGN, 4).unwrap();
    assert_eq!(
        enc.add_received_shred(true, &shred),
        Err(ReedSolError::MalformedInput)
    );
    assert_eq!(enc.recover_fini(), Err(ReedSolError::MalformedInput));
    // Encode operations on a recovery session.
    let mut rec = ReedSolomon::recover_init(MEM_LEN, MEM_ALIGN, 4).unwrap();
    assert_eq!(rec.add_data_shred(&shred), Err(ReedSolError::MalformedInput));
    // A recovery without a whole codeword classified.  The failed finish
    // still ends the session: further adds and finishes are rejected.
    rec.add_received_shred(true, &shred).unwrap();
    assert_eq!(rec.recover_fini(), Err(ReedSolError::MalformedInput));
    assert_eq!(
        rec.add_received_shred(false, &shred),
        Err(ReedSolError::MalformedInput)
    );
    assert_eq!(rec.recover_fini(), Err(ReedSolError::MalformedInput));
}

#[test]
fn corrupt_survivors_are_detected() {
    let shred_sz: u64 = 8;
    let data: Vec<Vec<u8>> = (0..3u8).map(|i| vec![i + 1; 8]).collect();
    let parity = encode(&data, 2, shred_sz);

    // No erasures, but one received parity shred corrupted: the finish
    // must answer CorruptData, never a silently wrong codeword.
    let mut bad = parity[1].clone();
    bad[3] ^= 0x5a;
    let mut rec = ReedSolomon::recover_init(MEM_LEN, MEM_ALIGN, shred_sz).unwrap();
    for d in &data {
        rec.add_received_shred(true, d).unwrap();
    }
    rec.add_received_shred(false, &parity[0]).unwrap();
    rec.add_received_shred(false, &bad).unwrap();
    assert_eq!(rec.recover_fini(), Err(ReedSolError::CorruptData));

    // One erased data shred solved from a corrupted parity shred cannot
    // pass the consistency check either.
    let zero = vec![0u8; 8];
    let mut rec2 = ReedSolomon::recover_init(MEM_LEN, MEM_ALIGN, shred_sz).unwrap();
    rec2.add_erased_shred(true, &zero).unwrap();
    rec2.add_received_shred(true, &data[1]).unwrap();
    rec2.add_received_shred(true, &data[2]).unwrap();
    rec2.add_received_shred(false, &bad).unwrap();
    rec2.add_received_shred(false, &parity[0]).unwrap();
    assert_eq!(rec2.recover_fini(), Err(ReedSolError::CorruptData));
}

#[test]
fn session_counts_and_getters() {
    let mut enc = ReedSolomon::new(MEM_LEN, MEM_ALIGN, 2).unwrap();
    assert_eq!(enc.data_shred_count(), 0);
    assert!(enc.data_shred(0).is_none());
    let shred = vec![3u8, 4u8];
    enc.add_data_shred(&shred).unwrap();
    assert_eq!(enc.data_shred_count(), 1);
    assert_eq!(enc.data_shred(0).unwrap(), &shred);
    assert_eq!(enc.parity_shred_count(), 0);
    assert!(enc.parity_shred(0).is_none());
}
