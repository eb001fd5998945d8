use archiver::archiver::ArchiverMeta;
use archiver::mining::{
    account_has_balance, redeem_rewards, setup_mining_account, submit_mining_proof, AccountPlan,
    MiningProof, ProofSkipped, SetupError,
};
use archiver::packet::{Address, PACKET_DATA_SIZE};
use archiver::repair::{
    download_step, repair_range, segment_complete, wait_for_segment_download, Download,
    DownloadError, DownloadStep, RepairSlotRange, WaitStep, DOWNLOAD_ATTEMPTS,
};
use archiver::responder::{
    answer_request, judge_slot_reply, limited_deserialize, poll_for_slot, slot_payload,
    slot_query_step, ArchiverRequest, SlotQuery, SlotQueryStep, SLOT_QUERY_ATTEMPTS,
};

#[test]
fn slot_responder_round_trip() {
    let slot = poll_for_slot(Some(42), false).unwrap();
    let from = Address::V4([127, 0, 0, 1], 8001);
    let reply = answer_request(Some(ArchiverRequest::GetSlotHeight(from)), slot).unwrap();
    assert_eq!(reply.packets.len(), 1);
    let packet = reply.packets[0];
    assert_eq!(packet.meta.addr, Some(from));
    assert_eq!(packet.meta.size, 8);
    let payload = packet.payload().unwrap();
    assert_eq!(payload, &[42, 0, 0, 0, 0, 0, 0, 0]);
    assert!(packet.data[8..].iter().all(|b| *b == 0));
    assert_eq!(bincode::deserialize::<u64>(payload).unwrap(), 42);
    assert_eq!(slot_query_step(1, Some(payload)), SlotQueryStep::Slot(42));
}

#[test]
fn slot_responder_drops_malformed_requests() {
    assert!(answer_request(None, 42).is_none());
    let v6 = Address::V6([1u8; 16], 9);
    let reply = answer_request(Some(ArchiverRequest::GetSlotHeight(v6)), u64::MAX).unwrap();
    assert_eq!(reply.packets[0].meta.addr, Some(v6));
    assert_eq!(reply.packets[0].payload().unwrap(), &[255u8; 8]);
}

#[test]
fn slot_payload_is_little_endian() {
    assert_eq!(slot_payload(0x0102_0304_0506_0708), vec![8, 7, 6, 5, 4, 3, 2, 1]);
    assert_eq!(slot_payload(0), vec![0u8; 8]);
    assert_eq!(slot_payload(0x0102_0304_0506_0708), bincode::serialize(&0x0102_0304_0506_0708u64).unwrap());
}

#[test]
fn poll_for_slot_waits_until_slot_or_exit() {
    assert_eq!(poll_for_slot(Some(7), false), Some(7));
    assert_eq!(poll_for_slot(Some(7), true), Some(7));
    assert_eq!(poll_for_slot(None, true), Some(0));
    assert_eq!(poll_for_slot(None, false), None);
}

#[test]
fn limited_deserialize_reads_a_slot() {
    assert_eq!(limited_deserialize(&[42, 0, 0, 0, 0, 0, 0, 0]), Some(42));
    assert_eq!(limited_deserialize(&[1, 2, 3]), None);
    assert_eq!(limited_deserialize(&[]), None);
    assert_eq!(limited_deserialize(&[0, 1, 0, 0, 0, 0, 0, 0]), Some(256));
    assert_eq!(limited_deserialize(&[1, 2, 3, 4, 5, 6, 7]), None);
    // what follows the eighth byte does not count
    assert_eq!(limited_deserialize(&[42, 0, 0, 0, 0, 0, 0, 0, 9, 9]), Some(42));
    assert_eq!(limited_deserialize(&[1u8; 2000]), Some(0x0101_0101_0101_0101));
    assert_eq!(limited_deserialize(&[255u8; 8]), Some(u64::MAX));
    assert_eq!(PACKET_DATA_SIZE, 1232);
}

#[test]
fn slot_query_retries_then_gives_up() {
    assert_eq!(slot_query_step(1, None), SlotQueryStep::Retry);
    assert_eq!(slot_query_step(1, Some(&[1, 2])), SlotQueryStep::Retry);
    assert_eq!(slot_query_step(9, None), SlotQueryStep::Retry);
    assert_eq!(slot_query_step(10, None), SlotQueryStep::GiveUp);
    assert_eq!(slot_query_step(10, Some(&[5, 0, 0, 0, 0, 0, 0, 0])), SlotQueryStep::Slot(5));
    assert_eq!(judge_slot_reply(10, Some(3)), SlotQueryStep::Slot(3));
    assert_eq!(judge_slot_reply(SLOT_QUERY_ATTEMPTS, None), SlotQueryStep::GiveUp);
    assert_eq!(SLOT_QUERY_ATTEMPTS, 10);
}

#[test]
fn download_tries_its_attempts() {
    assert_eq!(download_step(300, 1, true), DownloadStep::Done(300));
    assert_eq!(download_step(300, 1, false), DownloadStep::Retry);
    assert_eq!(download_step(300, 119, false), DownloadStep::Retry);
    assert_eq!(download_step(300, 120, false), DownloadStep::Failed(DownloadError::Incomplete));
    assert_eq!(download_step(300, 120, true), DownloadStep::Done(300));
    assert_eq!(DOWNLOAD_ATTEMPTS, 120);
    assert_eq!(DownloadError::Incomplete.message(), "Unable to download the full segment");
}

#[test]
fn repair_range_covers_the_segment() {
    assert_eq!(repair_range(300, 100), Ok(RepairSlotRange { start: 300, end: 400 }));
    assert_eq!(repair_range(u64::MAX - 5, 5), Ok(RepairSlotRange { start: u64::MAX - 5, end: u64::MAX }));
    assert_eq!(repair_range(u64::MAX - 5, 6), Err(DownloadError::OutOfRange));
}

#[test]
fn segment_is_complete_when_every_slot_is_full() {
    assert!(segment_complete(&[]));
    assert!(segment_complete(&[true, true, true]));
    assert!(!segment_complete(&[true, false, true]));
    assert!(!segment_complete(&[true, true, false]));
    assert!(!segment_complete(&[false]));
}

#[test]
fn waiting_for_the_download_walks_the_segment() {
    assert_eq!(wait_for_segment_download(300, 400, true, false), WaitStep::Look(301));
    assert_eq!(wait_for_segment_download(398, 400, true, false), WaitStep::Look(399));
    assert_eq!(wait_for_segment_download(399, 400, true, false), WaitStep::Done);
    assert_eq!(wait_for_segment_download(300, 400, false, false), WaitStep::Sleep(300));
    assert_eq!(wait_for_segment_download(300, 400, false, true), WaitStep::Done);
    assert_eq!(wait_for_segment_download(300, 400, true, true), WaitStep::Look(301));
    assert_eq!(wait_for_segment_download(u64::MAX - 1, u64::MAX, true, false), WaitStep::Done);
}

#[test]
fn mining_account_setup() {
    let hash = [3u8; 32];
    assert_eq!(setup_mining_account(0, Some(5), Some(hash)), Err(SetupError::NoBalance));
    assert_eq!(setup_mining_account(10, Some(5), None), Ok(AccountPlan::Ready));
    assert_eq!(
        setup_mining_account(10, Some(0), Some(hash)),
        Ok(AccountPlan::Create { lamports: 1, blockhash: hash })
    );
    assert_eq!(
        setup_mining_account(10, None, Some(hash)),
        Ok(AccountPlan::Create { lamports: 1, blockhash: hash })
    );
    assert_eq!(setup_mining_account(10, None, None), Err(SetupError::NoRecentBlockhash));
    assert_eq!(SetupError::NoBalance.message(), "keypair account has no balance");
    assert!(account_has_balance(Some(1)));
    assert!(!account_has_balance(Some(0)));
    assert!(!account_has_balance(None));
}

#[test]
fn mining_proof_names_the_segment() {
    let mut meta = ArchiverMeta::new();
    meta.slot = 900;
    meta.slots_per_segment = 100;
    meta.signature = [4u8; 64];
    meta.blockhash = [5u8; 32];
    meta.sha_state = [6u8; 32];
    let recent = [7u8; 32];
    assert_eq!(
        submit_mining_proof(&meta, Some(1), Some(1), Some(recent)),
        Ok(MiningProof {
            sha_state: [6u8; 32],
            segment_index: 9,
            signature: [4u8; 64],
            blockhash: [5u8; 32],
            recent_blockhash: recent,
        })
    );
    assert_eq!(
        submit_mining_proof(&meta, None, Some(1), Some(recent)),
        Err(ProofSkipped::NoStorageAccount)
    );
    assert_eq!(
        submit_mining_proof(&meta, Some(0), Some(1), Some(recent)),
        Err(ProofSkipped::NoStorageAccount)
    );
    assert_eq!(
        submit_mining_proof(&meta, Some(1), Some(0), Some(recent)),
        Err(ProofSkipped::InsufficientBalance)
    );
    assert_eq!(
        submit_mining_proof(&meta, Some(1), None, Some(recent)),
        Err(ProofSkipped::InsufficientBalance)
    );
    assert_eq!(
        submit_mining_proof(&meta, Some(1), Some(1), None),
        Err(ProofSkipped::NoRecentBlockhash)
    );
}

#[test]
fn rewards_are_claimed_when_there_are_validations() {
    assert!(redeem_rewards(Some(1)));
    assert!(redeem_rewards(Some(20)));
    assert!(!redeem_rewards(Some(0)));
    assert!(!redeem_rewards(None));
}

#[test]
fn slot_query_counts_its_attempts() {
    let mut query = SlotQuery::new();
    for made in 1..SLOT_QUERY_ATTEMPTS {
        assert_eq!(query.after_attempt(None), SlotQueryStep::Retry);
        assert_eq!(query.attempts_made, made);
    }
    assert_eq!(query.after_attempt(Some(&[1])), SlotQueryStep::GiveUp);
    assert_eq!(query.attempts_made, 10);

    let mut query = SlotQuery::new();
    assert_eq!(query.after_attempt(Some(&[1])), SlotQueryStep::Retry);
    assert_eq!(
        query.after_attempt(Some(&[9, 0, 0, 0, 0, 0, 0, 0])),
        SlotQueryStep::Slot(9)
    );
}

#[test]
fn download_counts_its_attempts() {
    let mut download = Download::new(300, 3).unwrap();
    assert_eq!(download.range, RepairSlotRange { start: 300, end: 303 });
    for made in 1..DOWNLOAD_ATTEMPTS {
        assert_eq!(download.after_attempt(&[true, false, true]), DownloadStep::Retry);
        assert_eq!(download.attempts_made, made);
    }
    assert_eq!(
        download.after_attempt(&[true, true, false]),
        DownloadStep::Failed(DownloadError::Incomplete)
    );

    let mut download = Download::new(300, 3).unwrap();
    assert_eq!(download.after_attempt(&[false, false, false]), DownloadStep::Retry);
    assert_eq!(download.after_attempt(&[true, true, true]), DownloadStep::Done(300));
    assert!(matches!(Download::new(u64::MAX, 1), Err(DownloadError::OutOfRange)));
}
